//! Payment provider metrics.

use vstd::prelude::*;
use crate::definition::{
    accepts_opts, definition_views, is_valid_label_name, subsystem_key, well_formed_definitions,
    Definition, MetricDef, MetricKind,
};
use crate::prom::{desc_id, fnv_from, fnv_step, MetricsRegistry, CounterFamily, HistogramFamily};
use vstd::string::{is_ascii, StringSliceAdditionalSpecFns};
use vstd::utf8::encode_utf8;
use crate::registration::{
    defs_of, extend, ids_fresh, law_registered_found_by_name, register_definitions, Family,
    pop_counter, pop_histogram,
};

verus! {

/// The payment provider metrics, each created from its definition and registered.
pub struct PaymentMetrics {
    provider_requests_total: CounterFamily,
    provider_request_duration_seconds: HistogramFamily,
    provider_failures_total: CounterFamily,
}

/// The definitions of the payment provider metrics, in the order of their registration.
pub open spec fn definitions() -> Seq<MetricDef> {
    seq![
        MetricDef::counter(
            "aframp_payment_provider_requests_total"@,
            "Total payment provider requests by provider and operation"@,
            seq!["provider"@, "operation"@],
        ),
        MetricDef::histogram(
            "aframp_payment_provider_request_duration_seconds"@,
            "Payment provider request duration in seconds"@,
            seq!["provider"@, "operation"@],
            seq![500u64, 1000, 2500, 5000, 10000, 25000, 50000, 100000, 300000],
        ),
        MetricDef::counter(
            "aframp_payment_provider_failures_total"@,
            "Total payment provider failures by provider and failure reason"@,
            seq!["provider"@, "failure_reason"@],
        ),
    ]
}

/// The definitions, as the table that registration goes through.
pub fn table() -> (table: Vec<Definition>)
    ensures
        definition_views(table@) == definitions(),
{
    let table = vec![
        Definition {
            kind: MetricKind::Counter,
            name: "aframp_payment_provider_requests_total",
            help: "Total payment provider requests by provider and operation",
            labels: vec!["provider", "operation"],
            buckets: vec![],
        },
        Definition {
            kind: MetricKind::Histogram,
            name: "aframp_payment_provider_request_duration_seconds",
            help: "Payment provider request duration in seconds",
            labels: vec!["provider", "operation"],
            buckets: vec![500, 1000, 2500, 5000, 10000, 25000, 50000, 100000, 300000],
        },
        Definition {
            kind: MetricKind::Counter,
            name: "aframp_payment_provider_failures_total",
            help: "Total payment provider failures by provider and failure reason",
            labels: vec!["provider", "failure_reason"],
            buckets: vec![],
        },
    ];
    assert(definition_views(table@) =~~= definitions());
    table
}

/// Every definition follows the project's conventions, and no two share a name.
pub proof fn lemma_definitions_well_formed()
    ensures
        well_formed_definitions(definitions()),
        forall|i: int|
            0 <= i < definitions().len() ==> subsystem_key(#[trigger] definitions()[i].opts.name)
                == ('p', 'a'),
{
    reveal_strlit("aframp_payment_provider_requests_total");
    reveal_strlit("Total payment provider requests by provider and operation");
    reveal_strlit("provider");
    reveal_strlit("operation");
    reveal_strlit("aframp_payment_provider_request_duration_seconds");
    reveal_strlit("Payment provider request duration in seconds");
    reveal_strlit("aframp_payment_provider_failures_total");
    reveal_strlit("Total payment provider failures by provider and failure reason");
    reveal_strlit("failure_reason");
    reveal_strlit("aframp_");
    reveal_strlit("_total");
    reveal_strlit("_seconds");
    reveal_strlit("_ngn");
    let defs = definitions();
    assert(forall|j: int|
        0 <= j < defs[0].opts.labels.len() ==> is_valid_label_name(
            #[trigger] defs[0].opts.labels[j],
        ));
    assert(defs[0].follows_conventions());
    assert(forall|j: int|
        0 <= j < defs[1].opts.labels.len() ==> is_valid_label_name(
            #[trigger] defs[1].opts.labels[j],
        ));
    assert(defs[1].follows_conventions());
    assert(forall|j: int|
        0 <= j < defs[2].opts.labels.len() ==> is_valid_label_name(
            #[trigger] defs[2].opts.labels[j],
        ));
    assert(defs[2].follows_conventions());
    // Names with distinct descriptor ids are distinct.
    lemma_definitions_ids();
}

proof fn lemma_id_provider_requests_total()
    ensures
        desc_id("aframp_payment_provider_requests_total"@) == 0x9c1c62983ebbc1b2u64,
{
    broadcast use vstd::string::group_string_axioms;

    reveal_strlit("aframp_payment_provider_requests_total");
    assert(is_ascii("aframp_payment_provider_requests_total"));
    assert("aframp_payment_provider_requests_total".spec_bytes() == encode_utf8("aframp_payment_provider_requests_total"@));
    assert(desc_id("aframp_payment_provider_requests_total"@) == fnv_step(fnv_step(fnv_step(fnv_step(fnv_step(fnv_step(fnv_step(fnv_step(fnv_step(fnv_step(fnv_step(fnv_step(fnv_step(fnv_step(fnv_step(fnv_step(fnv_step(fnv_step(fnv_step(fnv_step(fnv_step(fnv_step(fnv_step(fnv_step(fnv_step(fnv_step(fnv_step(fnv_step(fnv_step(fnv_step(fnv_step(fnv_step(fnv_step(fnv_step(fnv_step(fnv_step(fnv_step(fnv_step(fnv_step(0xcbf29ce484222325u64, 97u8), 102u8), 114u8), 97u8), 109u8), 112u8), 95u8), 112u8), 97u8), 121u8), 109u8), 101u8), 110u8), 116u8), 95u8), 112u8), 114u8), 111u8), 118u8), 105u8), 100u8), 101u8), 114u8), 95u8), 114u8), 101u8), 113u8), 117u8), 101u8), 115u8), 116u8), 115u8), 95u8), 116u8), 111u8), 116u8), 97u8), 108u8), 255u8)) by {
        reveal_with_fuel(fnv_from, 41);
    }
    assert(fnv_step(fnv_step(fnv_step(fnv_step(fnv_step(fnv_step(fnv_step(fnv_step(fnv_step(fnv_step(fnv_step(fnv_step(fnv_step(fnv_step(fnv_step(fnv_step(fnv_step(fnv_step(fnv_step(fnv_step(fnv_step(fnv_step(fnv_step(fnv_step(fnv_step(fnv_step(fnv_step(fnv_step(fnv_step(fnv_step(fnv_step(fnv_step(fnv_step(fnv_step(fnv_step(fnv_step(fnv_step(fnv_step(fnv_step(0xcbf29ce484222325u64, 97u8), 102u8), 114u8), 97u8), 109u8), 112u8), 95u8), 112u8), 97u8), 121u8), 109u8), 101u8), 110u8), 116u8), 95u8), 112u8), 114u8), 111u8), 118u8), 105u8), 100u8), 101u8), 114u8), 95u8), 114u8), 101u8), 113u8), 117u8), 101u8), 115u8), 116u8), 115u8), 95u8), 116u8), 111u8), 116u8), 97u8), 108u8), 255u8) == 0x9c1c62983ebbc1b2u64) by (bit_vector);
}

proof fn lemma_id_provider_request_duration_seconds()
    ensures
        desc_id("aframp_payment_provider_request_duration_seconds"@) == 0x803eeea42577fe2fu64,
{
    broadcast use vstd::string::group_string_axioms;

    reveal_strlit("aframp_payment_provider_request_duration_seconds");
    assert(is_ascii("aframp_payment_provider_request_duration_seconds"));
    assert("aframp_payment_provider_request_duration_seconds".spec_bytes() == encode_utf8("aframp_payment_provider_request_duration_seconds"@));
    assert(desc_id("aframp_payment_provider_request_duration_seconds"@) == fnv_step(fnv_step(fnv_step(fnv_step(fnv_step(fnv_step(fnv_step(fnv_step(fnv_step(fnv_step(fnv_step(fnv_step(fnv_step(fnv_step(fnv_step(fnv_step(fnv_step(fnv_step(fnv_step(fnv_step(fnv_step(fnv_step(fnv_step(fnv_step(fnv_step(fnv_step(fnv_step(fnv_step(fnv_step(fnv_step(fnv_step(fnv_step(fnv_step(fnv_step(fnv_step(fnv_step(fnv_step(fnv_step(fnv_step(fnv_step(fnv_step(fnv_step(fnv_step(fnv_step(fnv_step(fnv_step(fnv_step(fnv_step(fnv_step(0xcbf29ce484222325u64, 97u8), 102u8), 114u8), 97u8), 109u8), 112u8), 95u8), 112u8), 97u8), 121u8), 109u8), 101u8), 110u8), 116u8), 95u8), 112u8), 114u8), 111u8), 118u8), 105u8), 100u8), 101u8), 114u8), 95u8), 114u8), 101u8), 113u8), 117u8), 101u8), 115u8), 116u8), 95u8), 100u8), 117u8), 114u8), 97u8), 116u8), 105u8), 111u8), 110u8), 95u8), 115u8), 101u8), 99u8), 111u8), 110u8), 100u8), 115u8), 255u8)) by {
        reveal_with_fuel(fnv_from, 51);
    }
    assert(fnv_step(fnv_step(fnv_step(fnv_step(fnv_step(fnv_step(fnv_step(fnv_step(fnv_step(fnv_step(fnv_step(fnv_step(fnv_step(fnv_step(fnv_step(fnv_step(fnv_step(fnv_step(fnv_step(fnv_step(fnv_step(fnv_step(fnv_step(fnv_step(fnv_step(fnv_step(fnv_step(fnv_step(fnv_step(fnv_step(fnv_step(fnv_step(fnv_step(fnv_step(fnv_step(fnv_step(fnv_step(fnv_step(fnv_step(fnv_step(fnv_step(fnv_step(fnv_step(fnv_step(fnv_step(fnv_step(fnv_step(fnv_step(fnv_step(0xcbf29ce484222325u64, 97u8), 102u8), 114u8), 97u8), 109u8), 112u8), 95u8), 112u8), 97u8), 121u8), 109u8), 101u8), 110u8), 116u8), 95u8), 112u8), 114u8), 111u8), 118u8), 105u8), 100u8), 101u8), 114u8), 95u8), 114u8), 101u8), 113u8), 117u8), 101u8), 115u8), 116u8), 95u8), 100u8), 117u8), 114u8), 97u8), 116u8), 105u8), 111u8), 110u8), 95u8), 115u8), 101u8), 99u8), 111u8), 110u8), 100u8), 115u8), 255u8) == 0x803eeea42577fe2fu64) by (bit_vector);
}

proof fn lemma_id_provider_failures_total()
    ensures
        desc_id("aframp_payment_provider_failures_total"@) == 0x2aa91af409fcf661u64,
{
    broadcast use vstd::string::group_string_axioms;

    reveal_strlit("aframp_payment_provider_failures_total");
    assert(is_ascii("aframp_payment_provider_failures_total"));
    assert("aframp_payment_provider_failures_total".spec_bytes() == encode_utf8("aframp_payment_provider_failures_total"@));
    assert(desc_id("aframp_payment_provider_failures_total"@) == fnv_step(fnv_step(fnv_step(fnv_step(fnv_step(fnv_step(fnv_step(fnv_step(fnv_step(fnv_step(fnv_step(fnv_step(fnv_step(fnv_step(fnv_step(fnv_step(fnv_step(fnv_step(fnv_step(fnv_step(fnv_step(fnv_step(fnv_step(fnv_step(fnv_step(fnv_step(fnv_step(fnv_step(fnv_step(fnv_step(fnv_step(fnv_step(fnv_step(fnv_step(fnv_step(fnv_step(fnv_step(fnv_step(fnv_step(0xcbf29ce484222325u64, 97u8), 102u8), 114u8), 97u8), 109u8), 112u8), 95u8), 112u8), 97u8), 121u8), 109u8), 101u8), 110u8), 116u8), 95u8), 112u8), 114u8), 111u8), 118u8), 105u8), 100u8), 101u8), 114u8), 95u8), 102u8), 97u8), 105u8), 108u8), 117u8), 114u8), 101u8), 115u8), 95u8), 116u8), 111u8), 116u8), 97u8), 108u8), 255u8)) by {
        reveal_with_fuel(fnv_from, 41);
    }
    assert(fnv_step(fnv_step(fnv_step(fnv_step(fnv_step(fnv_step(fnv_step(fnv_step(fnv_step(fnv_step(fnv_step(fnv_step(fnv_step(fnv_step(fnv_step(fnv_step(fnv_step(fnv_step(fnv_step(fnv_step(fnv_step(fnv_step(fnv_step(fnv_step(fnv_step(fnv_step(fnv_step(fnv_step(fnv_step(fnv_step(fnv_step(fnv_step(fnv_step(fnv_step(fnv_step(fnv_step(fnv_step(fnv_step(fnv_step(0xcbf29ce484222325u64, 97u8), 102u8), 114u8), 97u8), 109u8), 112u8), 95u8), 112u8), 97u8), 121u8), 109u8), 101u8), 110u8), 116u8), 95u8), 112u8), 114u8), 111u8), 118u8), 105u8), 100u8), 101u8), 114u8), 95u8), 102u8), 97u8), 105u8), 108u8), 117u8), 114u8), 101u8), 115u8), 95u8), 116u8), 111u8), 116u8), 97u8), 108u8), 255u8) == 0x2aa91af409fcf661u64) by (bit_vector);
}

/// The descriptor ids that Prometheus gives the metric names.
pub proof fn lemma_definitions_ids()
    ensures
        desc_id(definitions()[0].opts.name) == 0x9c1c62983ebbc1b2u64,
        desc_id(definitions()[1].opts.name) == 0x803eeea42577fe2fu64,
        desc_id(definitions()[2].opts.name) == 0x2aa91af409fcf661u64,
        ids_fresh(definitions(), Set::empty()),
        forall|i: int|
            0 <= i < definitions().len() ==> ids().contains(
                desc_id(#[trigger] definitions()[i].opts.name),
            ),
{
    lemma_id_provider_requests_total();
    lemma_id_provider_request_duration_seconds();
    lemma_id_provider_failures_total();
    let defs = definitions();
    assert(desc_id(defs[0].opts.name) == 0x9c1c62983ebbc1b2u64);
    assert(ids().contains(desc_id(defs[0].opts.name)));
    assert(desc_id(defs[1].opts.name) == 0x803eeea42577fe2fu64);
    assert(ids().contains(desc_id(defs[1].opts.name)));
    assert(desc_id(defs[2].opts.name) == 0x2aa91af409fcf661u64);
    assert(ids().contains(desc_id(defs[2].opts.name)));
}

/// The descriptor ids of the metric names, as a set.
pub open spec fn ids() -> Set<u64> {
    set![0x9c1c62983ebbc1b2u64, 0x803eeea42577fe2fu64, 0x2aa91af409fcf661u64]
}

impl PaymentMetrics {
    /// The vectors, in the order of their definitions.
    pub closed spec fn families(self) -> Seq<Family> {
        seq![
            Family::Counter(self.provider_requests_total),
            Family::Histogram(self.provider_request_duration_seconds),
            Family::Counter(self.provider_failures_total),
        ]
    }

    /// Each vector was created from its definition.
    #[verifier::type_invariant]
    spec fn made_from_definitions(self) -> bool {
        defs_of(self.families()) == definitions()
    }
}

/// Creates the payment provider metrics and registers them in `registry`, in order.
/// Hands back the vectors that were registered, each found under its name.
pub fn register(registry: &mut MetricsRegistry) -> (metrics: PaymentMetrics)
    requires
        ids_fresh(definitions(), old(registry).metrics().dom()),
    ensures
        final(registry).metrics() == extend(old(registry).metrics(), metrics.families()),
        defs_of(metrics.families()) == definitions(),
        forall|i: int|
            0 <= i < metrics.families().len() ==> final(registry).metrics()[(
            #[trigger] metrics.families()[i]).name()] == metrics.families()[i],
{
    let ghost before = registry.metrics();
    let table = table();
    proof {
        lemma_definitions_well_formed();
    }
    assert forall|i: int| 0 <= i < table.len() implies accepts_opts((#[trigger] table[i]@).opts)
        && (table[i]@.kind != MetricKind::Histogram ==> table[i]@.buckets.len() == 0) by {
        assert(definition_views(table@)[i] == table@[i]@);
        assert(definitions()[i].follows_conventions());
    }
    let mut families = register_definitions(registry, &table);
    let ghost registered = families@;
    assert(registered.len() == 3) by {
        assert(defs_of(registered).len() == registered.len());
    }
    assert forall|i: int| 0 <= i < 3 implies #[trigger] registered[i].describes(definitions()[i]) by {
        assert(defs_of(registered)[i] == registered[i].def());
    }
    assert(families@.last() == registered[2]);
    let provider_failures_total = pop_counter(&mut families);
    assert(families@.last() == registered[1]);
    let provider_request_duration_seconds = pop_histogram(&mut families);
    assert(families@.last() == registered[0]);
    let provider_requests_total = pop_counter(&mut families);
    assert(seq![Family::Counter(provider_requests_total), Family::Histogram(provider_request_duration_seconds), Family::Counter(provider_failures_total)] =~= registered);
    let metrics = PaymentMetrics { provider_requests_total, provider_request_duration_seconds, provider_failures_total };
    assert(metrics.families() =~= registered);
    proof {
        assert forall|i: int, j: int| 0 <= i < j < registered.len() implies (#[trigger] registered[i]).name()
            != (#[trigger] registered[j]).name() by {
            assert(defs_of(registered)[i] == registered[i].def());
            assert(defs_of(registered)[j] == registered[j].def());
        }
        law_registered_found_by_name(before, registered);
    }
    metrics
}

/// The vector `aframp_payment_provider_requests_total`, as registered.
pub fn provider_requests_total(metrics: &PaymentMetrics) -> (family: &CounterFamily)
    ensures
        Family::Counter(*family) == metrics.families()[0],
        Family::Counter(*family).describes(definitions()[0]),
        defs_of(metrics.families()) == definitions(),
{
    proof {
        use_type_invariant(metrics);
        assert(defs_of(metrics.families())[0] == metrics.families()[0].def());
    }
    &metrics.provider_requests_total
}

/// The vector `aframp_payment_provider_request_duration_seconds`, as registered.
pub fn provider_request_duration_seconds(metrics: &PaymentMetrics) -> (family: &HistogramFamily)
    ensures
        Family::Histogram(*family) == metrics.families()[1],
        Family::Histogram(*family).describes(definitions()[1]),
        defs_of(metrics.families()) == definitions(),
{
    proof {
        use_type_invariant(metrics);
        assert(defs_of(metrics.families())[1] == metrics.families()[1].def());
    }
    &metrics.provider_request_duration_seconds
}

/// The vector `aframp_payment_provider_failures_total`, as registered.
pub fn provider_failures_total(metrics: &PaymentMetrics) -> (family: &CounterFamily)
    ensures
        Family::Counter(*family) == metrics.families()[2],
        Family::Counter(*family).describes(definitions()[2]),
        defs_of(metrics.families()) == definitions(),
{
    proof {
        use_type_invariant(metrics);
        assert(defs_of(metrics.families())[2] == metrics.families()[2].def());
    }
    &metrics.provider_failures_total
}

} // verus!
