//! Stellar service metrics.

use vstd::prelude::*;
use crate::definition::{
    accepts_opts, definition_views, is_valid_label_name, subsystem_key, well_formed_definitions,
    Definition, MetricDef, MetricKind,
};
use crate::prom::{desc_id, fnv_from, fnv_step, MetricsRegistry, CounterFamily, HistogramFamily};
use vstd::string::{is_ascii, StringSliceAdditionalSpecFns};
use vstd::utf8::encode_utf8;
use crate::registration::{
    defs_of, extend, ids_fresh, law_registered_found_by_name, register_definitions, Family,
    pop_counter, pop_histogram,
};

verus! {

/// The stellar service metrics, each created from its definition and registered.
pub struct StellarMetrics {
    tx_submissions_total: CounterFamily,
    tx_submission_duration_seconds: HistogramFamily,
    trustline_attempts_total: CounterFamily,
}

/// The definitions of the stellar service metrics, in the order of their registration.
pub open spec fn definitions() -> Seq<MetricDef> {
    seq![
        MetricDef::counter(
            "aframp_stellar_tx_submissions_total"@,
            "Total Stellar transaction submissions by status"@,
            seq!["status"@],
        ),
        MetricDef::histogram(
            "aframp_stellar_tx_submission_duration_seconds"@,
            "Stellar transaction submission duration in seconds"@,
            seq![],
            seq![1000u64, 5000, 10000, 20000, 50000, 100000, 200000, 300000],
        ),
        MetricDef::counter(
            "aframp_stellar_trustline_attempts_total"@,
            "Total Stellar trustline creation attempts by status"@,
            seq!["status"@],
        ),
    ]
}

/// The definitions, as the table that registration goes through.
pub fn table() -> (table: Vec<Definition>)
    ensures
        definition_views(table@) == definitions(),
{
    let table = vec![
        Definition {
            kind: MetricKind::Counter,
            name: "aframp_stellar_tx_submissions_total",
            help: "Total Stellar transaction submissions by status",
            labels: vec!["status"],
            buckets: vec![],
        },
        Definition {
            kind: MetricKind::Histogram,
            name: "aframp_stellar_tx_submission_duration_seconds",
            help: "Stellar transaction submission duration in seconds",
            labels: vec![],
            buckets: vec![1000, 5000, 10000, 20000, 50000, 100000, 200000, 300000],
        },
        Definition {
            kind: MetricKind::Counter,
            name: "aframp_stellar_trustline_attempts_total",
            help: "Total Stellar trustline creation attempts by status",
            labels: vec!["status"],
            buckets: vec![],
        },
    ];
    assert(definition_views(table@) =~~= definitions());
    table
}

/// Every definition follows the project's conventions, and no two share a name.
pub proof fn lemma_definitions_well_formed()
    ensures
        well_formed_definitions(definitions()),
        forall|i: int|
            0 <= i < definitions().len() ==> subsystem_key(#[trigger] definitions()[i].opts.name)
                == ('s', 't'),
{
    reveal_strlit("aframp_stellar_tx_submissions_total");
    reveal_strlit("Total Stellar transaction submissions by status");
    reveal_strlit("status");
    reveal_strlit("aframp_stellar_tx_submission_duration_seconds");
    reveal_strlit("Stellar transaction submission duration in seconds");
    reveal_strlit("aframp_stellar_trustline_attempts_total");
    reveal_strlit("Total Stellar trustline creation attempts by status");
    reveal_strlit("aframp_");
    reveal_strlit("_total");
    reveal_strlit("_seconds");
    reveal_strlit("_ngn");
    let defs = definitions();
    assert(forall|j: int|
        0 <= j < defs[0].opts.labels.len() ==> is_valid_label_name(
            #[trigger] defs[0].opts.labels[j],
        ));
    assert(defs[0].follows_conventions());
    assert(forall|j: int|
        0 <= j < defs[1].opts.labels.len() ==> is_valid_label_name(
            #[trigger] defs[1].opts.labels[j],
        ));
    assert(defs[1].follows_conventions());
    assert(forall|j: int|
        0 <= j < defs[2].opts.labels.len() ==> is_valid_label_name(
            #[trigger] defs[2].opts.labels[j],
        ));
    assert(defs[2].follows_conventions());
    // Names with distinct descriptor ids are distinct.
    lemma_definitions_ids();
}

proof fn lemma_id_tx_submissions_total()
    ensures
        desc_id("aframp_stellar_tx_submissions_total"@) == 0x9c6e12cb4fe84957u64,
{
    broadcast use vstd::string::group_string_axioms;

    reveal_strlit("aframp_stellar_tx_submissions_total");
    assert(is_ascii("aframp_stellar_tx_submissions_total"));
    assert("aframp_stellar_tx_submissions_total".spec_bytes() == encode_utf8("aframp_stellar_tx_submissions_total"@));
    assert(desc_id("aframp_stellar_tx_submissions_total"@) == fnv_step(fnv_step(fnv_step(fnv_step(fnv_step(fnv_step(fnv_step(fnv_step(fnv_step(fnv_step(fnv_step(fnv_step(fnv_step(fnv_step(fnv_step(fnv_step(fnv_step(fnv_step(fnv_step(fnv_step(fnv_step(fnv_step(fnv_step(fnv_step(fnv_step(fnv_step(fnv_step(fnv_step(fnv_step(fnv_step(fnv_step(fnv_step(fnv_step(fnv_step(fnv_step(fnv_step(0xcbf29ce484222325u64, 97u8), 102u8), 114u8), 97u8), 109u8), 112u8), 95u8), 115u8), 116u8), 101u8), 108u8), 108u8), 97u8), 114u8), 95u8), 116u8), 120u8), 95u8), 115u8), 117u8), 98u8), 109u8), 105u8), 115u8), 115u8), 105u8), 111u8), 110u8), 115u8), 95u8), 116u8), 111u8), 116u8), 97u8), 108u8), 255u8)) by {
        reveal_with_fuel(fnv_from, 38);
    }
    assert(fnv_step(fnv_step(fnv_step(fnv_step(fnv_step(fnv_step(fnv_step(fnv_step(fnv_step(fnv_step(fnv_step(fnv_step(fnv_step(fnv_step(fnv_step(fnv_step(fnv_step(fnv_step(fnv_step(fnv_step(fnv_step(fnv_step(fnv_step(fnv_step(fnv_step(fnv_step(fnv_step(fnv_step(fnv_step(fnv_step(fnv_step(fnv_step(fnv_step(fnv_step(fnv_step(fnv_step(0xcbf29ce484222325u64, 97u8), 102u8), 114u8), 97u8), 109u8), 112u8), 95u8), 115u8), 116u8), 101u8), 108u8), 108u8), 97u8), 114u8), 95u8), 116u8), 120u8), 95u8), 115u8), 117u8), 98u8), 109u8), 105u8), 115u8), 115u8), 105u8), 111u8), 110u8), 115u8), 95u8), 116u8), 111u8), 116u8), 97u8), 108u8), 255u8) == 0x9c6e12cb4fe84957u64) by (bit_vector);
}

proof fn lemma_id_tx_submission_duration_seconds()
    ensures
        desc_id("aframp_stellar_tx_submission_duration_seconds"@) == 0x84f580e232314eceu64,
{
    broadcast use vstd::string::group_string_axioms;

    reveal_strlit("aframp_stellar_tx_submission_duration_seconds");
    assert(is_ascii("aframp_stellar_tx_submission_duration_seconds"));
    assert("aframp_stellar_tx_submission_duration_seconds".spec_bytes() == encode_utf8("aframp_stellar_tx_submission_duration_seconds"@));
    assert(desc_id("aframp_stellar_tx_submission_duration_seconds"@) == fnv_step(fnv_step(fnv_step(fnv_step(fnv_step(fnv_step(fnv_step(fnv_step(fnv_step(fnv_step(fnv_step(fnv_step(fnv_step(fnv_step(fnv_step(fnv_step(fnv_step(fnv_step(fnv_step(fnv_step(fnv_step(fnv_step(fnv_step(fnv_step(fnv_step(fnv_step(fnv_step(fnv_step(fnv_step(fnv_step(fnv_step(fnv_step(fnv_step(fnv_step(fnv_step(fnv_step(fnv_step(fnv_step(fnv_step(fnv_step(fnv_step(fnv_step(fnv_step(fnv_step(fnv_step(fnv_step(0xcbf29ce484222325u64, 97u8), 102u8), 114u8), 97u8), 109u8), 112u8), 95u8), 115u8), 116u8), 101u8), 108u8), 108u8), 97u8), 114u8), 95u8), 116u8), 120u8), 95u8), 115u8), 117u8), 98u8), 109u8), 105u8), 115u8), 115u8), 105u8), 111u8), 110u8), 95u8), 100u8), 117u8), 114u8), 97u8), 116u8), 105u8), 111u8), 110u8), 95u8), 115u8), 101u8), 99u8), 111u8), 110u8), 100u8), 115u8), 255u8)) by {
        reveal_with_fuel(fnv_from, 48);
    }
    assert(fnv_step(fnv_step(fnv_step(fnv_step(fnv_step(fnv_step(fnv_step(fnv_step(fnv_step(fnv_step(fnv_step(fnv_step(fnv_step(fnv_step(fnv_step(fnv_step(fnv_step(fnv_step(fnv_step(fnv_step(fnv_step(fnv_step(fnv_step(fnv_step(fnv_step(fnv_step(fnv_step(fnv_step(fnv_step(fnv_step(fnv_step(fnv_step(fnv_step(fnv_step(fnv_step(fnv_step(fnv_step(fnv_step(fnv_step(fnv_step(fnv_step(fnv_step(fnv_step(fnv_step(fnv_step(fnv_step(0xcbf29ce484222325u64, 97u8), 102u8), 114u8), 97u8), 109u8), 112u8), 95u8), 115u8), 116u8), 101u8), 108u8), 108u8), 97u8), 114u8), 95u8), 116u8), 120u8), 95u8), 115u8), 117u8), 98u8), 109u8), 105u8), 115u8), 115u8), 105u8), 111u8), 110u8), 95u8), 100u8), 117u8), 114u8), 97u8), 116u8), 105u8), 111u8), 110u8), 95u8), 115u8), 101u8), 99u8), 111u8), 110u8), 100u8), 115u8), 255u8) == 0x84f580e232314eceu64) by (bit_vector);
}

proof fn lemma_id_trustline_attempts_total()
    ensures
        desc_id("aframp_stellar_trustline_attempts_total"@) == 0x8331ed9f4e15b624u64,
{
    broadcast use vstd::string::group_string_axioms;

    reveal_strlit("aframp_stellar_trustline_attempts_total");
    assert(is_ascii("aframp_stellar_trustline_attempts_total"));
    assert("aframp_stellar_trustline_attempts_total".spec_bytes() == encode_utf8("aframp_stellar_trustline_attempts_total"@));
    assert(desc_id("aframp_stellar_trustline_attempts_total"@) == fnv_step(fnv_step(fnv_step(fnv_step(fnv_step(fnv_step(fnv_step(fnv_step(fnv_step(fnv_step(fnv_step(fnv_step(fnv_step(fnv_step(fnv_step(fnv_step(fnv_step(fnv_step(fnv_step(fnv_step(fnv_step(fnv_step(fnv_step(fnv_step(fnv_step(fnv_step(fnv_step(fnv_step(fnv_step(fnv_step(fnv_step(fnv_step(fnv_step(fnv_step(fnv_step(fnv_step(fnv_step(fnv_step(fnv_step(fnv_step(0xcbf29ce484222325u64, 97u8), 102u8), 114u8), 97u8), 109u8), 112u8), 95u8), 115u8), 116u8), 101u8), 108u8), 108u8), 97u8), 114u8), 95u8), 116u8), 114u8), 117u8), 115u8), 116u8), 108u8), 105u8), 110u8), 101u8), 95u8), 97u8), 116u8), 116u8), 101u8), 109u8), 112u8), 116u8), 115u8), 95u8), 116u8), 111u8), 116u8), 97u8), 108u8), 255u8)) by {
        reveal_with_fuel(fnv_from, 42);
    }
    assert(fnv_step(fnv_step(fnv_step(fnv_step(fnv_step(fnv_step(fnv_step(fnv_step(fnv_step(fnv_step(fnv_step(fnv_step(fnv_step(fnv_step(fnv_step(fnv_step(fnv_step(fnv_step(fnv_step(fnv_step(fnv_step(fnv_step(fnv_step(fnv_step(fnv_step(fnv_step(fnv_step(fnv_step(fnv_step(fnv_step(fnv_step(fnv_step(fnv_step(fnv_step(fnv_step(fnv_step(fnv_step(fnv_step(fnv_step(fnv_step(0xcbf29ce484222325u64, 97u8), 102u8), 114u8), 97u8), 109u8), 112u8), 95u8), 115u8), 116u8), 101u8), 108u8), 108u8), 97u8), 114u8), 95u8), 116u8), 114u8), 117u8), 115u8), 116u8), 108u8), 105u8), 110u8), 101u8), 95u8), 97u8), 116u8), 116u8), 101u8), 109u8), 112u8), 116u8), 115u8), 95u8), 116u8), 111u8), 116u8), 97u8), 108u8), 255u8) == 0x8331ed9f4e15b624u64) by (bit_vector);
}

/// The descriptor ids that Prometheus gives the metric names.
pub proof fn lemma_definitions_ids()
    ensures
        desc_id(definitions()[0].opts.name) == 0x9c6e12cb4fe84957u64,
        desc_id(definitions()[1].opts.name) == 0x84f580e232314eceu64,
        desc_id(definitions()[2].opts.name) == 0x8331ed9f4e15b624u64,
        ids_fresh(definitions(), Set::empty()),
        forall|i: int|
            0 <= i < definitions().len() ==> ids().contains(
                desc_id(#[trigger] definitions()[i].opts.name),
            ),
{
    lemma_id_tx_submissions_total();
    lemma_id_tx_submission_duration_seconds();
    lemma_id_trustline_attempts_total();
    let defs = definitions();
    assert(desc_id(defs[0].opts.name) == 0x9c6e12cb4fe84957u64);
    assert(ids().contains(desc_id(defs[0].opts.name)));
    assert(desc_id(defs[1].opts.name) == 0x84f580e232314eceu64);
    assert(ids().contains(desc_id(defs[1].opts.name)));
    assert(desc_id(defs[2].opts.name) == 0x8331ed9f4e15b624u64);
    assert(ids().contains(desc_id(defs[2].opts.name)));
}

/// The descriptor ids of the metric names, as a set.
pub open spec fn ids() -> Set<u64> {
    set![0x9c6e12cb4fe84957u64, 0x84f580e232314eceu64, 0x8331ed9f4e15b624u64]
}

impl StellarMetrics {
    /// The vectors, in the order of their definitions.
    pub closed spec fn families(self) -> Seq<Family> {
        seq![
            Family::Counter(self.tx_submissions_total),
            Family::Histogram(self.tx_submission_duration_seconds),
            Family::Counter(self.trustline_attempts_total),
        ]
    }

    /// Each vector was created from its definition.
    #[verifier::type_invariant]
    spec fn made_from_definitions(self) -> bool {
        defs_of(self.families()) == definitions()
    }
}

/// Creates the stellar service metrics and registers them in `registry`, in order.
/// Hands back the vectors that were registered, each found under its name.
pub fn register(registry: &mut MetricsRegistry) -> (metrics: StellarMetrics)
    requires
        ids_fresh(definitions(), old(registry).metrics().dom()),
    ensures
        final(registry).metrics() == extend(old(registry).metrics(), metrics.families()),
        defs_of(metrics.families()) == definitions(),
        forall|i: int|
            0 <= i < metrics.families().len() ==> final(registry).metrics()[(
            #[trigger] metrics.families()[i]).name()] == metrics.families()[i],
{
    let ghost before = registry.metrics();
    let table = table();
    proof {
        lemma_definitions_well_formed();
    }
    assert forall|i: int| 0 <= i < table.len() implies accepts_opts((#[trigger] table[i]@).opts)
        && (table[i]@.kind != MetricKind::Histogram ==> table[i]@.buckets.len() == 0) by {
        assert(definition_views(table@)[i] == table@[i]@);
        assert(definitions()[i].follows_conventions());
    }
    let mut families = register_definitions(registry, &table);
    let ghost registered = families@;
    assert(registered.len() == 3) by {
        assert(defs_of(registered).len() == registered.len());
    }
    assert forall|i: int| 0 <= i < 3 implies #[trigger] registered[i].describes(definitions()[i]) by {
        assert(defs_of(registered)[i] == registered[i].def());
    }
    assert(families@.last() == registered[2]);
    let trustline_attempts_total = pop_counter(&mut families);
    assert(families@.last() == registered[1]);
    let tx_submission_duration_seconds = pop_histogram(&mut families);
    assert(families@.last() == registered[0]);
    let tx_submissions_total = pop_counter(&mut families);
    assert(seq![Family::Counter(tx_submissions_total), Family::Histogram(tx_submission_duration_seconds), Family::Counter(trustline_attempts_total)] =~= registered);
    let metrics = StellarMetrics { tx_submissions_total, tx_submission_duration_seconds, trustline_attempts_total };
    assert(metrics.families() =~= registered);
    proof {
        assert forall|i: int, j: int| 0 <= i < j < registered.len() implies (#[trigger] registered[i]).name()
            != (#[trigger] registered[j]).name() by {
            assert(defs_of(registered)[i] == registered[i].def());
            assert(defs_of(registered)[j] == registered[j].def());
        }
        law_registered_found_by_name(before, registered);
    }
    metrics
}

/// The vector `aframp_stellar_tx_submissions_total`, as registered.
pub fn tx_submissions_total(metrics: &StellarMetrics) -> (family: &CounterFamily)
    ensures
        Family::Counter(*family) == metrics.families()[0],
        Family::Counter(*family).describes(definitions()[0]),
        defs_of(metrics.families()) == definitions(),
{
    proof {
        use_type_invariant(metrics);
        assert(defs_of(metrics.families())[0] == metrics.families()[0].def());
    }
    &metrics.tx_submissions_total
}

/// The vector `aframp_stellar_tx_submission_duration_seconds`, as registered.
pub fn tx_submission_duration_seconds(metrics: &StellarMetrics) -> (family: &HistogramFamily)
    ensures
        Family::Histogram(*family) == metrics.families()[1],
        Family::Histogram(*family).describes(definitions()[1]),
        defs_of(metrics.families()) == definitions(),
{
    proof {
        use_type_invariant(metrics);
        assert(defs_of(metrics.families())[1] == metrics.families()[1].def());
    }
    &metrics.tx_submission_duration_seconds
}

/// The vector `aframp_stellar_trustline_attempts_total`, as registered.
pub fn trustline_attempts_total(metrics: &StellarMetrics) -> (family: &CounterFamily)
    ensures
        Family::Counter(*family) == metrics.families()[2],
        Family::Counter(*family).describes(definitions()[2]),
        defs_of(metrics.families()) == definitions(),
{
    proof {
        use_type_invariant(metrics);
        assert(defs_of(metrics.families())[2] == metrics.families()[2].def());
    }
    &metrics.trustline_attempts_total
}

} // verus!
