//! HTTP request metrics.

use vstd::prelude::*;
use crate::definition::{
    accepts_opts, definition_views, is_valid_label_name, subsystem_key, well_formed_definitions,
    Definition, MetricDef, MetricKind,
};
use crate::prom::{
    desc_id, fnv_from, fnv_step, MetricsRegistry, CounterFamily, GaugeFamily, HistogramFamily,
};
use vstd::string::{is_ascii, StringSliceAdditionalSpecFns};
use vstd::utf8::encode_utf8;
use crate::registration::{
    defs_of, extend, ids_fresh, law_registered_found_by_name, register_definitions, Family,
    pop_counter, pop_gauge, pop_histogram,
};

verus! {

/// The HTTP request metrics, each created from its definition and registered.
pub struct HttpMetrics {
    requests_total: CounterFamily,
    request_duration_seconds: HistogramFamily,
    requests_in_flight: GaugeFamily,
}

/// The definitions of the HTTP request metrics, in the order of their registration.
pub open spec fn definitions() -> Seq<MetricDef> {
    seq![
        MetricDef::counter(
            "aframp_http_requests_total"@,
            "Total number of HTTP requests"@,
            seq!["method"@, "route"@, "status_code"@],
        ),
        MetricDef::histogram(
            "aframp_http_request_duration_seconds"@,
            "HTTP request duration in seconds"@,
            seq!["method"@, "route"@],
            seq![50u64, 100, 250, 500, 1000, 2500, 5000, 10000, 25000, 50000, 100000],
        ),
        MetricDef::gauge(
            "aframp_http_requests_in_flight"@,
            "Number of HTTP requests currently being processed"@,
            seq!["route"@],
        ),
    ]
}

/// The definitions, as the table that registration goes through.
pub fn table() -> (table: Vec<Definition>)
    ensures
        definition_views(table@) == definitions(),
{
    let table = vec![
        Definition {
            kind: MetricKind::Counter,
            name: "aframp_http_requests_total",
            help: "Total number of HTTP requests",
            labels: vec!["method", "route", "status_code"],
            buckets: vec![],
        },
        Definition {
            kind: MetricKind::Histogram,
            name: "aframp_http_request_duration_seconds",
            help: "HTTP request duration in seconds",
            labels: vec!["method", "route"],
            buckets: vec![50, 100, 250, 500, 1000, 2500, 5000, 10000, 25000, 50000, 100000],
        },
        Definition {
            kind: MetricKind::Gauge,
            name: "aframp_http_requests_in_flight",
            help: "Number of HTTP requests currently being processed",
            labels: vec!["route"],
            buckets: vec![],
        },
    ];
    assert(definition_views(table@) =~~= definitions());
    table
}

/// Every definition follows the project's conventions, and no two share a name.
pub proof fn lemma_definitions_well_formed()
    ensures
        well_formed_definitions(definitions()),
        forall|i: int|
            0 <= i < definitions().len() ==> subsystem_key(#[trigger] definitions()[i].opts.name)
                == ('h', 't'),
{
    reveal_strlit("aframp_http_requests_total");
    reveal_strlit("Total number of HTTP requests");
    reveal_strlit("method");
    reveal_strlit("route");
    reveal_strlit("status_code");
    reveal_strlit("aframp_http_request_duration_seconds");
    reveal_strlit("HTTP request duration in seconds");
    reveal_strlit("aframp_http_requests_in_flight");
    reveal_strlit("Number of HTTP requests currently being processed");
    reveal_strlit("aframp_");
    reveal_strlit("_total");
    reveal_strlit("_seconds");
    reveal_strlit("_ngn");
    let defs = definitions();
    assert(forall|j: int|
        0 <= j < defs[0].opts.labels.len() ==> is_valid_label_name(
            #[trigger] defs[0].opts.labels[j],
        ));
    assert(defs[0].follows_conventions());
    assert(forall|j: int|
        0 <= j < defs[1].opts.labels.len() ==> is_valid_label_name(
            #[trigger] defs[1].opts.labels[j],
        ));
    assert(defs[1].follows_conventions());
    assert(forall|j: int|
        0 <= j < defs[2].opts.labels.len() ==> is_valid_label_name(
            #[trigger] defs[2].opts.labels[j],
        ));
    assert(defs[2].follows_conventions());
    // Names with distinct descriptor ids are distinct.
    lemma_definitions_ids();
}

proof fn lemma_id_requests_total()
    ensures
        desc_id("aframp_http_requests_total"@) == 0x766fd60c56b63f4u64,
{
    broadcast use vstd::string::group_string_axioms;

    reveal_strlit("aframp_http_requests_total");
    assert(is_ascii("aframp_http_requests_total"));
    assert("aframp_http_requests_total".spec_bytes() == encode_utf8("aframp_http_requests_total"@));
    assert(desc_id("aframp_http_requests_total"@) == fnv_step(fnv_step(fnv_step(fnv_step(fnv_step(fnv_step(fnv_step(fnv_step(fnv_step(fnv_step(fnv_step(fnv_step(fnv_step(fnv_step(fnv_step(fnv_step(fnv_step(fnv_step(fnv_step(fnv_step(fnv_step(fnv_step(fnv_step(fnv_step(fnv_step(fnv_step(fnv_step(0xcbf29ce484222325u64, 97u8), 102u8), 114u8), 97u8), 109u8), 112u8), 95u8), 104u8), 116u8), 116u8), 112u8), 95u8), 114u8), 101u8), 113u8), 117u8), 101u8), 115u8), 116u8), 115u8), 95u8), 116u8), 111u8), 116u8), 97u8), 108u8), 255u8)) by {
        reveal_with_fuel(fnv_from, 29);
    }
    assert(fnv_step(fnv_step(fnv_step(fnv_step(fnv_step(fnv_step(fnv_step(fnv_step(fnv_step(fnv_step(fnv_step(fnv_step(fnv_step(fnv_step(fnv_step(fnv_step(fnv_step(fnv_step(fnv_step(fnv_step(fnv_step(fnv_step(fnv_step(fnv_step(fnv_step(fnv_step(fnv_step(0xcbf29ce484222325u64, 97u8), 102u8), 114u8), 97u8), 109u8), 112u8), 95u8), 104u8), 116u8), 116u8), 112u8), 95u8), 114u8), 101u8), 113u8), 117u8), 101u8), 115u8), 116u8), 115u8), 95u8), 116u8), 111u8), 116u8), 97u8), 108u8), 255u8) == 0x766fd60c56b63f4u64) by (bit_vector);
}

proof fn lemma_id_request_duration_seconds()
    ensures
        desc_id("aframp_http_request_duration_seconds"@) == 0x43b2406278a83d65u64,
{
    broadcast use vstd::string::group_string_axioms;

    reveal_strlit("aframp_http_request_duration_seconds");
    assert(is_ascii("aframp_http_request_duration_seconds"));
    assert("aframp_http_request_duration_seconds".spec_bytes() == encode_utf8("aframp_http_request_duration_seconds"@));
    assert(desc_id("aframp_http_request_duration_seconds"@) == fnv_step(fnv_step(fnv_step(fnv_step(fnv_step(fnv_step(fnv_step(fnv_step(fnv_step(fnv_step(fnv_step(fnv_step(fnv_step(fnv_step(fnv_step(fnv_step(fnv_step(fnv_step(fnv_step(fnv_step(fnv_step(fnv_step(fnv_step(fnv_step(fnv_step(fnv_step(fnv_step(fnv_step(fnv_step(fnv_step(fnv_step(fnv_step(fnv_step(fnv_step(fnv_step(fnv_step(fnv_step(0xcbf29ce484222325u64, 97u8), 102u8), 114u8), 97u8), 109u8), 112u8), 95u8), 104u8), 116u8), 116u8), 112u8), 95u8), 114u8), 101u8), 113u8), 117u8), 101u8), 115u8), 116u8), 95u8), 100u8), 117u8), 114u8), 97u8), 116u8), 105u8), 111u8), 110u8), 95u8), 115u8), 101u8), 99u8), 111u8), 110u8), 100u8), 115u8), 255u8)) by {
        reveal_with_fuel(fnv_from, 39);
    }
    assert(fnv_step(fnv_step(fnv_step(fnv_step(fnv_step(fnv_step(fnv_step(fnv_step(fnv_step(fnv_step(fnv_step(fnv_step(fnv_step(fnv_step(fnv_step(fnv_step(fnv_step(fnv_step(fnv_step(fnv_step(fnv_step(fnv_step(fnv_step(fnv_step(fnv_step(fnv_step(fnv_step(fnv_step(fnv_step(fnv_step(fnv_step(fnv_step(fnv_step(fnv_step(fnv_step(fnv_step(fnv_step(0xcbf29ce484222325u64, 97u8), 102u8), 114u8), 97u8), 109u8), 112u8), 95u8), 104u8), 116u8), 116u8), 112u8), 95u8), 114u8), 101u8), 113u8), 117u8), 101u8), 115u8), 116u8), 95u8), 100u8), 117u8), 114u8), 97u8), 116u8), 105u8), 111u8), 110u8), 95u8), 115u8), 101u8), 99u8), 111u8), 110u8), 100u8), 115u8), 255u8) == 0x43b2406278a83d65u64) by (bit_vector);
}

proof fn lemma_id_requests_in_flight()
    ensures
        desc_id("aframp_http_requests_in_flight"@) == 0xb64f18257ecf0d3cu64,
{
    broadcast use vstd::string::group_string_axioms;

    reveal_strlit("aframp_http_requests_in_flight");
    assert(is_ascii("aframp_http_requests_in_flight"));
    assert("aframp_http_requests_in_flight".spec_bytes() == encode_utf8("aframp_http_requests_in_flight"@));
    assert(desc_id("aframp_http_requests_in_flight"@) == fnv_step(fnv_step(fnv_step(fnv_step(fnv_step(fnv_step(fnv_step(fnv_step(fnv_step(fnv_step(fnv_step(fnv_step(fnv_step(fnv_step(fnv_step(fnv_step(fnv_step(fnv_step(fnv_step(fnv_step(fnv_step(fnv_step(fnv_step(fnv_step(fnv_step(fnv_step(fnv_step(fnv_step(fnv_step(fnv_step(fnv_step(0xcbf29ce484222325u64, 97u8), 102u8), 114u8), 97u8), 109u8), 112u8), 95u8), 104u8), 116u8), 116u8), 112u8), 95u8), 114u8), 101u8), 113u8), 117u8), 101u8), 115u8), 116u8), 115u8), 95u8), 105u8), 110u8), 95u8), 102u8), 108u8), 105u8), 103u8), 104u8), 116u8), 255u8)) by {
        reveal_with_fuel(fnv_from, 33);
    }
    assert(fnv_step(fnv_step(fnv_step(fnv_step(fnv_step(fnv_step(fnv_step(fnv_step(fnv_step(fnv_step(fnv_step(fnv_step(fnv_step(fnv_step(fnv_step(fnv_step(fnv_step(fnv_step(fnv_step(fnv_step(fnv_step(fnv_step(fnv_step(fnv_step(fnv_step(fnv_step(fnv_step(fnv_step(fnv_step(fnv_step(fnv_step(0xcbf29ce484222325u64, 97u8), 102u8), 114u8), 97u8), 109u8), 112u8), 95u8), 104u8), 116u8), 116u8), 112u8), 95u8), 114u8), 101u8), 113u8), 117u8), 101u8), 115u8), 116u8), 115u8), 95u8), 105u8), 110u8), 95u8), 102u8), 108u8), 105u8), 103u8), 104u8), 116u8), 255u8) == 0xb64f18257ecf0d3cu64) by (bit_vector);
}

/// The descriptor ids that Prometheus gives the metric names.
pub proof fn lemma_definitions_ids()
    ensures
        desc_id(definitions()[0].opts.name) == 0x766fd60c56b63f4u64,
        desc_id(definitions()[1].opts.name) == 0x43b2406278a83d65u64,
        desc_id(definitions()[2].opts.name) == 0xb64f18257ecf0d3cu64,
        ids_fresh(definitions(), Set::empty()),
        forall|i: int|
            0 <= i < definitions().len() ==> ids().contains(
                desc_id(#[trigger] definitions()[i].opts.name),
            ),
{
    lemma_id_requests_total();
    lemma_id_request_duration_seconds();
    lemma_id_requests_in_flight();
    let defs = definitions();
    assert(desc_id(defs[0].opts.name) == 0x766fd60c56b63f4u64);
    assert(ids().contains(desc_id(defs[0].opts.name)));
    assert(desc_id(defs[1].opts.name) == 0x43b2406278a83d65u64);
    assert(ids().contains(desc_id(defs[1].opts.name)));
    assert(desc_id(defs[2].opts.name) == 0xb64f18257ecf0d3cu64);
    assert(ids().contains(desc_id(defs[2].opts.name)));
}

/// The descriptor ids of the metric names, as a set.
pub open spec fn ids() -> Set<u64> {
    set![0x766fd60c56b63f4u64, 0x43b2406278a83d65u64, 0xb64f18257ecf0d3cu64]
}

impl HttpMetrics {
    /// The vectors, in the order of their definitions.
    pub closed spec fn families(self) -> Seq<Family> {
        seq![
            Family::Counter(self.requests_total),
            Family::Histogram(self.request_duration_seconds),
            Family::Gauge(self.requests_in_flight),
        ]
    }

    /// Each vector was created from its definition.
    #[verifier::type_invariant]
    spec fn made_from_definitions(self) -> bool {
        defs_of(self.families()) == definitions()
    }
}

/// Creates the HTTP request metrics and registers them in `registry`, in order.
/// Hands back the vectors that were registered, each found under its name.
pub fn register(registry: &mut MetricsRegistry) -> (metrics: HttpMetrics)
    requires
        ids_fresh(definitions(), old(registry).metrics().dom()),
    ensures
        final(registry).metrics() == extend(old(registry).metrics(), metrics.families()),
        defs_of(metrics.families()) == definitions(),
        forall|i: int|
            0 <= i < metrics.families().len() ==> final(registry).metrics()[(
            #[trigger] metrics.families()[i]).name()] == metrics.families()[i],
{
    let ghost before = registry.metrics();
    let table = table();
    proof {
        lemma_definitions_well_formed();
    }
    assert forall|i: int| 0 <= i < table.len() implies accepts_opts((#[trigger] table[i]@).opts)
        && (table[i]@.kind != MetricKind::Histogram ==> table[i]@.buckets.len() == 0) by {
        assert(definition_views(table@)[i] == table@[i]@);
        assert(definitions()[i].follows_conventions());
    }
    let mut families = register_definitions(registry, &table);
    let ghost registered = families@;
    assert(registered.len() == 3) by {
        assert(defs_of(registered).len() == registered.len());
    }
    assert forall|i: int| 0 <= i < 3 implies #[trigger] registered[i].describes(definitions()[i]) by {
        assert(defs_of(registered)[i] == registered[i].def());
    }
    assert(families@.last() == registered[2]);
    let requests_in_flight = pop_gauge(&mut families);
    assert(families@.last() == registered[1]);
    let request_duration_seconds = pop_histogram(&mut families);
    assert(families@.last() == registered[0]);
    let requests_total = pop_counter(&mut families);
    assert(seq![Family::Counter(requests_total), Family::Histogram(request_duration_seconds), Family::Gauge(requests_in_flight)] =~= registered);
    let metrics = HttpMetrics { requests_total, request_duration_seconds, requests_in_flight };
    assert(metrics.families() =~= registered);
    proof {
        assert forall|i: int, j: int| 0 <= i < j < registered.len() implies (#[trigger] registered[i]).name()
            != (#[trigger] registered[j]).name() by {
            assert(defs_of(registered)[i] == registered[i].def());
            assert(defs_of(registered)[j] == registered[j].def());
        }
        law_registered_found_by_name(before, registered);
    }
    metrics
}

/// The vector `aframp_http_requests_total`, as registered.
pub fn requests_total(metrics: &HttpMetrics) -> (family: &CounterFamily)
    ensures
        Family::Counter(*family) == metrics.families()[0],
        Family::Counter(*family).describes(definitions()[0]),
        defs_of(metrics.families()) == definitions(),
{
    proof {
        use_type_invariant(metrics);
        assert(defs_of(metrics.families())[0] == metrics.families()[0].def());
    }
    &metrics.requests_total
}

/// The vector `aframp_http_request_duration_seconds`, as registered.
pub fn request_duration_seconds(metrics: &HttpMetrics) -> (family: &HistogramFamily)
    ensures
        Family::Histogram(*family) == metrics.families()[1],
        Family::Histogram(*family).describes(definitions()[1]),
        defs_of(metrics.families()) == definitions(),
{
    proof {
        use_type_invariant(metrics);
        assert(defs_of(metrics.families())[1] == metrics.families()[1].def());
    }
    &metrics.request_duration_seconds
}

/// The vector `aframp_http_requests_in_flight`, as registered.
pub fn requests_in_flight(metrics: &HttpMetrics) -> (family: &GaugeFamily)
    ensures
        Family::Gauge(*family) == metrics.families()[2],
        Family::Gauge(*family).describes(definitions()[2]),
        defs_of(metrics.families()) == definitions(),
{
    proof {
        use_type_invariant(metrics);
        assert(defs_of(metrics.families())[2] == metrics.families()[2].def());
    }
    &metrics.requests_in_flight
}

} // verus!
