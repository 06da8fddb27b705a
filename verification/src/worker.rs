//! Background worker metrics.

use vstd::prelude::*;
use crate::definition::{
    accepts_opts, definition_views, is_valid_label_name, subsystem_key, well_formed_definitions,
    Definition, MetricDef, MetricKind,
};
use crate::prom::{
    desc_id, fnv_from, fnv_step, MetricsRegistry, CounterFamily, GaugeFamily, HistogramFamily,
};
use vstd::string::{is_ascii, StringSliceAdditionalSpecFns};
use vstd::utf8::encode_utf8;
use crate::registration::{
    defs_of, extend, ids_fresh, law_registered_found_by_name, register_definitions, Family,
    pop_counter, pop_gauge, pop_histogram,
};

verus! {

/// The background worker metrics, each created from its definition and registered.
pub struct WorkerMetrics {
    cycles_total: CounterFamily,
    cycle_duration_seconds: HistogramFamily,
    records_processed: GaugeFamily,
    errors_total: CounterFamily,
}

/// The definitions of the background worker metrics, in the order of their registration.
pub open spec fn definitions() -> Seq<MetricDef> {
    seq![
        MetricDef::counter(
            "aframp_worker_cycles_total"@,
            "Total background worker processing cycles"@,
            seq!["worker"@],
        ),
        MetricDef::histogram(
            "aframp_worker_cycle_duration_seconds"@,
            "Background worker cycle duration in seconds"@,
            seq!["worker"@],
            seq![100u64, 500, 1000, 5000, 10000, 50000, 100000, 300000, 600000],
        ),
        MetricDef::gauge(
            "aframp_worker_records_processed"@,
            "Number of records processed in the last worker cycle"@,
            seq!["worker"@],
        ),
        MetricDef::counter(
            "aframp_worker_errors_total"@,
            "Total background worker errors by worker and error type"@,
            seq!["worker"@, "error_type"@],
        ),
    ]
}

/// The definitions, as the table that registration goes through.
pub fn table() -> (table: Vec<Definition>)
    ensures
        definition_views(table@) == definitions(),
{
    let table = vec![
        Definition {
            kind: MetricKind::Counter,
            name: "aframp_worker_cycles_total",
            help: "Total background worker processing cycles",
            labels: vec!["worker"],
            buckets: vec![],
        },
        Definition {
            kind: MetricKind::Histogram,
            name: "aframp_worker_cycle_duration_seconds",
            help: "Background worker cycle duration in seconds",
            labels: vec!["worker"],
            buckets: vec![100, 500, 1000, 5000, 10000, 50000, 100000, 300000, 600000],
        },
        Definition {
            kind: MetricKind::Gauge,
            name: "aframp_worker_records_processed",
            help: "Number of records processed in the last worker cycle",
            labels: vec!["worker"],
            buckets: vec![],
        },
        Definition {
            kind: MetricKind::Counter,
            name: "aframp_worker_errors_total",
            help: "Total background worker errors by worker and error type",
            labels: vec!["worker", "error_type"],
            buckets: vec![],
        },
    ];
    assert(definition_views(table@) =~~= definitions());
    table
}

/// Every definition follows the project's conventions, and no two share a name.
pub proof fn lemma_definitions_well_formed()
    ensures
        well_formed_definitions(definitions()),
        forall|i: int|
            0 <= i < definitions().len() ==> subsystem_key(#[trigger] definitions()[i].opts.name)
                == ('w', 'o'),
{
    reveal_strlit("aframp_worker_cycles_total");
    reveal_strlit("Total background worker processing cycles");
    reveal_strlit("worker");
    reveal_strlit("aframp_worker_cycle_duration_seconds");
    reveal_strlit("Background worker cycle duration in seconds");
    reveal_strlit("aframp_worker_records_processed");
    reveal_strlit("Number of records processed in the last worker cycle");
    reveal_strlit("aframp_worker_errors_total");
    reveal_strlit("Total background worker errors by worker and error type");
    reveal_strlit("error_type");
    reveal_strlit("aframp_");
    reveal_strlit("_total");
    reveal_strlit("_seconds");
    reveal_strlit("_ngn");
    let defs = definitions();
    assert(forall|j: int|
        0 <= j < defs[0].opts.labels.len() ==> is_valid_label_name(
            #[trigger] defs[0].opts.labels[j],
        ));
    assert(defs[0].follows_conventions());
    assert(forall|j: int|
        0 <= j < defs[1].opts.labels.len() ==> is_valid_label_name(
            #[trigger] defs[1].opts.labels[j],
        ));
    assert(defs[1].follows_conventions());
    assert(forall|j: int|
        0 <= j < defs[2].opts.labels.len() ==> is_valid_label_name(
            #[trigger] defs[2].opts.labels[j],
        ));
    assert(defs[2].follows_conventions());
    assert(forall|j: int|
        0 <= j < defs[3].opts.labels.len() ==> is_valid_label_name(
            #[trigger] defs[3].opts.labels[j],
        ));
    assert(defs[3].follows_conventions());
    // Names with distinct descriptor ids are distinct.
    lemma_definitions_ids();
}

proof fn lemma_id_cycles_total()
    ensures
        desc_id("aframp_worker_cycles_total"@) == 0x659c80b193e738d9u64,
{
    broadcast use vstd::string::group_string_axioms;

    reveal_strlit("aframp_worker_cycles_total");
    assert(is_ascii("aframp_worker_cycles_total"));
    assert("aframp_worker_cycles_total".spec_bytes() == encode_utf8("aframp_worker_cycles_total"@));
    assert(desc_id("aframp_worker_cycles_total"@) == fnv_step(fnv_step(fnv_step(fnv_step(fnv_step(fnv_step(fnv_step(fnv_step(fnv_step(fnv_step(fnv_step(fnv_step(fnv_step(fnv_step(fnv_step(fnv_step(fnv_step(fnv_step(fnv_step(fnv_step(fnv_step(fnv_step(fnv_step(fnv_step(fnv_step(fnv_step(fnv_step(0xcbf29ce484222325u64, 97u8), 102u8), 114u8), 97u8), 109u8), 112u8), 95u8), 119u8), 111u8), 114u8), 107u8), 101u8), 114u8), 95u8), 99u8), 121u8), 99u8), 108u8), 101u8), 115u8), 95u8), 116u8), 111u8), 116u8), 97u8), 108u8), 255u8)) by {
        reveal_with_fuel(fnv_from, 29);
    }
    assert(fnv_step(fnv_step(fnv_step(fnv_step(fnv_step(fnv_step(fnv_step(fnv_step(fnv_step(fnv_step(fnv_step(fnv_step(fnv_step(fnv_step(fnv_step(fnv_step(fnv_step(fnv_step(fnv_step(fnv_step(fnv_step(fnv_step(fnv_step(fnv_step(fnv_step(fnv_step(fnv_step(0xcbf29ce484222325u64, 97u8), 102u8), 114u8), 97u8), 109u8), 112u8), 95u8), 119u8), 111u8), 114u8), 107u8), 101u8), 114u8), 95u8), 99u8), 121u8), 99u8), 108u8), 101u8), 115u8), 95u8), 116u8), 111u8), 116u8), 97u8), 108u8), 255u8) == 0x659c80b193e738d9u64) by (bit_vector);
}

proof fn lemma_id_cycle_duration_seconds()
    ensures
        desc_id("aframp_worker_cycle_duration_seconds"@) == 0xe095c27c8d6b558cu64,
{
    broadcast use vstd::string::group_string_axioms;

    reveal_strlit("aframp_worker_cycle_duration_seconds");
    assert(is_ascii("aframp_worker_cycle_duration_seconds"));
    assert("aframp_worker_cycle_duration_seconds".spec_bytes() == encode_utf8("aframp_worker_cycle_duration_seconds"@));
    assert(desc_id("aframp_worker_cycle_duration_seconds"@) == fnv_step(fnv_step(fnv_step(fnv_step(fnv_step(fnv_step(fnv_step(fnv_step(fnv_step(fnv_step(fnv_step(fnv_step(fnv_step(fnv_step(fnv_step(fnv_step(fnv_step(fnv_step(fnv_step(fnv_step(fnv_step(fnv_step(fnv_step(fnv_step(fnv_step(fnv_step(fnv_step(fnv_step(fnv_step(fnv_step(fnv_step(fnv_step(fnv_step(fnv_step(fnv_step(fnv_step(fnv_step(0xcbf29ce484222325u64, 97u8), 102u8), 114u8), 97u8), 109u8), 112u8), 95u8), 119u8), 111u8), 114u8), 107u8), 101u8), 114u8), 95u8), 99u8), 121u8), 99u8), 108u8), 101u8), 95u8), 100u8), 117u8), 114u8), 97u8), 116u8), 105u8), 111u8), 110u8), 95u8), 115u8), 101u8), 99u8), 111u8), 110u8), 100u8), 115u8), 255u8)) by {
        reveal_with_fuel(fnv_from, 39);
    }
    assert(fnv_step(fnv_step(fnv_step(fnv_step(fnv_step(fnv_step(fnv_step(fnv_step(fnv_step(fnv_step(fnv_step(fnv_step(fnv_step(fnv_step(fnv_step(fnv_step(fnv_step(fnv_step(fnv_step(fnv_step(fnv_step(fnv_step(fnv_step(fnv_step(fnv_step(fnv_step(fnv_step(fnv_step(fnv_step(fnv_step(fnv_step(fnv_step(fnv_step(fnv_step(fnv_step(fnv_step(fnv_step(0xcbf29ce484222325u64, 97u8), 102u8), 114u8), 97u8), 109u8), 112u8), 95u8), 119u8), 111u8), 114u8), 107u8), 101u8), 114u8), 95u8), 99u8), 121u8), 99u8), 108u8), 101u8), 95u8), 100u8), 117u8), 114u8), 97u8), 116u8), 105u8), 111u8), 110u8), 95u8), 115u8), 101u8), 99u8), 111u8), 110u8), 100u8), 115u8), 255u8) == 0xe095c27c8d6b558cu64) by (bit_vector);
}

proof fn lemma_id_records_processed()
    ensures
        desc_id("aframp_worker_records_processed"@) == 0x94a4e0ce8c6e198cu64,
{
    broadcast use vstd::string::group_string_axioms;

    reveal_strlit("aframp_worker_records_processed");
    assert(is_ascii("aframp_worker_records_processed"));
    assert("aframp_worker_records_processed".spec_bytes() == encode_utf8("aframp_worker_records_processed"@));
    assert(desc_id("aframp_worker_records_processed"@) == fnv_step(fnv_step(fnv_step(fnv_step(fnv_step(fnv_step(fnv_step(fnv_step(fnv_step(fnv_step(fnv_step(fnv_step(fnv_step(fnv_step(fnv_step(fnv_step(fnv_step(fnv_step(fnv_step(fnv_step(fnv_step(fnv_step(fnv_step(fnv_step(fnv_step(fnv_step(fnv_step(fnv_step(fnv_step(fnv_step(fnv_step(fnv_step(0xcbf29ce484222325u64, 97u8), 102u8), 114u8), 97u8), 109u8), 112u8), 95u8), 119u8), 111u8), 114u8), 107u8), 101u8), 114u8), 95u8), 114u8), 101u8), 99u8), 111u8), 114u8), 100u8), 115u8), 95u8), 112u8), 114u8), 111u8), 99u8), 101u8), 115u8), 115u8), 101u8), 100u8), 255u8)) by {
        reveal_with_fuel(fnv_from, 34);
    }
    assert(fnv_step(fnv_step(fnv_step(fnv_step(fnv_step(fnv_step(fnv_step(fnv_step(fnv_step(fnv_step(fnv_step(fnv_step(fnv_step(fnv_step(fnv_step(fnv_step(fnv_step(fnv_step(fnv_step(fnv_step(fnv_step(fnv_step(fnv_step(fnv_step(fnv_step(fnv_step(fnv_step(fnv_step(fnv_step(fnv_step(fnv_step(fnv_step(0xcbf29ce484222325u64, 97u8), 102u8), 114u8), 97u8), 109u8), 112u8), 95u8), 119u8), 111u8), 114u8), 107u8), 101u8), 114u8), 95u8), 114u8), 101u8), 99u8), 111u8), 114u8), 100u8), 115u8), 95u8), 112u8), 114u8), 111u8), 99u8), 101u8), 115u8), 115u8), 101u8), 100u8), 255u8) == 0x94a4e0ce8c6e198cu64) by (bit_vector);
}

proof fn lemma_id_errors_total()
    ensures
        desc_id("aframp_worker_errors_total"@) == 0x12100fab4de384d1u64,
{
    broadcast use vstd::string::group_string_axioms;

    reveal_strlit("aframp_worker_errors_total");
    assert(is_ascii("aframp_worker_errors_total"));
    assert("aframp_worker_errors_total".spec_bytes() == encode_utf8("aframp_worker_errors_total"@));
    assert(desc_id("aframp_worker_errors_total"@) == fnv_step(fnv_step(fnv_step(fnv_step(fnv_step(fnv_step(fnv_step(fnv_step(fnv_step(fnv_step(fnv_step(fnv_step(fnv_step(fnv_step(fnv_step(fnv_step(fnv_step(fnv_step(fnv_step(fnv_step(fnv_step(fnv_step(fnv_step(fnv_step(fnv_step(fnv_step(fnv_step(0xcbf29ce484222325u64, 97u8), 102u8), 114u8), 97u8), 109u8), 112u8), 95u8), 119u8), 111u8), 114u8), 107u8), 101u8), 114u8), 95u8), 101u8), 114u8), 114u8), 111u8), 114u8), 115u8), 95u8), 116u8), 111u8), 116u8), 97u8), 108u8), 255u8)) by {
        reveal_with_fuel(fnv_from, 29);
    }
    assert(fnv_step(fnv_step(fnv_step(fnv_step(fnv_step(fnv_step(fnv_step(fnv_step(fnv_step(fnv_step(fnv_step(fnv_step(fnv_step(fnv_step(fnv_step(fnv_step(fnv_step(fnv_step(fnv_step(fnv_step(fnv_step(fnv_step(fnv_step(fnv_step(fnv_step(fnv_step(fnv_step(0xcbf29ce484222325u64, 97u8), 102u8), 114u8), 97u8), 109u8), 112u8), 95u8), 119u8), 111u8), 114u8), 107u8), 101u8), 114u8), 95u8), 101u8), 114u8), 114u8), 111u8), 114u8), 115u8), 95u8), 116u8), 111u8), 116u8), 97u8), 108u8), 255u8) == 0x12100fab4de384d1u64) by (bit_vector);
}

/// The descriptor ids that Prometheus gives the metric names.
pub proof fn lemma_definitions_ids()
    ensures
        desc_id(definitions()[0].opts.name) == 0x659c80b193e738d9u64,
        desc_id(definitions()[1].opts.name) == 0xe095c27c8d6b558cu64,
        desc_id(definitions()[2].opts.name) == 0x94a4e0ce8c6e198cu64,
        desc_id(definitions()[3].opts.name) == 0x12100fab4de384d1u64,
        ids_fresh(definitions(), Set::empty()),
        forall|i: int|
            0 <= i < definitions().len() ==> ids().contains(
                desc_id(#[trigger] definitions()[i].opts.name),
            ),
{
    lemma_id_cycles_total();
    lemma_id_cycle_duration_seconds();
    lemma_id_records_processed();
    lemma_id_errors_total();
    let defs = definitions();
    assert(desc_id(defs[0].opts.name) == 0x659c80b193e738d9u64);
    assert(ids().contains(desc_id(defs[0].opts.name)));
    assert(desc_id(defs[1].opts.name) == 0xe095c27c8d6b558cu64);
    assert(ids().contains(desc_id(defs[1].opts.name)));
    assert(desc_id(defs[2].opts.name) == 0x94a4e0ce8c6e198cu64);
    assert(ids().contains(desc_id(defs[2].opts.name)));
    assert(desc_id(defs[3].opts.name) == 0x12100fab4de384d1u64);
    assert(ids().contains(desc_id(defs[3].opts.name)));
}

/// The descriptor ids of the metric names, as a set.
pub open spec fn ids() -> Set<u64> {
    set![0x659c80b193e738d9u64, 0xe095c27c8d6b558cu64, 0x94a4e0ce8c6e198cu64, 0x12100fab4de384d1u64]
}

impl WorkerMetrics {
    /// The vectors, in the order of their definitions.
    pub closed spec fn families(self) -> Seq<Family> {
        seq![
            Family::Counter(self.cycles_total),
            Family::Histogram(self.cycle_duration_seconds),
            Family::Gauge(self.records_processed),
            Family::Counter(self.errors_total),
        ]
    }

    /// Each vector was created from its definition.
    #[verifier::type_invariant]
    spec fn made_from_definitions(self) -> bool {
        defs_of(self.families()) == definitions()
    }
}

/// Creates the background worker metrics and registers them in `registry`, in order.
/// Hands back the vectors that were registered, each found under its name.
pub fn register(registry: &mut MetricsRegistry) -> (metrics: WorkerMetrics)
    requires
        ids_fresh(definitions(), old(registry).metrics().dom()),
    ensures
        final(registry).metrics() == extend(old(registry).metrics(), metrics.families()),
        defs_of(metrics.families()) == definitions(),
        forall|i: int|
            0 <= i < metrics.families().len() ==> final(registry).metrics()[(
            #[trigger] metrics.families()[i]).name()] == metrics.families()[i],
{
    let ghost before = registry.metrics();
    let table = table();
    proof {
        lemma_definitions_well_formed();
    }
    assert forall|i: int| 0 <= i < table.len() implies accepts_opts((#[trigger] table[i]@).opts)
        && (table[i]@.kind != MetricKind::Histogram ==> table[i]@.buckets.len() == 0) by {
        assert(definition_views(table@)[i] == table@[i]@);
        assert(definitions()[i].follows_conventions());
    }
    let mut families = register_definitions(registry, &table);
    let ghost registered = families@;
    assert(registered.len() == 4) by {
        assert(defs_of(registered).len() == registered.len());
    }
    assert forall|i: int| 0 <= i < 4 implies #[trigger] registered[i].describes(definitions()[i]) by {
        assert(defs_of(registered)[i] == registered[i].def());
    }
    assert(families@.last() == registered[3]);
    let errors_total = pop_counter(&mut families);
    assert(families@.last() == registered[2]);
    let records_processed = pop_gauge(&mut families);
    assert(families@.last() == registered[1]);
    let cycle_duration_seconds = pop_histogram(&mut families);
    assert(families@.last() == registered[0]);
    let cycles_total = pop_counter(&mut families);
    assert(seq![Family::Counter(cycles_total), Family::Histogram(cycle_duration_seconds), Family::Gauge(records_processed), Family::Counter(errors_total)] =~= registered);
    let metrics = WorkerMetrics { cycles_total, cycle_duration_seconds, records_processed, errors_total };
    assert(metrics.families() =~= registered);
    proof {
        assert forall|i: int, j: int| 0 <= i < j < registered.len() implies (#[trigger] registered[i]).name()
            != (#[trigger] registered[j]).name() by {
            assert(defs_of(registered)[i] == registered[i].def());
            assert(defs_of(registered)[j] == registered[j].def());
        }
        law_registered_found_by_name(before, registered);
    }
    metrics
}

/// The vector `aframp_worker_cycles_total`, as registered.
pub fn cycles_total(metrics: &WorkerMetrics) -> (family: &CounterFamily)
    ensures
        Family::Counter(*family) == metrics.families()[0],
        Family::Counter(*family).describes(definitions()[0]),
        defs_of(metrics.families()) == definitions(),
{
    proof {
        use_type_invariant(metrics);
        assert(defs_of(metrics.families())[0] == metrics.families()[0].def());
    }
    &metrics.cycles_total
}

/// The vector `aframp_worker_cycle_duration_seconds`, as registered.
pub fn cycle_duration_seconds(metrics: &WorkerMetrics) -> (family: &HistogramFamily)
    ensures
        Family::Histogram(*family) == metrics.families()[1],
        Family::Histogram(*family).describes(definitions()[1]),
        defs_of(metrics.families()) == definitions(),
{
    proof {
        use_type_invariant(metrics);
        assert(defs_of(metrics.families())[1] == metrics.families()[1].def());
    }
    &metrics.cycle_duration_seconds
}

/// The vector `aframp_worker_records_processed`, as registered.
pub fn records_processed(metrics: &WorkerMetrics) -> (family: &GaugeFamily)
    ensures
        Family::Gauge(*family) == metrics.families()[2],
        Family::Gauge(*family).describes(definitions()[2]),
        defs_of(metrics.families()) == definitions(),
{
    proof {
        use_type_invariant(metrics);
        assert(defs_of(metrics.families())[2] == metrics.families()[2].def());
    }
    &metrics.records_processed
}

/// The vector `aframp_worker_errors_total`, as registered.
pub fn errors_total(metrics: &WorkerMetrics) -> (family: &CounterFamily)
    ensures
        Family::Counter(*family) == metrics.families()[3],
        Family::Counter(*family).describes(definitions()[3]),
        defs_of(metrics.families()) == definitions(),
{
    proof {
        use_type_invariant(metrics);
        assert(defs_of(metrics.families())[3] == metrics.families()[3].def());
    }
    &metrics.errors_total
}

} // verus!
