//! Database metrics.

use vstd::prelude::*;
use crate::definition::{
    accepts_opts, definition_views, is_valid_label_name, subsystem_key, well_formed_definitions,
    Definition, MetricDef, MetricKind,
};
use crate::prom::{
    desc_id, fnv_from, fnv_step, MetricsRegistry, CounterFamily, GaugeFamily, HistogramFamily,
};
use vstd::string::{is_ascii, StringSliceAdditionalSpecFns};
use vstd::utf8::encode_utf8;
use crate::registration::{
    defs_of, extend, ids_fresh, law_registered_found_by_name, register_definitions, Family,
    pop_counter, pop_gauge, pop_histogram,
};

verus! {

/// The database metrics, each created from its definition and registered.
pub struct DatabaseMetrics {
    query_duration_seconds: HistogramFamily,
    connections_active: GaugeFamily,
    errors_total: CounterFamily,
}

/// The definitions of the database metrics, in the order of their registration.
pub open spec fn definitions() -> Seq<MetricDef> {
    seq![
        MetricDef::histogram(
            "aframp_db_query_duration_seconds"@,
            "Database query duration in seconds"@,
            seq!["query_type"@, "table"@],
            seq![10u64, 50, 100, 250, 500, 1000, 2500, 5000, 10000, 50000],
        ),
        MetricDef::gauge(
            "aframp_db_connections_active"@,
            "Active database connections in the pool"@,
            seq!["pool"@],
        ),
        MetricDef::counter(
            "aframp_db_errors_total"@,
            "Total database errors by error type"@,
            seq!["error_type"@],
        ),
    ]
}

/// The definitions, as the table that registration goes through.
pub fn table() -> (table: Vec<Definition>)
    ensures
        definition_views(table@) == definitions(),
{
    let table = vec![
        Definition {
            kind: MetricKind::Histogram,
            name: "aframp_db_query_duration_seconds",
            help: "Database query duration in seconds",
            labels: vec!["query_type", "table"],
            buckets: vec![10, 50, 100, 250, 500, 1000, 2500, 5000, 10000, 50000],
        },
        Definition {
            kind: MetricKind::Gauge,
            name: "aframp_db_connections_active",
            help: "Active database connections in the pool",
            labels: vec!["pool"],
            buckets: vec![],
        },
        Definition {
            kind: MetricKind::Counter,
            name: "aframp_db_errors_total",
            help: "Total database errors by error type",
            labels: vec!["error_type"],
            buckets: vec![],
        },
    ];
    assert(definition_views(table@) =~~= definitions());
    table
}

/// Every definition follows the project's conventions, and no two share a name.
pub proof fn lemma_definitions_well_formed()
    ensures
        well_formed_definitions(definitions()),
        forall|i: int|
            0 <= i < definitions().len() ==> subsystem_key(#[trigger] definitions()[i].opts.name)
                == ('d', 'b'),
{
    reveal_strlit("aframp_db_query_duration_seconds");
    reveal_strlit("Database query duration in seconds");
    reveal_strlit("query_type");
    reveal_strlit("table");
    reveal_strlit("aframp_db_connections_active");
    reveal_strlit("Active database connections in the pool");
    reveal_strlit("pool");
    reveal_strlit("aframp_db_errors_total");
    reveal_strlit("Total database errors by error type");
    reveal_strlit("error_type");
    reveal_strlit("aframp_");
    reveal_strlit("_total");
    reveal_strlit("_seconds");
    reveal_strlit("_ngn");
    let defs = definitions();
    assert(forall|j: int|
        0 <= j < defs[0].opts.labels.len() ==> is_valid_label_name(
            #[trigger] defs[0].opts.labels[j],
        ));
    assert(defs[0].follows_conventions());
    assert(forall|j: int|
        0 <= j < defs[1].opts.labels.len() ==> is_valid_label_name(
            #[trigger] defs[1].opts.labels[j],
        ));
    assert(defs[1].follows_conventions());
    assert(forall|j: int|
        0 <= j < defs[2].opts.labels.len() ==> is_valid_label_name(
            #[trigger] defs[2].opts.labels[j],
        ));
    assert(defs[2].follows_conventions());
    // Names with distinct descriptor ids are distinct.
    lemma_definitions_ids();
}

proof fn lemma_id_query_duration_seconds()
    ensures
        desc_id("aframp_db_query_duration_seconds"@) == 0x73aaa423af7813b6u64,
{
    broadcast use vstd::string::group_string_axioms;

    reveal_strlit("aframp_db_query_duration_seconds");
    assert(is_ascii("aframp_db_query_duration_seconds"));
    assert("aframp_db_query_duration_seconds".spec_bytes() == encode_utf8("aframp_db_query_duration_seconds"@));
    assert(desc_id("aframp_db_query_duration_seconds"@) == fnv_step(fnv_step(fnv_step(fnv_step(fnv_step(fnv_step(fnv_step(fnv_step(fnv_step(fnv_step(fnv_step(fnv_step(fnv_step(fnv_step(fnv_step(fnv_step(fnv_step(fnv_step(fnv_step(fnv_step(fnv_step(fnv_step(fnv_step(fnv_step(fnv_step(fnv_step(fnv_step(fnv_step(fnv_step(fnv_step(fnv_step(fnv_step(fnv_step(0xcbf29ce484222325u64, 97u8), 102u8), 114u8), 97u8), 109u8), 112u8), 95u8), 100u8), 98u8), 95u8), 113u8), 117u8), 101u8), 114u8), 121u8), 95u8), 100u8), 117u8), 114u8), 97u8), 116u8), 105u8), 111u8), 110u8), 95u8), 115u8), 101u8), 99u8), 111u8), 110u8), 100u8), 115u8), 255u8)) by {
        reveal_with_fuel(fnv_from, 35);
    }
    assert(fnv_step(fnv_step(fnv_step(fnv_step(fnv_step(fnv_step(fnv_step(fnv_step(fnv_step(fnv_step(fnv_step(fnv_step(fnv_step(fnv_step(fnv_step(fnv_step(fnv_step(fnv_step(fnv_step(fnv_step(fnv_step(fnv_step(fnv_step(fnv_step(fnv_step(fnv_step(fnv_step(fnv_step(fnv_step(fnv_step(fnv_step(fnv_step(fnv_step(0xcbf29ce484222325u64, 97u8), 102u8), 114u8), 97u8), 109u8), 112u8), 95u8), 100u8), 98u8), 95u8), 113u8), 117u8), 101u8), 114u8), 121u8), 95u8), 100u8), 117u8), 114u8), 97u8), 116u8), 105u8), 111u8), 110u8), 95u8), 115u8), 101u8), 99u8), 111u8), 110u8), 100u8), 115u8), 255u8) == 0x73aaa423af7813b6u64) by (bit_vector);
}

proof fn lemma_id_connections_active()
    ensures
        desc_id("aframp_db_connections_active"@) == 0xe2997162328df447u64,
{
    broadcast use vstd::string::group_string_axioms;

    reveal_strlit("aframp_db_connections_active");
    assert(is_ascii("aframp_db_connections_active"));
    assert("aframp_db_connections_active".spec_bytes() == encode_utf8("aframp_db_connections_active"@));
    assert(desc_id("aframp_db_connections_active"@) == fnv_step(fnv_step(fnv_step(fnv_step(fnv_step(fnv_step(fnv_step(fnv_step(fnv_step(fnv_step(fnv_step(fnv_step(fnv_step(fnv_step(fnv_step(fnv_step(fnv_step(fnv_step(fnv_step(fnv_step(fnv_step(fnv_step(fnv_step(fnv_step(fnv_step(fnv_step(fnv_step(fnv_step(fnv_step(0xcbf29ce484222325u64, 97u8), 102u8), 114u8), 97u8), 109u8), 112u8), 95u8), 100u8), 98u8), 95u8), 99u8), 111u8), 110u8), 110u8), 101u8), 99u8), 116u8), 105u8), 111u8), 110u8), 115u8), 95u8), 97u8), 99u8), 116u8), 105u8), 118u8), 101u8), 255u8)) by {
        reveal_with_fuel(fnv_from, 31);
    }
    assert(fnv_step(fnv_step(fnv_step(fnv_step(fnv_step(fnv_step(fnv_step(fnv_step(fnv_step(fnv_step(fnv_step(fnv_step(fnv_step(fnv_step(fnv_step(fnv_step(fnv_step(fnv_step(fnv_step(fnv_step(fnv_step(fnv_step(fnv_step(fnv_step(fnv_step(fnv_step(fnv_step(fnv_step(fnv_step(0xcbf29ce484222325u64, 97u8), 102u8), 114u8), 97u8), 109u8), 112u8), 95u8), 100u8), 98u8), 95u8), 99u8), 111u8), 110u8), 110u8), 101u8), 99u8), 116u8), 105u8), 111u8), 110u8), 115u8), 95u8), 97u8), 99u8), 116u8), 105u8), 118u8), 101u8), 255u8) == 0xe2997162328df447u64) by (bit_vector);
}

proof fn lemma_id_errors_total()
    ensures
        desc_id("aframp_db_errors_total"@) == 0x326ed80f6d50b045u64,
{
    broadcast use vstd::string::group_string_axioms;

    reveal_strlit("aframp_db_errors_total");
    assert(is_ascii("aframp_db_errors_total"));
    assert("aframp_db_errors_total".spec_bytes() == encode_utf8("aframp_db_errors_total"@));
    assert(desc_id("aframp_db_errors_total"@) == fnv_step(fnv_step(fnv_step(fnv_step(fnv_step(fnv_step(fnv_step(fnv_step(fnv_step(fnv_step(fnv_step(fnv_step(fnv_step(fnv_step(fnv_step(fnv_step(fnv_step(fnv_step(fnv_step(fnv_step(fnv_step(fnv_step(fnv_step(0xcbf29ce484222325u64, 97u8), 102u8), 114u8), 97u8), 109u8), 112u8), 95u8), 100u8), 98u8), 95u8), 101u8), 114u8), 114u8), 111u8), 114u8), 115u8), 95u8), 116u8), 111u8), 116u8), 97u8), 108u8), 255u8)) by {
        reveal_with_fuel(fnv_from, 25);
    }
    assert(fnv_step(fnv_step(fnv_step(fnv_step(fnv_step(fnv_step(fnv_step(fnv_step(fnv_step(fnv_step(fnv_step(fnv_step(fnv_step(fnv_step(fnv_step(fnv_step(fnv_step(fnv_step(fnv_step(fnv_step(fnv_step(fnv_step(fnv_step(0xcbf29ce484222325u64, 97u8), 102u8), 114u8), 97u8), 109u8), 112u8), 95u8), 100u8), 98u8), 95u8), 101u8), 114u8), 114u8), 111u8), 114u8), 115u8), 95u8), 116u8), 111u8), 116u8), 97u8), 108u8), 255u8) == 0x326ed80f6d50b045u64) by (bit_vector);
}

/// The descriptor ids that Prometheus gives the metric names.
pub proof fn lemma_definitions_ids()
    ensures
        desc_id(definitions()[0].opts.name) == 0x73aaa423af7813b6u64,
        desc_id(definitions()[1].opts.name) == 0xe2997162328df447u64,
        desc_id(definitions()[2].opts.name) == 0x326ed80f6d50b045u64,
        ids_fresh(definitions(), Set::empty()),
        forall|i: int|
            0 <= i < definitions().len() ==> ids().contains(
                desc_id(#[trigger] definitions()[i].opts.name),
            ),
{
    lemma_id_query_duration_seconds();
    lemma_id_connections_active();
    lemma_id_errors_total();
    let defs = definitions();
    assert(desc_id(defs[0].opts.name) == 0x73aaa423af7813b6u64);
    assert(ids().contains(desc_id(defs[0].opts.name)));
    assert(desc_id(defs[1].opts.name) == 0xe2997162328df447u64);
    assert(ids().contains(desc_id(defs[1].opts.name)));
    assert(desc_id(defs[2].opts.name) == 0x326ed80f6d50b045u64);
    assert(ids().contains(desc_id(defs[2].opts.name)));
}

/// The descriptor ids of the metric names, as a set.
pub open spec fn ids() -> Set<u64> {
    set![0x73aaa423af7813b6u64, 0xe2997162328df447u64, 0x326ed80f6d50b045u64]
}

impl DatabaseMetrics {
    /// The vectors, in the order of their definitions.
    pub closed spec fn families(self) -> Seq<Family> {
        seq![
            Family::Histogram(self.query_duration_seconds),
            Family::Gauge(self.connections_active),
            Family::Counter(self.errors_total),
        ]
    }

    /// Each vector was created from its definition.
    #[verifier::type_invariant]
    spec fn made_from_definitions(self) -> bool {
        defs_of(self.families()) == definitions()
    }
}

/// Creates the database metrics and registers them in `registry`, in order.
/// Hands back the vectors that were registered, each found under its name.
pub fn register(registry: &mut MetricsRegistry) -> (metrics: DatabaseMetrics)
    requires
        ids_fresh(definitions(), old(registry).metrics().dom()),
    ensures
        final(registry).metrics() == extend(old(registry).metrics(), metrics.families()),
        defs_of(metrics.families()) == definitions(),
        forall|i: int|
            0 <= i < metrics.families().len() ==> final(registry).metrics()[(
            #[trigger] metrics.families()[i]).name()] == metrics.families()[i],
{
    let ghost before = registry.metrics();
    let table = table();
    proof {
        lemma_definitions_well_formed();
    }
    assert forall|i: int| 0 <= i < table.len() implies accepts_opts((#[trigger] table[i]@).opts)
        && (table[i]@.kind != MetricKind::Histogram ==> table[i]@.buckets.len() == 0) by {
        assert(definition_views(table@)[i] == table@[i]@);
        assert(definitions()[i].follows_conventions());
    }
    let mut families = register_definitions(registry, &table);
    let ghost registered = families@;
    assert(registered.len() == 3) by {
        assert(defs_of(registered).len() == registered.len());
    }
    assert forall|i: int| 0 <= i < 3 implies #[trigger] registered[i].describes(definitions()[i]) by {
        assert(defs_of(registered)[i] == registered[i].def());
    }
    assert(families@.last() == registered[2]);
    let errors_total = pop_counter(&mut families);
    assert(families@.last() == registered[1]);
    let connections_active = pop_gauge(&mut families);
    assert(families@.last() == registered[0]);
    let query_duration_seconds = pop_histogram(&mut families);
    assert(seq![Family::Histogram(query_duration_seconds), Family::Gauge(connections_active), Family::Counter(errors_total)] =~= registered);
    let metrics = DatabaseMetrics { query_duration_seconds, connections_active, errors_total };
    assert(metrics.families() =~= registered);
    proof {
        assert forall|i: int, j: int| 0 <= i < j < registered.len() implies (#[trigger] registered[i]).name()
            != (#[trigger] registered[j]).name() by {
            assert(defs_of(registered)[i] == registered[i].def());
            assert(defs_of(registered)[j] == registered[j].def());
        }
        law_registered_found_by_name(before, registered);
    }
    metrics
}

/// The vector `aframp_db_query_duration_seconds`, as registered.
pub fn query_duration_seconds(metrics: &DatabaseMetrics) -> (family: &HistogramFamily)
    ensures
        Family::Histogram(*family) == metrics.families()[0],
        Family::Histogram(*family).describes(definitions()[0]),
        defs_of(metrics.families()) == definitions(),
{
    proof {
        use_type_invariant(metrics);
        assert(defs_of(metrics.families())[0] == metrics.families()[0].def());
    }
    &metrics.query_duration_seconds
}

/// The vector `aframp_db_connections_active`, as registered.
pub fn connections_active(metrics: &DatabaseMetrics) -> (family: &GaugeFamily)
    ensures
        Family::Gauge(*family) == metrics.families()[1],
        Family::Gauge(*family).describes(definitions()[1]),
        defs_of(metrics.families()) == definitions(),
{
    proof {
        use_type_invariant(metrics);
        assert(defs_of(metrics.families())[1] == metrics.families()[1].def());
    }
    &metrics.connections_active
}

/// The vector `aframp_db_errors_total`, as registered.
pub fn errors_total(metrics: &DatabaseMetrics) -> (family: &CounterFamily)
    ensures
        Family::Counter(*family) == metrics.families()[2],
        Family::Counter(*family).describes(definitions()[2]),
        defs_of(metrics.families()) == definitions(),
{
    proof {
        use_type_invariant(metrics);
        assert(defs_of(metrics.families())[2] == metrics.families()[2].def());
    }
    &metrics.errors_total
}

} // verus!
