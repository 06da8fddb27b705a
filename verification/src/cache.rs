//! Redis cache metrics.

use vstd::prelude::*;
use crate::definition::{
    accepts_opts, definition_views, is_valid_label_name, subsystem_key, well_formed_definitions,
    Definition, MetricDef, MetricKind,
};
use crate::prom::{desc_id, fnv_from, fnv_step, MetricsRegistry, CounterFamily, HistogramFamily};
use vstd::string::{is_ascii, StringSliceAdditionalSpecFns};
use vstd::utf8::encode_utf8;
use crate::registration::{
    defs_of, extend, ids_fresh, law_registered_found_by_name, register_definitions, Family,
    pop_counter, pop_histogram,
};

verus! {

/// The redis cache metrics, each created from its definition and registered.
pub struct CacheMetrics {
    hits_total: CounterFamily,
    misses_total: CounterFamily,
    operation_duration_seconds: HistogramFamily,
}

/// The definitions of the redis cache metrics, in the order of their registration.
pub open spec fn definitions() -> Seq<MetricDef> {
    seq![
        MetricDef::counter(
            "aframp_cache_hits_total"@,
            "Total Redis cache hits by key prefix"@,
            seq!["key_prefix"@],
        ),
        MetricDef::counter(
            "aframp_cache_misses_total"@,
            "Total Redis cache misses by key prefix"@,
            seq!["key_prefix"@],
        ),
        MetricDef::histogram(
            "aframp_cache_operation_duration_seconds"@,
            "Redis cache operation duration in seconds"@,
            seq!["operation"@],
            seq![1u64, 5, 10, 50, 100, 500, 1000, 5000],
        ),
    ]
}

/// The definitions, as the table that registration goes through.
pub fn table() -> (table: Vec<Definition>)
    ensures
        definition_views(table@) == definitions(),
{
    let table = vec![
        Definition {
            kind: MetricKind::Counter,
            name: "aframp_cache_hits_total",
            help: "Total Redis cache hits by key prefix",
            labels: vec!["key_prefix"],
            buckets: vec![],
        },
        Definition {
            kind: MetricKind::Counter,
            name: "aframp_cache_misses_total",
            help: "Total Redis cache misses by key prefix",
            labels: vec!["key_prefix"],
            buckets: vec![],
        },
        Definition {
            kind: MetricKind::Histogram,
            name: "aframp_cache_operation_duration_seconds",
            help: "Redis cache operation duration in seconds",
            labels: vec!["operation"],
            buckets: vec![1, 5, 10, 50, 100, 500, 1000, 5000],
        },
    ];
    assert(definition_views(table@) =~~= definitions());
    table
}

/// Every definition follows the project's conventions, and no two share a name.
pub proof fn lemma_definitions_well_formed()
    ensures
        well_formed_definitions(definitions()),
        forall|i: int|
            0 <= i < definitions().len() ==> subsystem_key(#[trigger] definitions()[i].opts.name)
                == ('c', 'a'),
{
    reveal_strlit("aframp_cache_hits_total");
    reveal_strlit("Total Redis cache hits by key prefix");
    reveal_strlit("key_prefix");
    reveal_strlit("aframp_cache_misses_total");
    reveal_strlit("Total Redis cache misses by key prefix");
    reveal_strlit("aframp_cache_operation_duration_seconds");
    reveal_strlit("Redis cache operation duration in seconds");
    reveal_strlit("operation");
    reveal_strlit("aframp_");
    reveal_strlit("_total");
    reveal_strlit("_seconds");
    reveal_strlit("_ngn");
    let defs = definitions();
    assert(forall|j: int|
        0 <= j < defs[0].opts.labels.len() ==> is_valid_label_name(
            #[trigger] defs[0].opts.labels[j],
        ));
    assert(defs[0].follows_conventions());
    assert(forall|j: int|
        0 <= j < defs[1].opts.labels.len() ==> is_valid_label_name(
            #[trigger] defs[1].opts.labels[j],
        ));
    assert(defs[1].follows_conventions());
    assert(forall|j: int|
        0 <= j < defs[2].opts.labels.len() ==> is_valid_label_name(
            #[trigger] defs[2].opts.labels[j],
        ));
    assert(defs[2].follows_conventions());
    // Names with distinct descriptor ids are distinct.
    lemma_definitions_ids();
}

proof fn lemma_id_hits_total()
    ensures
        desc_id("aframp_cache_hits_total"@) == 0x8b48b530c96ebcccu64,
{
    broadcast use vstd::string::group_string_axioms;

    reveal_strlit("aframp_cache_hits_total");
    assert(is_ascii("aframp_cache_hits_total"));
    assert("aframp_cache_hits_total".spec_bytes() == encode_utf8("aframp_cache_hits_total"@));
    assert(desc_id("aframp_cache_hits_total"@) == fnv_step(fnv_step(fnv_step(fnv_step(fnv_step(fnv_step(fnv_step(fnv_step(fnv_step(fnv_step(fnv_step(fnv_step(fnv_step(fnv_step(fnv_step(fnv_step(fnv_step(fnv_step(fnv_step(fnv_step(fnv_step(fnv_step(fnv_step(fnv_step(0xcbf29ce484222325u64, 97u8), 102u8), 114u8), 97u8), 109u8), 112u8), 95u8), 99u8), 97u8), 99u8), 104u8), 101u8), 95u8), 104u8), 105u8), 116u8), 115u8), 95u8), 116u8), 111u8), 116u8), 97u8), 108u8), 255u8)) by {
        reveal_with_fuel(fnv_from, 26);
    }
    assert(fnv_step(fnv_step(fnv_step(fnv_step(fnv_step(fnv_step(fnv_step(fnv_step(fnv_step(fnv_step(fnv_step(fnv_step(fnv_step(fnv_step(fnv_step(fnv_step(fnv_step(fnv_step(fnv_step(fnv_step(fnv_step(fnv_step(fnv_step(fnv_step(0xcbf29ce484222325u64, 97u8), 102u8), 114u8), 97u8), 109u8), 112u8), 95u8), 99u8), 97u8), 99u8), 104u8), 101u8), 95u8), 104u8), 105u8), 116u8), 115u8), 95u8), 116u8), 111u8), 116u8), 97u8), 108u8), 255u8) == 0x8b48b530c96ebcccu64) by (bit_vector);
}

proof fn lemma_id_misses_total()
    ensures
        desc_id("aframp_cache_misses_total"@) == 0x92b0606100d78276u64,
{
    broadcast use vstd::string::group_string_axioms;

    reveal_strlit("aframp_cache_misses_total");
    assert(is_ascii("aframp_cache_misses_total"));
    assert("aframp_cache_misses_total".spec_bytes() == encode_utf8("aframp_cache_misses_total"@));
    assert(desc_id("aframp_cache_misses_total"@) == fnv_step(fnv_step(fnv_step(fnv_step(fnv_step(fnv_step(fnv_step(fnv_step(fnv_step(fnv_step(fnv_step(fnv_step(fnv_step(fnv_step(fnv_step(fnv_step(fnv_step(fnv_step(fnv_step(fnv_step(fnv_step(fnv_step(fnv_step(fnv_step(fnv_step(fnv_step(0xcbf29ce484222325u64, 97u8), 102u8), 114u8), 97u8), 109u8), 112u8), 95u8), 99u8), 97u8), 99u8), 104u8), 101u8), 95u8), 109u8), 105u8), 115u8), 115u8), 101u8), 115u8), 95u8), 116u8), 111u8), 116u8), 97u8), 108u8), 255u8)) by {
        reveal_with_fuel(fnv_from, 28);
    }
    assert(fnv_step(fnv_step(fnv_step(fnv_step(fnv_step(fnv_step(fnv_step(fnv_step(fnv_step(fnv_step(fnv_step(fnv_step(fnv_step(fnv_step(fnv_step(fnv_step(fnv_step(fnv_step(fnv_step(fnv_step(fnv_step(fnv_step(fnv_step(fnv_step(fnv_step(fnv_step(0xcbf29ce484222325u64, 97u8), 102u8), 114u8), 97u8), 109u8), 112u8), 95u8), 99u8), 97u8), 99u8), 104u8), 101u8), 95u8), 109u8), 105u8), 115u8), 115u8), 101u8), 115u8), 95u8), 116u8), 111u8), 116u8), 97u8), 108u8), 255u8) == 0x92b0606100d78276u64) by (bit_vector);
}

proof fn lemma_id_operation_duration_seconds()
    ensures
        desc_id("aframp_cache_operation_duration_seconds"@) == 0x8d7b4641b814db31u64,
{
    broadcast use vstd::string::group_string_axioms;

    reveal_strlit("aframp_cache_operation_duration_seconds");
    assert(is_ascii("aframp_cache_operation_duration_seconds"));
    assert("aframp_cache_operation_duration_seconds".spec_bytes() == encode_utf8("aframp_cache_operation_duration_seconds"@));
    assert(desc_id("aframp_cache_operation_duration_seconds"@) == fnv_step(fnv_step(fnv_step(fnv_step(fnv_step(fnv_step(fnv_step(fnv_step(fnv_step(fnv_step(fnv_step(fnv_step(fnv_step(fnv_step(fnv_step(fnv_step(fnv_step(fnv_step(fnv_step(fnv_step(fnv_step(fnv_step(fnv_step(fnv_step(fnv_step(fnv_step(fnv_step(fnv_step(fnv_step(fnv_step(fnv_step(fnv_step(fnv_step(fnv_step(fnv_step(fnv_step(fnv_step(fnv_step(fnv_step(fnv_step(0xcbf29ce484222325u64, 97u8), 102u8), 114u8), 97u8), 109u8), 112u8), 95u8), 99u8), 97u8), 99u8), 104u8), 101u8), 95u8), 111u8), 112u8), 101u8), 114u8), 97u8), 116u8), 105u8), 111u8), 110u8), 95u8), 100u8), 117u8), 114u8), 97u8), 116u8), 105u8), 111u8), 110u8), 95u8), 115u8), 101u8), 99u8), 111u8), 110u8), 100u8), 115u8), 255u8)) by {
        reveal_with_fuel(fnv_from, 42);
    }
    assert(fnv_step(fnv_step(fnv_step(fnv_step(fnv_step(fnv_step(fnv_step(fnv_step(fnv_step(fnv_step(fnv_step(fnv_step(fnv_step(fnv_step(fnv_step(fnv_step(fnv_step(fnv_step(fnv_step(fnv_step(fnv_step(fnv_step(fnv_step(fnv_step(fnv_step(fnv_step(fnv_step(fnv_step(fnv_step(fnv_step(fnv_step(fnv_step(fnv_step(fnv_step(fnv_step(fnv_step(fnv_step(fnv_step(fnv_step(fnv_step(0xcbf29ce484222325u64, 97u8), 102u8), 114u8), 97u8), 109u8), 112u8), 95u8), 99u8), 97u8), 99u8), 104u8), 101u8), 95u8), 111u8), 112u8), 101u8), 114u8), 97u8), 116u8), 105u8), 111u8), 110u8), 95u8), 100u8), 117u8), 114u8), 97u8), 116u8), 105u8), 111u8), 110u8), 95u8), 115u8), 101u8), 99u8), 111u8), 110u8), 100u8), 115u8), 255u8) == 0x8d7b4641b814db31u64) by (bit_vector);
}

/// The descriptor ids that Prometheus gives the metric names.
pub proof fn lemma_definitions_ids()
    ensures
        desc_id(definitions()[0].opts.name) == 0x8b48b530c96ebcccu64,
        desc_id(definitions()[1].opts.name) == 0x92b0606100d78276u64,
        desc_id(definitions()[2].opts.name) == 0x8d7b4641b814db31u64,
        ids_fresh(definitions(), Set::empty()),
        forall|i: int|
            0 <= i < definitions().len() ==> ids().contains(
                desc_id(#[trigger] definitions()[i].opts.name),
            ),
{
    lemma_id_hits_total();
    lemma_id_misses_total();
    lemma_id_operation_duration_seconds();
    let defs = definitions();
    assert(desc_id(defs[0].opts.name) == 0x8b48b530c96ebcccu64);
    assert(ids().contains(desc_id(defs[0].opts.name)));
    assert(desc_id(defs[1].opts.name) == 0x92b0606100d78276u64);
    assert(ids().contains(desc_id(defs[1].opts.name)));
    assert(desc_id(defs[2].opts.name) == 0x8d7b4641b814db31u64);
    assert(ids().contains(desc_id(defs[2].opts.name)));
}

/// The descriptor ids of the metric names, as a set.
pub open spec fn ids() -> Set<u64> {
    set![0x8b48b530c96ebcccu64, 0x92b0606100d78276u64, 0x8d7b4641b814db31u64]
}

impl CacheMetrics {
    /// The vectors, in the order of their definitions.
    pub closed spec fn families(self) -> Seq<Family> {
        seq![
            Family::Counter(self.hits_total),
            Family::Counter(self.misses_total),
            Family::Histogram(self.operation_duration_seconds),
        ]
    }

    /// Each vector was created from its definition.
    #[verifier::type_invariant]
    spec fn made_from_definitions(self) -> bool {
        defs_of(self.families()) == definitions()
    }
}

/// Creates the redis cache metrics and registers them in `registry`, in order.
/// Hands back the vectors that were registered, each found under its name.
pub fn register(registry: &mut MetricsRegistry) -> (metrics: CacheMetrics)
    requires
        ids_fresh(definitions(), old(registry).metrics().dom()),
    ensures
        final(registry).metrics() == extend(old(registry).metrics(), metrics.families()),
        defs_of(metrics.families()) == definitions(),
        forall|i: int|
            0 <= i < metrics.families().len() ==> final(registry).metrics()[(
            #[trigger] metrics.families()[i]).name()] == metrics.families()[i],
{
    let ghost before = registry.metrics();
    let table = table();
    proof {
        lemma_definitions_well_formed();
    }
    assert forall|i: int| 0 <= i < table.len() implies accepts_opts((#[trigger] table[i]@).opts)
        && (table[i]@.kind != MetricKind::Histogram ==> table[i]@.buckets.len() == 0) by {
        assert(definition_views(table@)[i] == table@[i]@);
        assert(definitions()[i].follows_conventions());
    }
    let mut families = register_definitions(registry, &table);
    let ghost registered = families@;
    assert(registered.len() == 3) by {
        assert(defs_of(registered).len() == registered.len());
    }
    assert forall|i: int| 0 <= i < 3 implies #[trigger] registered[i].describes(definitions()[i]) by {
        assert(defs_of(registered)[i] == registered[i].def());
    }
    assert(families@.last() == registered[2]);
    let operation_duration_seconds = pop_histogram(&mut families);
    assert(families@.last() == registered[1]);
    let misses_total = pop_counter(&mut families);
    assert(families@.last() == registered[0]);
    let hits_total = pop_counter(&mut families);
    assert(seq![Family::Counter(hits_total), Family::Counter(misses_total), Family::Histogram(operation_duration_seconds)] =~= registered);
    let metrics = CacheMetrics { hits_total, misses_total, operation_duration_seconds };
    assert(metrics.families() =~= registered);
    proof {
        assert forall|i: int, j: int| 0 <= i < j < registered.len() implies (#[trigger] registered[i]).name()
            != (#[trigger] registered[j]).name() by {
            assert(defs_of(registered)[i] == registered[i].def());
            assert(defs_of(registered)[j] == registered[j].def());
        }
        law_registered_found_by_name(before, registered);
    }
    metrics
}

/// The vector `aframp_cache_hits_total`, as registered.
pub fn hits_total(metrics: &CacheMetrics) -> (family: &CounterFamily)
    ensures
        Family::Counter(*family) == metrics.families()[0],
        Family::Counter(*family).describes(definitions()[0]),
        defs_of(metrics.families()) == definitions(),
{
    proof {
        use_type_invariant(metrics);
        assert(defs_of(metrics.families())[0] == metrics.families()[0].def());
    }
    &metrics.hits_total
}

/// The vector `aframp_cache_misses_total`, as registered.
pub fn misses_total(metrics: &CacheMetrics) -> (family: &CounterFamily)
    ensures
        Family::Counter(*family) == metrics.families()[1],
        Family::Counter(*family).describes(definitions()[1]),
        defs_of(metrics.families()) == definitions(),
{
    proof {
        use_type_invariant(metrics);
        assert(defs_of(metrics.families())[1] == metrics.families()[1].def());
    }
    &metrics.misses_total
}

/// The vector `aframp_cache_operation_duration_seconds`, as registered.
pub fn operation_duration_seconds(metrics: &CacheMetrics) -> (family: &HistogramFamily)
    ensures
        Family::Histogram(*family) == metrics.families()[2],
        Family::Histogram(*family).describes(definitions()[2]),
        defs_of(metrics.families()) == definitions(),
{
    proof {
        use_type_invariant(metrics);
        assert(defs_of(metrics.families())[2] == metrics.families()[2].def());
    }
    &metrics.operation_duration_seconds
}

} // verus!
