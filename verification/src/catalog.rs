//! The whole catalog of metrics, and the laws that it keeps.

use vstd::prelude::*;
use crate::definition::{
    accepts_opts, buckets_increasing, has_prefix, has_suffix, is_snake_case, namespace_prefix,
    subsystem_key, well_formed_definitions, MetricDef, MetricKind,
};
use crate::prom::desc_id;
use crate::registration::{ids_fresh, names_of};
use crate::{analytics, cache, cngn, database, http, payment, stellar, worker};

verus! {

/// Every metric of the project, in the order in which it is registered.
pub open spec fn catalog() -> Seq<MetricDef> {
    http::definitions() + cngn::definitions() + payment::definitions() + stellar::definitions()
        + worker::definitions() + cache::definitions() + database::definitions()
        + analytics::definitions()
}

/// The names of the catalog, in order.
pub open spec fn catalog_names() -> Seq<Seq<char>> {
    catalog().map_values(|d: MetricDef| d.opts.name)
}

spec fn keys_within(defs: Seq<MetricDef>, keys: Set<(char, char)>) -> bool {
    forall|i: int| 0 <= i < defs.len() ==> keys.contains(subsystem_key(#[trigger] defs[i].opts.name))
}

proof fn lemma_concat_well_formed(
    a: Seq<MetricDef>,
    b: Seq<MetricDef>,
    keys: Set<(char, char)>,
    key: (char, char),
)
    requires
        well_formed_definitions(a),
        well_formed_definitions(b),
        keys_within(a, keys),
        !keys.contains(key),
        forall|j: int| 0 <= j < b.len() ==> subsystem_key(#[trigger] b[j].opts.name) == key,
    ensures
        well_formed_definitions(a + b),
        keys_within(a + b, keys.insert(key)),
{
    let c = a + b;
    assert forall|i: int| 0 <= i < c.len() implies (#[trigger] c[i]).follows_conventions() by {
        if i < a.len() {
            assert(c[i] == a[i]);
        } else {
            assert(c[i] == b[i - a.len()]);
        }
    }
    assert forall|i: int, j: int|
        0 <= i < c.len() && 0 <= j < c.len() && i != j implies (#[trigger] c[i]).opts.name != (
    #[trigger] c[j]).opts.name by {
        if i < a.len() {
            assert(c[i] == a[i]);
            assert(keys.contains(subsystem_key(a[i].opts.name)));
        } else {
            assert(c[i] == b[i - a.len()]);
        }
        if j < a.len() {
            assert(c[j] == a[j]);
            assert(keys.contains(subsystem_key(a[j].opts.name)));
        } else {
            assert(c[j] == b[j - a.len()]);
        }
    }
    assert forall|i: int| 0 <= i < c.len() implies keys.insert(key).contains(
        subsystem_key(#[trigger] c[i].opts.name),
    ) by {
        if i < a.len() {
            assert(c[i] == a[i]);
        } else {
            assert(c[i] == b[i - a.len()]);
        }
    }
}

/// Every definition of the catalog follows the project's conventions, and no two
/// metrics share a name.
pub proof fn law_catalog_well_formed()
    ensures
        well_formed_definitions(catalog()),
{
    http::lemma_definitions_well_formed();
    cngn::lemma_definitions_well_formed();
    payment::lemma_definitions_well_formed();
    stellar::lemma_definitions_well_formed();
    worker::lemma_definitions_well_formed();
    cache::lemma_definitions_well_formed();
    database::lemma_definitions_well_formed();
    analytics::lemma_definitions_well_formed();
    let k0 = set![('h', 't')];
    let d1 = http::definitions() + cngn::definitions();
    lemma_concat_well_formed(http::definitions(), cngn::definitions(), k0, ('c', 'n'));
    let k1 = k0.insert(('c', 'n'));
    let d2 = d1 + payment::definitions();
    lemma_concat_well_formed(d1, payment::definitions(), k1, ('p', 'a'));
    let k2 = k1.insert(('p', 'a'));
    let d3 = d2 + stellar::definitions();
    lemma_concat_well_formed(d2, stellar::definitions(), k2, ('s', 't'));
    let k3 = k2.insert(('s', 't'));
    let d4 = d3 + worker::definitions();
    lemma_concat_well_formed(d3, worker::definitions(), k3, ('w', 'o'));
    let k4 = k3.insert(('w', 'o'));
    let d5 = d4 + cache::definitions();
    lemma_concat_well_formed(d4, cache::definitions(), k4, ('c', 'a'));
    let k5 = k4.insert(('c', 'a'));
    let d6 = d5 + database::definitions();
    lemma_concat_well_formed(d5, database::definitions(), k5, ('d', 'b'));
    let k6 = k5.insert(('d', 'b'));
    lemma_concat_well_formed(d6, analytics::definitions(), k6, ('a', 'n'));
}

/// There are thirty metrics.
pub proof fn law_catalog_size()
    ensures
        catalog().len() == 30,
{
}

/// Every metric name carries the `aframp_` namespace prefix and is snake_case.
pub proof fn law_names_namespaced_snake_case()
    ensures
        forall|i: int|
            0 <= i < catalog().len() ==> has_prefix(#[trigger] catalog()[i].opts.name, namespace_prefix())
                && is_snake_case(catalog()[i].opts.name),
{
    law_catalog_well_formed();
    assert forall|i: int| 0 <= i < catalog().len() implies has_prefix(#[trigger] catalog()[i].opts.name, namespace_prefix())
        && is_snake_case(catalog()[i].opts.name) by {
        assert(catalog()[i].follows_conventions());
    }
}

/// No two metrics share a name, so all of them fit in one registry.
pub proof fn law_names_unique()
    ensures
        catalog_names().no_duplicates(),
{
    law_catalog_well_formed();
    assert forall|i: int, j: int|
        0 <= i < catalog_names().len() && 0 <= j < catalog_names().len() && i != j implies catalog_names()[i]
        != catalog_names()[j] by {
        assert(catalog_names()[i] == catalog()[i].opts.name);
        assert(catalog_names()[j] == catalog()[j].opts.name);
    }
}

/// Prometheus accepts the options of every metric: a help text, a valid metric
/// name, and valid label names none of which occurs twice.
pub proof fn law_options_accepted()
    ensures
        forall|i: int| 0 <= i < catalog().len() ==> accepts_opts(#[trigger] catalog()[i].opts),
{
    law_catalog_well_formed();
    assert forall|i: int| 0 <= i < catalog().len() implies accepts_opts(#[trigger] catalog()[i].opts) by {
        assert(catalog()[i].follows_conventions());
    }
}

/// Every counter's name ends in `_total`.
pub proof fn law_counters_end_in_total()
    ensures
        forall|i: int|
            0 <= i < catalog().len() && (#[trigger] catalog()[i]).kind == MetricKind::Counter
                ==> has_suffix(catalog()[i].opts.name, "_total"@),
{
    law_catalog_well_formed();
    assert forall|i: int|
        0 <= i < catalog().len() && (#[trigger] catalog()[i]).kind == MetricKind::Counter implies has_suffix(
        catalog()[i].opts.name,
        "_total"@,
    ) by {
        assert(catalog()[i].follows_conventions());
    }
}

/// Every histogram's name ends in its unit (`_seconds` or `_ngn`), and its bucket
/// bounds are positive and strictly increasing, as Prometheus requires; only
/// histograms have buckets.
pub proof fn law_histogram_units_and_buckets()
    ensures
        forall|i: int|
            0 <= i < catalog().len() ==> {
                let d = #[trigger] catalog()[i];
                &&& d.kind == MetricKind::Histogram ==> {
                    &&& has_suffix(d.opts.name, "_seconds"@) || has_suffix(d.opts.name, "_ngn"@)
                    &&& buckets_increasing(d.buckets)
                }
                &&& d.kind != MetricKind::Histogram ==> d.buckets.len() == 0
            },
{
    law_catalog_well_formed();
    assert forall|i: int| 0 <= i < catalog().len() implies {
        let d = #[trigger] catalog()[i];
        &&& d.kind == MetricKind::Histogram ==> {
            &&& has_suffix(d.opts.name, "_seconds"@) || has_suffix(d.opts.name, "_ngn"@)
            &&& buckets_increasing(d.buckets)
        }
        &&& d.kind != MetricKind::Histogram ==> d.buckets.len() == 0
    } by {
        assert(catalog()[i].follows_conventions());
    }
}

/// The catalog names thirty distinct metrics: a registry that holds the catalog
/// holds thirty names.
pub proof fn law_thirty_names()
    ensures
        names_of(catalog()).finite(),
        names_of(catalog()).len() == 30,
{
    law_names_unique();
    law_catalog_size();
    catalog_names().unique_seq_to_set();
    assert forall|n: Seq<char>| names_of(catalog()).contains(n) implies catalog_names().to_set().contains(n) by {
        let i = choose|i: int| 0 <= i < catalog().len() && #[trigger] catalog()[i].opts.name == n;
        assert(catalog_names()[i] == n);
    }
    assert forall|n: Seq<char>| catalog_names().to_set().contains(n) implies names_of(catalog()).contains(n) by {
        let i = choose|i: int| 0 <= i < catalog_names().len() && catalog_names()[i] == n;
        assert(catalog()[i].opts.name == n);
    }
    assert(names_of(catalog()) =~= catalog_names().to_set());
    vstd::seq_lib::seq_to_set_is_finite(catalog_names());
}

proof fn lemma_concat_ids(a: Seq<MetricDef>, b: Seq<MetricDef>, ka: Set<u64>, kb: Set<u64>)
    requires
        ids_fresh(a, Set::empty()),
        ids_fresh(b, Set::empty()),
        forall|i: int| 0 <= i < a.len() ==> ka.contains(desc_id(#[trigger] a[i].opts.name)),
        forall|j: int| 0 <= j < b.len() ==> kb.contains(desc_id(#[trigger] b[j].opts.name)),
        ka.disjoint(kb),
    ensures
        ids_fresh(a + b, Set::empty()),
        forall|i: int|
            0 <= i < (a + b).len() ==> ka.union(kb).contains(desc_id(#[trigger] (a + b)[i].opts.name)),
{
    let c = a + b;
    assert forall|i: int, j: int| 0 <= i < j < c.len() implies desc_id(#[trigger] c[i].opts.name)
        != desc_id(#[trigger] c[j].opts.name) by {
        if j < a.len() {
            assert(c[i] == a[i] && c[j] == a[j]);
        } else if i >= a.len() {
            assert(c[i] == b[i - a.len()] && c[j] == b[j - a.len()]);
        } else {
            assert(c[i] == a[i] && c[j] == b[j - a.len()]);
            assert(ka.contains(desc_id(a[i].opts.name)));
            assert(kb.contains(desc_id(b[j - a.len()].opts.name)));
        }
    }
    assert forall|i: int| 0 <= i < c.len() implies ka.union(kb).contains(
        desc_id(#[trigger] c[i].opts.name),
    ) by {
        if i < a.len() {
            assert(c[i] == a[i]);
        } else {
            assert(c[i] == b[i - a.len()]);
        }
    }
}

/// The descriptor ids that Prometheus gives the thirty metric names differ from
/// one another, so an empty registry accepts the whole catalog.
pub proof fn law_catalog_ids_distinct()
    ensures
        ids_fresh(catalog(), Set::empty()),
{
    http::lemma_definitions_ids();
    cngn::lemma_definitions_ids();
    payment::lemma_definitions_ids();
    stellar::lemma_definitions_ids();
    worker::lemma_definitions_ids();
    cache::lemma_definitions_ids();
    database::lemma_definitions_ids();
    analytics::lemma_definitions_ids();
    let d1 = http::definitions() + cngn::definitions();
    lemma_concat_ids(http::definitions(), cngn::definitions(), http::ids(), cngn::ids());
    let k1 = http::ids().union(cngn::ids());
    let d2 = d1 + payment::definitions();
    lemma_concat_ids(d1, payment::definitions(), k1, payment::ids());
    let k2 = k1.union(payment::ids());
    let d3 = d2 + stellar::definitions();
    lemma_concat_ids(d2, stellar::definitions(), k2, stellar::ids());
    let k3 = k2.union(stellar::ids());
    let d4 = d3 + worker::definitions();
    lemma_concat_ids(d3, worker::definitions(), k3, worker::ids());
    let k4 = k3.union(worker::ids());
    let d5 = d4 + cache::definitions();
    lemma_concat_ids(d4, cache::definitions(), k4, cache::ids());
    let k5 = k4.union(cache::ids());
    let d6 = d5 + database::definitions();
    lemma_concat_ids(d5, database::definitions(), k5, database::ids());
    let k6 = k5.union(database::ids());
    lemma_concat_ids(d6, analytics::definitions(), k6, analytics::ids());
}

} // verus!
