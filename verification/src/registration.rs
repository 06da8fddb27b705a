//! Creating metric vectors from definitions and registering them, in order.

use vstd::prelude::*;
use crate::definition::{accepts_opts, definition_views, Definition, MetricDef, MetricKind};
use crate::prom::{
    counter_family_new, counter_family_opts, desc_id, gauge_family_new, gauge_family_opts,
    histogram_family_buckets, histogram_family_new, histogram_family_opts, registry_register,
    CounterFamily, GaugeFamily, HistogramFamily, MetricsRegistry,
};

verus! {

/// A created metric vector of one of the three kinds.
pub enum Family {
    Counter(CounterFamily),
    Gauge(GaugeFamily),
    Histogram(HistogramFamily),
}

impl Family {
    /// The fully-qualified name of the vector.
    pub open spec fn name(&self) -> Seq<char> {
        match self {
            Family::Counter(f) => counter_family_opts(*f).name,
            Family::Gauge(f) => gauge_family_opts(*f).name,
            Family::Histogram(f) => histogram_family_opts(*f).name,
        }
    }

    /// The definition the vector was created from: its kind, its options and,
    /// for a histogram, its buckets.
    pub open spec fn def(&self) -> MetricDef {
        match self {
            Family::Counter(f) => MetricDef {
                kind: MetricKind::Counter,
                opts: counter_family_opts(*f),
                buckets: Seq::empty(),
            },
            Family::Gauge(f) => MetricDef {
                kind: MetricKind::Gauge,
                opts: gauge_family_opts(*f),
                buckets: Seq::empty(),
            },
            Family::Histogram(f) => MetricDef {
                kind: MetricKind::Histogram,
                opts: histogram_family_opts(*f),
                buckets: histogram_family_buckets(*f),
            },
        }
    }

    /// The vector was created from this definition.
    pub open spec fn describes(&self, def: MetricDef) -> bool {
        self.def() == def
    }
}

/// The names of a sequence of definitions.
pub open spec fn names_of(defs: Seq<MetricDef>) -> Set<Seq<char>> {
    Set::new(|n: Seq<char>| exists|i: int| 0 <= i < defs.len() && #[trigger] defs[i].opts.name == n)
}

/// The definitions that a sequence of vectors was created from, in order.
pub open spec fn defs_of(fams: Seq<Family>) -> Seq<MetricDef> {
    fams.map_values(|f: Family| f.def())
}

/// The contents of a registry that held `held` after the vectors `fams` are
/// registered in it, one after the other, each under its name.
pub open spec fn extend(held: Map<Seq<char>, Family>, fams: Seq<Family>) -> Map<Seq<char>, Family>
    decreases fams.len(),
{
    if fams.len() == 0 {
        held
    } else {
        extend(held, fams.drop_last()).insert(fams.last().name(), fams.last())
    }
}

/// The descriptor ids of the definitions' names differ from each other and from
/// the ids of the names in `held`, so a registry that holds `held` accepts them.
pub open spec fn ids_fresh(defs: Seq<MetricDef>, held: Set<Seq<char>>) -> bool {
    &&& forall|i: int, n: Seq<char>|
        #![trigger defs[i].opts.name, held.contains(n)]
        0 <= i < defs.len() && held.contains(n) ==> desc_id(defs[i].opts.name) != desc_id(n)
    &&& forall|i: int, j: int|
        0 <= i < j < defs.len() ==> desc_id(#[trigger] defs[i].opts.name) != desc_id(
            #[trigger] defs[j].opts.name,
        )
}

/// Registering one more vector records it under its name.
pub proof fn lemma_extend_push(held: Map<Seq<char>, Family>, fams: Seq<Family>, f: Family)
    ensures
        extend(held, fams.push(f)) == extend(held, fams).insert(f.name(), f),
{
    assert(fams.push(f).drop_last() =~= fams);
}

/// The names that registering `fams` adds are the names of their definitions.
pub proof fn lemma_extend_dom(held: Map<Seq<char>, Family>, fams: Seq<Family>)
    ensures
        extend(held, fams).dom() == held.dom().union(names_of(defs_of(fams))),
    decreases fams.len(),
{
    let defs = defs_of(fams);
    if fams.len() > 0 {
        let init = fams.drop_last();
        lemma_extend_dom(held, init);
        assert forall|n: Seq<char>| names_of(defs).contains(n) implies names_of(
            defs_of(init),
        ).contains(n) || n == fams.last().name() by {
            let i = choose|i: int| 0 <= i < defs.len() && #[trigger] defs[i].opts.name == n;
            if i < fams.len() - 1 {
                assert(defs_of(init)[i] == defs[i]);
            }
        }
        assert forall|n: Seq<char>| names_of(defs_of(init)).contains(n) implies names_of(
            defs,
        ).contains(n) by {
            let i = choose|i: int|
                0 <= i < defs_of(init).len() && #[trigger] defs_of(init)[i].opts.name == n;
            assert(defs[i] == defs_of(init)[i]);
        }
        assert(names_of(defs).contains(fams.last().name())) by {
            assert(defs[fams.len() - 1] == fams.last().def());
            assert(defs[fams.len() - 1].opts.name == fams.last().name());
        }
        assert(extend(held, fams).dom() =~= held.dom().union(names_of(defs)));
    } else {
        assert(names_of(defs) =~= Set::empty());
        assert(held.dom().union(names_of(defs)) =~= held.dom());
    }
}

/// Registering `a + b` is registering `a`, then `b`.
pub proof fn lemma_extend_concat(held: Map<Seq<char>, Family>, a: Seq<Family>, b: Seq<Family>)
    ensures
        extend(held, a + b) == extend(extend(held, a), b),
        defs_of(a + b) == defs_of(a) + defs_of(b),
    decreases b.len(),
{
    assert(defs_of(a + b) =~= defs_of(a) + defs_of(b));
    if b.len() == 0 {
        assert(a + b =~= a);
    } else {
        lemma_extend_concat(held, a, b.drop_last());
        assert((a + b).drop_last() =~= a + b.drop_last());
        assert((a + b).last() == b.last());
    }
}

/// Once vectors with distinct names are registered, each is found under its name.
pub proof fn law_registered_found_by_name(held: Map<Seq<char>, Family>, fams: Seq<Family>)
    requires
        forall|i: int, j: int|
            0 <= i < j < fams.len() ==> (#[trigger] fams[i]).name() != (#[trigger] fams[j]).name(),
    ensures
        forall|i: int|
            0 <= i < fams.len() ==> extend(held, fams).dom().contains((#[trigger] fams[i]).name())
                && extend(held, fams)[fams[i].name()] == fams[i],
    decreases fams.len(),
{
    if fams.len() > 0 {
        let init = fams.drop_last();
        law_registered_found_by_name(held, init);
        assert forall|i: int| 0 <= i < fams.len() implies extend(held, fams).dom().contains(
            (#[trigger] fams[i]).name(),
        ) && extend(held, fams)[fams[i].name()] == fams[i] by {
            if i < fams.len() - 1 {
                assert(init[i] == fams[i]);
                assert(fams[i].name() != fams[fams.len() - 1].name());
            }
        }
    }
}

/// Registering vectors leaves every name that they do not take as it was.
pub proof fn law_registration_keeps_other_names(held: Map<Seq<char>, Family>, fams: Seq<Family>)
    ensures
        forall|n: Seq<char>|
            #[trigger] held.dom().contains(n) && !names_of(defs_of(fams)).contains(n) ==> extend(
                held,
                fams,
            ).dom().contains(n) && extend(held, fams)[n] == held[n],
    decreases fams.len(),
{
    if fams.len() > 0 {
        let init = fams.drop_last();
        law_registration_keeps_other_names(held, init);
        assert forall|n: Seq<char>|
            #[trigger] held.dom().contains(n) && !names_of(defs_of(fams)).contains(n) implies extend(
                held,
                fams,
            ).dom().contains(n) && extend(held, fams)[n] == held[n] by {
            assert(defs_of(fams)[fams.len() - 1].opts.name == fams.last().name());
            if names_of(defs_of(init)).contains(n) {
                let i = choose|i: int|
                    0 <= i < defs_of(init).len() && #[trigger] defs_of(init)[i].opts.name == n;
                assert(defs_of(fams)[i] == defs_of(init)[i]);
            }
        }
    }
}

/// Freshness of `a + b` is freshness of `a`, and of `b` against what `a` adds.
pub proof fn lemma_ids_fresh_split(a: Seq<MetricDef>, b: Seq<MetricDef>, held: Set<Seq<char>>)
    requires
        ids_fresh(a + b, held),
    ensures
        ids_fresh(a, held),
        ids_fresh(b, held.union(names_of(a))),
{
    let c = a + b;
    assert forall|i: int, n: Seq<char>|
        #![trigger a[i].opts.name, held.contains(n)]
        0 <= i < a.len() && held.contains(n) implies desc_id(a[i].opts.name) != desc_id(n) by {
        assert(c[i] == a[i]);
    }
    assert forall|i: int, j: int| 0 <= i < j < a.len() implies desc_id(#[trigger] a[i].opts.name)
        != desc_id(#[trigger] a[j].opts.name) by {
        assert(c[i] == a[i]);
        assert(c[j] == a[j]);
    }
    assert forall|i: int, n: Seq<char>|
        #![trigger b[i].opts.name, held.union(names_of(a)).contains(n)]
        0 <= i < b.len() && held.union(names_of(a)).contains(n) implies desc_id(b[i].opts.name)
            != desc_id(n) by {
        assert(c[a.len() + i] == b[i]);
        if !held.contains(n) {
            let k = choose|k: int| 0 <= k < a.len() && #[trigger] a[k].opts.name == n;
            assert(c[k] == a[k]);
        }
    }
    assert forall|i: int, j: int| 0 <= i < j < b.len() implies desc_id(#[trigger] b[i].opts.name)
        != desc_id(#[trigger] b[j].opts.name) by {
        assert(c[a.len() + i] == b[i]);
        assert(c[a.len() + j] == b[j]);
    }
}

/// Creates the metric vector that a definition describes. It cannot fail: the
/// definition's options are ones that Prometheus accepts.
pub fn create_family(def: &Definition) -> (family: Family)
    requires
        accepts_opts(def@.opts),
        def@.kind != MetricKind::Histogram ==> def@.buckets.len() == 0,
    ensures
        family.def() == def@,
{
    let ghost empty = Seq::<u64>::empty();
    assert(def@.kind != MetricKind::Histogram ==> def@.buckets =~= empty);
    match def.kind {
        MetricKind::Counter => Family::Counter(
            counter_family_new(def.name, def.help, def.labels.as_slice()).unwrap(),
        ),
        MetricKind::Gauge => Family::Gauge(
            gauge_family_new(def.name, def.help, def.labels.as_slice()).unwrap(),
        ),
        MetricKind::Histogram => Family::Histogram(
            histogram_family_new(
                def.name,
                def.help,
                def.labels.as_slice(),
                def.buckets.as_slice(),
            ).unwrap(),
        ),
    }
}

/// Creates and registers, in order, the vectors that a table defines, and hands
/// back the vectors that were registered.
pub fn register_definitions(registry: &mut MetricsRegistry, table: &Vec<Definition>) -> (families:
    Vec<Family>)
    requires
        forall|i: int|
            0 <= i < table.len() ==> accepts_opts((#[trigger] table[i]@).opts) && (table[i]@.kind
                != MetricKind::Histogram ==> table[i]@.buckets.len() == 0),
        ids_fresh(definition_views(table@), old(registry).metrics().dom()),
    ensures
        final(registry).metrics() == extend(old(registry).metrics(), families@),
        defs_of(families@) == definition_views(table@),
{
    let ghost defs = definition_views(table@);
    let ghost before = registry.metrics();
    let mut families: Vec<Family> = Vec::new();
    let mut i: usize = 0;
    while i < table.len()
        invariant
            defs == definition_views(table@),
            before == old(registry).metrics(),
            forall|j: int|
                0 <= j < table.len() ==> accepts_opts((#[trigger] table[j]@).opts) && (
                table[j]@.kind != MetricKind::Histogram ==> table[j]@.buckets.len() == 0),
            ids_fresh(defs, before.dom()),
            i <= table.len(),
            defs_of(families@) == defs.take(i as int),
            registry.metrics() == extend(before, families@),
        decreases table.len() - i,
    {
        assert(defs[i as int] == table[i as int]@);
        let family = create_family(&table[i]);
        proof {
            assert(family.name() == defs[i as int].opts.name);
            lemma_extend_dom(before, families@);
            assert forall|n: Seq<char>| #[trigger] registry.metrics().dom().contains(n) implies desc_id(
                n,
            ) != desc_id(family.name()) by {
                if !before.dom().contains(n) {
                    let j = choose|j: int|
                        0 <= j < defs_of(families@).len() && #[trigger] defs_of(
                            families@,
                        )[j].opts.name == n;
                    assert(defs.take(i as int)[j] == defs[j]);
                    assert(desc_id(defs[j].opts.name) != desc_id(defs[i as int].opts.name));
                }
            }
            lemma_extend_push(before, families@, family);
            assert(defs_of(families@.push(family)) =~= defs.take(i + 1));
        }
        match registry_register(registry, &family) {
            Ok(()) => {},
            Err(_) => unreached(),
        }
        families.push(family);
        i += 1;
    }
    assert(defs.take(table.len() as int) =~= defs);
    families
}

/// Takes the last vector off the list; it is a counter vector.
pub fn pop_counter(families: &mut Vec<Family>) -> (family: CounterFamily)
    requires
        old(families).len() > 0,
        old(families)@.last() is Counter,
    ensures
        Family::Counter(family) == old(families)@.last(),
        final(families)@ == old(families)@.drop_last(),
{
    match families.pop() {
        Some(Family::Counter(family)) => family,
        _ => unreached(),
    }
}

/// Takes the last vector off the list; it is a gauge vector.
pub fn pop_gauge(families: &mut Vec<Family>) -> (family: GaugeFamily)
    requires
        old(families).len() > 0,
        old(families)@.last() is Gauge,
    ensures
        Family::Gauge(family) == old(families)@.last(),
        final(families)@ == old(families)@.drop_last(),
{
    match families.pop() {
        Some(Family::Gauge(family)) => family,
        _ => unreached(),
    }
}

/// Takes the last vector off the list; it is a histogram vector.
pub fn pop_histogram(families: &mut Vec<Family>) -> (family: HistogramFamily)
    requires
        old(families).len() > 0,
        old(families)@.last() is Histogram,
    ensures
        Family::Histogram(family) == old(families)@.last(),
        final(families)@ == old(families)@.drop_last(),
{
    match families.pop() {
        Some(Family::Histogram(family)) => family,
        _ => unreached(),
    }
}

} // verus!
