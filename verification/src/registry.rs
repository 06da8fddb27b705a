//! Registering every metric in one registry.

use vstd::prelude::*;
use crate::catalog::{catalog, law_catalog_ids_distinct, law_catalog_well_formed, law_thirty_names};
use crate::definition::MetricDef;
use crate::prom::{desc_id, registry_new, MetricsRegistry};
use crate::registration::{
    defs_of, extend, ids_fresh, law_registered_found_by_name, law_registration_keeps_other_names,
    lemma_extend_concat, lemma_extend_dom, lemma_ids_fresh_split, names_of, Family,
};
use crate::{analytics, cache, cngn, database, http, payment, stellar, worker};

verus! {

/// The metric vectors of every subsystem, as registration created them.
pub struct Metrics {
    pub http: http::HttpMetrics,
    pub cngn: cngn::CngnMetrics,
    pub payment: payment::PaymentMetrics,
    pub stellar: stellar::StellarMetrics,
    pub worker: worker::WorkerMetrics,
    pub cache: cache::CacheMetrics,
    pub database: database::DatabaseMetrics,
    pub analytics: analytics::AnalyticsMetrics,
}

impl Metrics {
    /// Every vector, in the order of the catalog.
    pub open spec fn families(self) -> Seq<Family> {
        self.http.families() + self.cngn.families() + self.payment.families()
            + self.stellar.families() + self.worker.families() + self.cache.families()
            + self.database.families() + self.analytics.families()
    }
}

/// Freshness of a sequence of definitions holds of every start of it.
proof fn lemma_ids_fresh_prefix(a: Seq<MetricDef>, c: Seq<MetricDef>, held: Set<Seq<char>>)
    requires
        ids_fresh(c, held),
        a.len() <= c.len(),
        c.take(a.len() as int) == a,
    ensures
        ids_fresh(a, held),
{
    assert forall|i: int, n: Seq<char>|
        #![trigger a[i].opts.name, held.contains(n)]
        0 <= i < a.len() && held.contains(n) implies desc_id(a[i].opts.name) != desc_id(n) by {
        assert(c[i] == a[i]);
    }
    assert forall|i: int, j: int| 0 <= i < j < a.len() implies desc_id(#[trigger] a[i].opts.name)
        != desc_id(#[trigger] a[j].opts.name) by {
        assert(c[i] == a[i]);
        assert(c[j] == a[j]);
    }
}

/// Once the vectors `done` of the first subsystems are registered, the
/// definitions `next` of the following one meet no id already taken.
proof fn lemma_next_subsystem(
    start: Map<Seq<char>, Family>,
    done: Seq<Family>,
    next: Seq<MetricDef>,
)
    requires
        ids_fresh(catalog(), start.dom()),
        done.len() + next.len() <= catalog().len(),
        catalog().take((done.len() + next.len()) as int) == defs_of(done) + next,
    ensures
        ids_fresh(next, extend(start, done).dom()),
{
    lemma_ids_fresh_prefix(defs_of(done) + next, catalog(), start.dom());
    lemma_ids_fresh_split(defs_of(done), next, start.dom());
    lemma_extend_dom(start, done);
}

/// The vectors of the catalog have distinct names.
pub proof fn lemma_names_distinct(fams: Seq<Family>)
    requires
        defs_of(fams) == catalog(),
    ensures
        forall|i: int, j: int|
            0 <= i < j < fams.len() ==> (#[trigger] fams[i]).name() != (#[trigger] fams[j]).name(),
{
    law_catalog_well_formed();
    assert forall|i: int, j: int| 0 <= i < j < fams.len() implies (#[trigger] fams[i]).name()
        != (#[trigger] fams[j]).name() by {
        assert(defs_of(fams)[i] == fams[i].def());
        assert(defs_of(fams)[j] == fams[j].def());
    }
}

/// Creates every metric of the catalog and registers it in `registry`, subsystem
/// by subsystem in the catalog's order, and hands back the vectors that were
/// registered: each is then found in the registry under its name, and what the
/// registry held before stays.
pub fn register_all(registry: &mut MetricsRegistry) -> (metrics: Metrics)
    requires
        ids_fresh(catalog(), old(registry).metrics().dom()),
    ensures
        final(registry).metrics() == extend(old(registry).metrics(), metrics.families()),
        defs_of(metrics.families()) == catalog(),
        forall|i: int|
            0 <= i < metrics.families().len() ==> final(registry).metrics()[(
            #[trigger] metrics.families()[i]).name()] == metrics.families()[i],
        forall|n: Seq<char>|
            #[trigger] old(registry).metrics().dom().contains(n) ==> final(registry).metrics().dom().contains(n)
                && final(registry).metrics()[n] == old(registry).metrics()[n],
{
    let ghost start = registry.metrics();
    let ghost mut done: Seq<Family> = Seq::empty();
    assert(defs_of(done) =~= Seq::<MetricDef>::empty());
    assert(extend(start, done) == start);
    proof {
        assert(catalog().take((done.len() + http::definitions().len()) as int) =~= defs_of(done)
            + http::definitions());
        lemma_next_subsystem(start, done, http::definitions());
    }
    let http = http::register(registry);
    proof {
        lemma_extend_concat(start, done, http.families());
        done = done + http.families();
    }
    proof {
        assert(catalog().take((done.len() + cngn::definitions().len()) as int) =~= defs_of(done)
            + cngn::definitions());
        lemma_next_subsystem(start, done, cngn::definitions());
    }
    let cngn = cngn::register(registry);
    proof {
        lemma_extend_concat(start, done, cngn.families());
        done = done + cngn.families();
    }
    proof {
        assert(catalog().take((done.len() + payment::definitions().len()) as int) =~= defs_of(done)
            + payment::definitions());
        lemma_next_subsystem(start, done, payment::definitions());
    }
    let payment = payment::register(registry);
    proof {
        lemma_extend_concat(start, done, payment.families());
        done = done + payment.families();
    }
    proof {
        assert(catalog().take((done.len() + stellar::definitions().len()) as int) =~= defs_of(done)
            + stellar::definitions());
        lemma_next_subsystem(start, done, stellar::definitions());
    }
    let stellar = stellar::register(registry);
    proof {
        lemma_extend_concat(start, done, stellar.families());
        done = done + stellar.families();
    }
    proof {
        assert(catalog().take((done.len() + worker::definitions().len()) as int) =~= defs_of(done)
            + worker::definitions());
        lemma_next_subsystem(start, done, worker::definitions());
    }
    let worker = worker::register(registry);
    proof {
        lemma_extend_concat(start, done, worker.families());
        done = done + worker.families();
    }
    proof {
        assert(catalog().take((done.len() + cache::definitions().len()) as int) =~= defs_of(done)
            + cache::definitions());
        lemma_next_subsystem(start, done, cache::definitions());
    }
    let cache = cache::register(registry);
    proof {
        lemma_extend_concat(start, done, cache.families());
        done = done + cache.families();
    }
    proof {
        assert(catalog().take((done.len() + database::definitions().len()) as int) =~= defs_of(done)
            + database::definitions());
        lemma_next_subsystem(start, done, database::definitions());
    }
    let database = database::register(registry);
    proof {
        lemma_extend_concat(start, done, database.families());
        done = done + database.families();
    }
    proof {
        assert(catalog().take((done.len() + analytics::definitions().len()) as int) =~= defs_of(done)
            + analytics::definitions());
        lemma_next_subsystem(start, done, analytics::definitions());
    }
    let analytics = analytics::register(registry);
    proof {
        lemma_extend_concat(start, done, analytics.families());
        done = done + analytics.families();
    }
    let metrics = Metrics { http, cngn, payment, stellar, worker, cache, database, analytics };
    assert(done =~= metrics.families());
    assert(defs_of(done) =~= catalog());
    proof {
        lemma_names_distinct(done);
        law_registered_found_by_name(start, done);
        law_registration_keeps_other_names(start, done);
        assert forall|n: Seq<char>| #[trigger] start.dom().contains(n) implies !names_of(
            defs_of(done),
        ).contains(n) by {
            if names_of(defs_of(done)).contains(n) {
                let i = choose|i: int|
                    0 <= i < catalog().len() && #[trigger] catalog()[i].opts.name == n;
                assert(desc_id(catalog()[i].opts.name) != desc_id(n));
            }
        }
    }
    metrics
}

/// Creates a registry that holds no metric.
pub fn empty_registry() -> (registry: MetricsRegistry)
    ensures
        registry.metrics() == Map::<Seq<char>, Family>::empty(),
{
    registry_new()
}

/// Creates a registry and registers every metric of the catalog in it. The
/// registry then holds exactly the thirty metrics of the catalog, and under the
/// name of each the very vector that is handed back for it, so that what is
/// recorded through a handed-back vector is what the registry exposes.
pub fn registry() -> (created: (MetricsRegistry, Metrics))
    ensures
        created.0.metrics() == extend(Map::empty(), created.1.families()),
        defs_of(created.1.families()) == catalog(),
        forall|i: int|
            0 <= i < created.1.families().len() ==> created.0.metrics()[(
            #[trigger] created.1.families()[i]).name()] == created.1.families()[i],
        created.0.metrics().dom() == names_of(catalog()),
        created.0.metrics().dom().len() == 30,
        forall|n: Seq<char>|
            #[trigger] created.0.metrics().dom().contains(n) ==> created.0.metrics()[n].name() == n
                && created.0.metrics()[n].def().follows_conventions(),
{
    let mut registry = registry_new();
    proof {
        law_catalog_ids_distinct();
        assert(registry.metrics().dom() =~= Set::empty());
    }
    let metrics = register_all(&mut registry);
    proof {
        let fams = metrics.families();
        lemma_extend_dom(Map::empty(), fams);
        assert(Map::<Seq<char>, Family>::empty().dom().union(names_of(catalog())) =~= names_of(
            catalog(),
        ));
        law_thirty_names();
        law_catalog_well_formed();
        lemma_names_distinct(fams);
        law_registered_found_by_name(Map::empty(), fams);
        assert forall|n: Seq<char>| #[trigger] registry.metrics().dom().contains(n) implies registry.metrics()[n].name() == n
            && registry.metrics()[n].def().follows_conventions() by {
            let i = choose|i: int| 0 <= i < catalog().len() && #[trigger] catalog()[i].opts.name == n;
            assert(defs_of(fams)[i] == fams[i].def());
            assert(fams[i].name() == n);
        }
    }
    (registry, metrics)
}

/// Once the catalog is registered, registering it again in the same registry is
/// excluded: its ids are taken.
pub proof fn law_catalog_registers_once(held: Map<Seq<char>, Family>, fams: Seq<Family>)
    requires
        defs_of(fams) == catalog(),
    ensures
        !ids_fresh(catalog(), extend(held, fams).dom()),
{
    lemma_extend_dom(held, fams);
    let first = catalog()[0].opts.name;
    assert(names_of(catalog()).contains(first));
    assert(extend(held, fams).dom().contains(first));
}

/// A registry that holds the name of a metric of the catalog cannot take the
/// catalog.
pub proof fn law_taken_name_refused(held: Set<Seq<char>>, name: Seq<char>)
    requires
        held.contains(name),
        names_of(catalog()).contains(name),
    ensures
        !ids_fresh(catalog(), held),
{
    let i = choose|i: int| 0 <= i < catalog().len() && #[trigger] catalog()[i].opts.name == name;
    assert(desc_id(catalog()[i].opts.name) == desc_id(name));
}

} // verus!
