//! What each metric of the project is, by its name: its kind, help text, label
//! names in order and, for histograms, bucket bounds in ten-thousandths. These
//! are the metrics the backend exports; their label order decides which value
//! lands under which label, and their buckets decide which bucket counts a
//! sample.

use vstd::prelude::*;
use crate::catalog::{catalog, catalog_names, law_names_unique};
use crate::definition::MetricDef;
use crate::registration::{defs_of, extend, law_registered_found_by_name, Family};
use crate::registry::lemma_names_distinct;

verus! {

/// The catalog holds `def`, and it is the only metric of the catalog with its name.
pub open spec fn catalog_defines(def: MetricDef) -> bool {
    &&& catalog().contains(def)
    &&& forall|i: int|
        0 <= i < catalog().len() && (#[trigger] catalog()[i]).opts.name == def.opts.name
            ==> catalog()[i] == def
}

proof fn lemma_defines_at(k: int, def: MetricDef)
    requires
        0 <= k < catalog().len(),
        catalog()[k] == def,
    ensures
        catalog_defines(def),
{
    law_names_unique();
    assert forall|i: int|
        0 <= i < catalog().len() && (#[trigger] catalog()[i]).opts.name == def.opts.name implies catalog()[i]
        == def by {
        assert(catalog_names()[i] == catalog()[i].opts.name);
        assert(catalog_names()[k] == catalog()[k].opts.name);
    }
}

/// The hTTP request metrics, as the backend defines them.
pub proof fn law_http_metrics()
    ensures
        catalog_defines(
            MetricDef::counter(
                "aframp_http_requests_total"@,
                "Total number of HTTP requests"@,
                seq!["method"@, "route"@, "status_code"@],
            ),
        ),
        catalog_defines(
            MetricDef::histogram(
                "aframp_http_request_duration_seconds"@,
                "HTTP request duration in seconds"@,
                seq!["method"@, "route"@],
                seq![50u64, 100, 250, 500, 1000, 2500, 5000, 10000, 25000, 50000, 100000],
            ),
        ),
        catalog_defines(
            MetricDef::gauge(
                "aframp_http_requests_in_flight"@,
                "Number of HTTP requests currently being processed"@,
                seq!["route"@],
            ),
        ),
{
    lemma_defines_at(0, catalog()[0]);
    lemma_defines_at(1, catalog()[1]);
    lemma_defines_at(2, catalog()[2]);
}

/// The cNGN transaction metrics, as the backend defines them.
pub proof fn law_cngn_metrics()
    ensures
        catalog_defines(
            MetricDef::counter(
                "aframp_cngn_transactions_total"@,
                "Total cNGN transactions by type and status"@,
                seq!["tx_type"@, "status"@],
            ),
        ),
        catalog_defines(
            MetricDef::histogram(
                "aframp_cngn_transaction_volume_ngn"@,
                "cNGN transaction amounts in NGN"@,
                seq!["tx_type"@],
                seq![1000000u64, 5000000, 10000000, 50000000, 100000000, 500000000, 1000000000, 5000000000, 10000000000],
            ),
        ),
        catalog_defines(
            MetricDef::histogram(
                "aframp_cngn_transaction_duration_seconds"@,
                "cNGN transaction processing duration from initiation to completion"@,
                seq!["tx_type"@],
                seq![10000u64, 50000, 150000, 300000, 600000, 1200000, 3000000, 6000000, 18000000],
            ),
        ),
{
    lemma_defines_at(3, catalog()[3]);
    lemma_defines_at(4, catalog()[4]);
    lemma_defines_at(5, catalog()[5]);
}

/// The payment provider metrics, as the backend defines them.
pub proof fn law_payment_metrics()
    ensures
        catalog_defines(
            MetricDef::counter(
                "aframp_payment_provider_requests_total"@,
                "Total payment provider requests by provider and operation"@,
                seq!["provider"@, "operation"@],
            ),
        ),
        catalog_defines(
            MetricDef::histogram(
                "aframp_payment_provider_request_duration_seconds"@,
                "Payment provider request duration in seconds"@,
                seq!["provider"@, "operation"@],
                seq![500u64, 1000, 2500, 5000, 10000, 25000, 50000, 100000, 300000],
            ),
        ),
        catalog_defines(
            MetricDef::counter(
                "aframp_payment_provider_failures_total"@,
                "Total payment provider failures by provider and failure reason"@,
                seq!["provider"@, "failure_reason"@],
            ),
        ),
{
    lemma_defines_at(6, catalog()[6]);
    lemma_defines_at(7, catalog()[7]);
    lemma_defines_at(8, catalog()[8]);
}

/// The stellar service metrics, as the backend defines them.
pub proof fn law_stellar_metrics()
    ensures
        catalog_defines(
            MetricDef::counter(
                "aframp_stellar_tx_submissions_total"@,
                "Total Stellar transaction submissions by status"@,
                seq!["status"@],
            ),
        ),
        catalog_defines(
            MetricDef::histogram(
                "aframp_stellar_tx_submission_duration_seconds"@,
                "Stellar transaction submission duration in seconds"@,
                seq![],
                seq![1000u64, 5000, 10000, 20000, 50000, 100000, 200000, 300000],
            ),
        ),
        catalog_defines(
            MetricDef::counter(
                "aframp_stellar_trustline_attempts_total"@,
                "Total Stellar trustline creation attempts by status"@,
                seq!["status"@],
            ),
        ),
{
    lemma_defines_at(9, catalog()[9]);
    lemma_defines_at(10, catalog()[10]);
    lemma_defines_at(11, catalog()[11]);
}

/// The background worker metrics, as the backend defines them.
pub proof fn law_worker_metrics()
    ensures
        catalog_defines(
            MetricDef::counter(
                "aframp_worker_cycles_total"@,
                "Total background worker processing cycles"@,
                seq!["worker"@],
            ),
        ),
        catalog_defines(
            MetricDef::histogram(
                "aframp_worker_cycle_duration_seconds"@,
                "Background worker cycle duration in seconds"@,
                seq!["worker"@],
                seq![100u64, 500, 1000, 5000, 10000, 50000, 100000, 300000, 600000],
            ),
        ),
        catalog_defines(
            MetricDef::gauge(
                "aframp_worker_records_processed"@,
                "Number of records processed in the last worker cycle"@,
                seq!["worker"@],
            ),
        ),
        catalog_defines(
            MetricDef::counter(
                "aframp_worker_errors_total"@,
                "Total background worker errors by worker and error type"@,
                seq!["worker"@, "error_type"@],
            ),
        ),
{
    lemma_defines_at(12, catalog()[12]);
    lemma_defines_at(13, catalog()[13]);
    lemma_defines_at(14, catalog()[14]);
    lemma_defines_at(15, catalog()[15]);
}

/// The redis cache metrics, as the backend defines them.
pub proof fn law_cache_metrics()
    ensures
        catalog_defines(
            MetricDef::counter(
                "aframp_cache_hits_total"@,
                "Total Redis cache hits by key prefix"@,
                seq!["key_prefix"@],
            ),
        ),
        catalog_defines(
            MetricDef::counter(
                "aframp_cache_misses_total"@,
                "Total Redis cache misses by key prefix"@,
                seq!["key_prefix"@],
            ),
        ),
        catalog_defines(
            MetricDef::histogram(
                "aframp_cache_operation_duration_seconds"@,
                "Redis cache operation duration in seconds"@,
                seq!["operation"@],
                seq![1u64, 5, 10, 50, 100, 500, 1000, 5000],
            ),
        ),
{
    lemma_defines_at(16, catalog()[16]);
    lemma_defines_at(17, catalog()[17]);
    lemma_defines_at(18, catalog()[18]);
}

/// The database metrics, as the backend defines them.
pub proof fn law_database_metrics()
    ensures
        catalog_defines(
            MetricDef::histogram(
                "aframp_db_query_duration_seconds"@,
                "Database query duration in seconds"@,
                seq!["query_type"@, "table"@],
                seq![10u64, 50, 100, 250, 500, 1000, 2500, 5000, 10000, 50000],
            ),
        ),
        catalog_defines(
            MetricDef::gauge(
                "aframp_db_connections_active"@,
                "Active database connections in the pool"@,
                seq!["pool"@],
            ),
        ),
        catalog_defines(
            MetricDef::counter(
                "aframp_db_errors_total"@,
                "Total database errors by error type"@,
                seq!["error_type"@],
            ),
        ),
{
    lemma_defines_at(19, catalog()[19]);
    lemma_defines_at(20, catalog()[20]);
    lemma_defines_at(21, catalog()[21]);
}

/// The analytics metrics, as the backend defines them.
pub proof fn law_analytics_metrics()
    ensures
        catalog_defines(
            MetricDef::counter(
                "aframp_analytics_snapshots_generated_total"@,
                "Total analytics snapshots generated by period"@,
                seq!["period"@],
            ),
        ),
        catalog_defines(
            MetricDef::counter(
                "aframp_analytics_anomaly_detections_total"@,
                "Total anomaly detections by type"@,
                seq!["anomaly_type"@],
            ),
        ),
        catalog_defines(
            MetricDef::counter(
                "aframp_analytics_insight_deliveries_total"@,
                "Total insight deliveries by period"@,
                seq!["period"@],
            ),
        ),
        catalog_defines(
            MetricDef::counter(
                "aframp_analytics_cache_hits_total"@,
                "Analytics endpoint cache hits"@,
                seq!["endpoint"@],
            ),
        ),
        catalog_defines(
            MetricDef::counter(
                "aframp_analytics_cache_misses_total"@,
                "Analytics endpoint cache misses"@,
                seq!["endpoint"@],
            ),
        ),
        catalog_defines(
            MetricDef::gauge(
                "aframp_analytics_active_wallet_count"@,
                "Number of active wallets per activity tier"@,
                seq!["tier"@],
            ),
        ),
        catalog_defines(
            MetricDef::gauge(
                "aframp_analytics_avg_wallet_risk_score"@,
                "Average wallet risk score"@,
                seq!["scope"@],
            ),
        ),
        catalog_defines(
            MetricDef::gauge(
                "aframp_analytics_anomaly_flagged_wallets"@,
                "Number of wallets currently flagged for anomalies"@,
                seq!["status"@],
            ),
        ),
{
    lemma_defines_at(22, catalog()[22]);
    lemma_defines_at(23, catalog()[23]);
    lemma_defines_at(24, catalog()[24]);
    lemma_defines_at(25, catalog()[25]);
    lemma_defines_at(26, catalog()[26]);
    lemma_defines_at(27, catalog()[27]);
    lemma_defines_at(28, catalog()[28]);
    lemma_defines_at(29, catalog()[29]);
}

/// In a registry filled with the catalog, the vector registered under the name
/// of a metric of the catalog was created from exactly that metric's definition.
pub proof fn law_registered_as_defined(
    registered: Map<Seq<char>, Family>,
    families: Seq<Family>,
    def: MetricDef,
)
    requires
        registered == extend(Map::empty(), families),
        defs_of(families) == catalog(),
        catalog_defines(def),
    ensures
        registered.dom().contains(def.opts.name),
        registered[def.opts.name].def() == def,
{
    lemma_names_distinct(families);
    law_registered_found_by_name(Map::empty(), families);
    let k = choose|k: int| 0 <= k < catalog().len() && catalog()[k] == def;
    assert(defs_of(families)[k] == families[k].def());
    assert(families[k].name() == def.opts.name);
}

} // verus!
