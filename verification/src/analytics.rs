//! Analytics metrics.

use vstd::prelude::*;
use crate::definition::{
    accepts_opts, definition_views, is_valid_label_name, label_views, subsystem_key,
    well_formed_definitions, Definition, MetricDef, MetricKind,
};
use crate::prom::{
    desc_id, fnv_from, fnv_step, MetricsRegistry, CounterFamily, GaugeFamily, counter_family_inc,
    Increment,
};
use vstd::string::{is_ascii, StringSliceAdditionalSpecFns};
use vstd::utf8::encode_utf8;
use crate::registration::{
    defs_of, extend, ids_fresh, law_registered_found_by_name, register_definitions, Family,
    pop_counter, pop_gauge,
};

verus! {

/// The analytics metrics, each created from its definition and registered.
pub struct AnalyticsMetrics {
    snapshots_generated_total: CounterFamily,
    anomaly_detections_total: CounterFamily,
    insight_deliveries_total: CounterFamily,
    analytics_cache_hits_total: CounterFamily,
    analytics_cache_misses_total: CounterFamily,
    active_wallet_count_gauge: GaugeFamily,
    avg_wallet_risk_score_gauge: GaugeFamily,
    anomaly_flagged_wallets_gauge: GaugeFamily,
}

/// The definitions of the analytics metrics, in the order of their registration.
pub open spec fn definitions() -> Seq<MetricDef> {
    seq![
        MetricDef::counter(
            "aframp_analytics_snapshots_generated_total"@,
            "Total analytics snapshots generated by period"@,
            seq!["period"@],
        ),
        MetricDef::counter(
            "aframp_analytics_anomaly_detections_total"@,
            "Total anomaly detections by type"@,
            seq!["anomaly_type"@],
        ),
        MetricDef::counter(
            "aframp_analytics_insight_deliveries_total"@,
            "Total insight deliveries by period"@,
            seq!["period"@],
        ),
        MetricDef::counter(
            "aframp_analytics_cache_hits_total"@,
            "Analytics endpoint cache hits"@,
            seq!["endpoint"@],
        ),
        MetricDef::counter(
            "aframp_analytics_cache_misses_total"@,
            "Analytics endpoint cache misses"@,
            seq!["endpoint"@],
        ),
        MetricDef::gauge(
            "aframp_analytics_active_wallet_count"@,
            "Number of active wallets per activity tier"@,
            seq!["tier"@],
        ),
        MetricDef::gauge(
            "aframp_analytics_avg_wallet_risk_score"@,
            "Average wallet risk score"@,
            seq!["scope"@],
        ),
        MetricDef::gauge(
            "aframp_analytics_anomaly_flagged_wallets"@,
            "Number of wallets currently flagged for anomalies"@,
            seq!["status"@],
        ),
    ]
}

/// The definitions, as the table that registration goes through.
pub fn table() -> (table: Vec<Definition>)
    ensures
        definition_views(table@) == definitions(),
{
    let table = vec![
        Definition {
            kind: MetricKind::Counter,
            name: "aframp_analytics_snapshots_generated_total",
            help: "Total analytics snapshots generated by period",
            labels: vec!["period"],
            buckets: vec![],
        },
        Definition {
            kind: MetricKind::Counter,
            name: "aframp_analytics_anomaly_detections_total",
            help: "Total anomaly detections by type",
            labels: vec!["anomaly_type"],
            buckets: vec![],
        },
        Definition {
            kind: MetricKind::Counter,
            name: "aframp_analytics_insight_deliveries_total",
            help: "Total insight deliveries by period",
            labels: vec!["period"],
            buckets: vec![],
        },
        Definition {
            kind: MetricKind::Counter,
            name: "aframp_analytics_cache_hits_total",
            help: "Analytics endpoint cache hits",
            labels: vec!["endpoint"],
            buckets: vec![],
        },
        Definition {
            kind: MetricKind::Counter,
            name: "aframp_analytics_cache_misses_total",
            help: "Analytics endpoint cache misses",
            labels: vec!["endpoint"],
            buckets: vec![],
        },
        Definition {
            kind: MetricKind::Gauge,
            name: "aframp_analytics_active_wallet_count",
            help: "Number of active wallets per activity tier",
            labels: vec!["tier"],
            buckets: vec![],
        },
        Definition {
            kind: MetricKind::Gauge,
            name: "aframp_analytics_avg_wallet_risk_score",
            help: "Average wallet risk score",
            labels: vec!["scope"],
            buckets: vec![],
        },
        Definition {
            kind: MetricKind::Gauge,
            name: "aframp_analytics_anomaly_flagged_wallets",
            help: "Number of wallets currently flagged for anomalies",
            labels: vec!["status"],
            buckets: vec![],
        },
    ];
    assert(definition_views(table@) =~~= definitions());
    table
}

/// Every definition follows the project's conventions, and no two share a name.
pub proof fn lemma_definitions_well_formed()
    ensures
        well_formed_definitions(definitions()),
        forall|i: int|
            0 <= i < definitions().len() ==> subsystem_key(#[trigger] definitions()[i].opts.name)
                == ('a', 'n'),
{
    reveal_strlit("aframp_analytics_snapshots_generated_total");
    reveal_strlit("Total analytics snapshots generated by period");
    reveal_strlit("period");
    reveal_strlit("aframp_analytics_anomaly_detections_total");
    reveal_strlit("Total anomaly detections by type");
    reveal_strlit("anomaly_type");
    reveal_strlit("aframp_analytics_insight_deliveries_total");
    reveal_strlit("Total insight deliveries by period");
    reveal_strlit("aframp_analytics_cache_hits_total");
    reveal_strlit("Analytics endpoint cache hits");
    reveal_strlit("endpoint");
    reveal_strlit("aframp_analytics_cache_misses_total");
    reveal_strlit("Analytics endpoint cache misses");
    reveal_strlit("aframp_analytics_active_wallet_count");
    reveal_strlit("Number of active wallets per activity tier");
    reveal_strlit("tier");
    reveal_strlit("aframp_analytics_avg_wallet_risk_score");
    reveal_strlit("Average wallet risk score");
    reveal_strlit("scope");
    reveal_strlit("aframp_analytics_anomaly_flagged_wallets");
    reveal_strlit("Number of wallets currently flagged for anomalies");
    reveal_strlit("status");
    reveal_strlit("aframp_");
    reveal_strlit("_total");
    let defs = definitions();
    assert(forall|j: int|
        0 <= j < defs[0].opts.labels.len() ==> is_valid_label_name(
            #[trigger] defs[0].opts.labels[j],
        ));
    assert(defs[0].follows_conventions());
    assert(forall|j: int|
        0 <= j < defs[1].opts.labels.len() ==> is_valid_label_name(
            #[trigger] defs[1].opts.labels[j],
        ));
    assert(defs[1].follows_conventions());
    assert(forall|j: int|
        0 <= j < defs[2].opts.labels.len() ==> is_valid_label_name(
            #[trigger] defs[2].opts.labels[j],
        ));
    assert(defs[2].follows_conventions());
    assert(forall|j: int|
        0 <= j < defs[3].opts.labels.len() ==> is_valid_label_name(
            #[trigger] defs[3].opts.labels[j],
        ));
    assert(defs[3].follows_conventions());
    assert(forall|j: int|
        0 <= j < defs[4].opts.labels.len() ==> is_valid_label_name(
            #[trigger] defs[4].opts.labels[j],
        ));
    assert(defs[4].follows_conventions());
    assert(forall|j: int|
        0 <= j < defs[5].opts.labels.len() ==> is_valid_label_name(
            #[trigger] defs[5].opts.labels[j],
        ));
    assert(defs[5].follows_conventions());
    assert(forall|j: int|
        0 <= j < defs[6].opts.labels.len() ==> is_valid_label_name(
            #[trigger] defs[6].opts.labels[j],
        ));
    assert(defs[6].follows_conventions());
    assert(forall|j: int|
        0 <= j < defs[7].opts.labels.len() ==> is_valid_label_name(
            #[trigger] defs[7].opts.labels[j],
        ));
    assert(defs[7].follows_conventions());
    // Names with distinct descriptor ids are distinct.
    lemma_definitions_ids();
}

proof fn lemma_id_snapshots_generated_total()
    ensures
        desc_id("aframp_analytics_snapshots_generated_total"@) == 0x59ed8f34e179a04du64,
{
    broadcast use vstd::string::group_string_axioms;

    reveal_strlit("aframp_analytics_snapshots_generated_total");
    assert(is_ascii("aframp_analytics_snapshots_generated_total"));
    assert("aframp_analytics_snapshots_generated_total".spec_bytes() == encode_utf8("aframp_analytics_snapshots_generated_total"@));
    assert(desc_id("aframp_analytics_snapshots_generated_total"@) == fnv_step(fnv_step(fnv_step(fnv_step(fnv_step(fnv_step(fnv_step(fnv_step(fnv_step(fnv_step(fnv_step(fnv_step(fnv_step(fnv_step(fnv_step(fnv_step(fnv_step(fnv_step(fnv_step(fnv_step(fnv_step(fnv_step(fnv_step(fnv_step(fnv_step(fnv_step(fnv_step(fnv_step(fnv_step(fnv_step(fnv_step(fnv_step(fnv_step(fnv_step(fnv_step(fnv_step(fnv_step(fnv_step(fnv_step(fnv_step(fnv_step(fnv_step(fnv_step(0xcbf29ce484222325u64, 97u8), 102u8), 114u8), 97u8), 109u8), 112u8), 95u8), 97u8), 110u8), 97u8), 108u8), 121u8), 116u8), 105u8), 99u8), 115u8), 95u8), 115u8), 110u8), 97u8), 112u8), 115u8), 104u8), 111u8), 116u8), 115u8), 95u8), 103u8), 101u8), 110u8), 101u8), 114u8), 97u8), 116u8), 101u8), 100u8), 95u8), 116u8), 111u8), 116u8), 97u8), 108u8), 255u8)) by {
        reveal_with_fuel(fnv_from, 45);
    }
    assert(fnv_step(fnv_step(fnv_step(fnv_step(fnv_step(fnv_step(fnv_step(fnv_step(fnv_step(fnv_step(fnv_step(fnv_step(fnv_step(fnv_step(fnv_step(fnv_step(fnv_step(fnv_step(fnv_step(fnv_step(fnv_step(fnv_step(fnv_step(fnv_step(fnv_step(fnv_step(fnv_step(fnv_step(fnv_step(fnv_step(fnv_step(fnv_step(fnv_step(fnv_step(fnv_step(fnv_step(fnv_step(fnv_step(fnv_step(fnv_step(fnv_step(fnv_step(fnv_step(0xcbf29ce484222325u64, 97u8), 102u8), 114u8), 97u8), 109u8), 112u8), 95u8), 97u8), 110u8), 97u8), 108u8), 121u8), 116u8), 105u8), 99u8), 115u8), 95u8), 115u8), 110u8), 97u8), 112u8), 115u8), 104u8), 111u8), 116u8), 115u8), 95u8), 103u8), 101u8), 110u8), 101u8), 114u8), 97u8), 116u8), 101u8), 100u8), 95u8), 116u8), 111u8), 116u8), 97u8), 108u8), 255u8) == 0x59ed8f34e179a04du64) by (bit_vector);
}

proof fn lemma_id_anomaly_detections_total()
    ensures
        desc_id("aframp_analytics_anomaly_detections_total"@) == 0xc1d4998ecaa4f71au64,
{
    broadcast use vstd::string::group_string_axioms;

    reveal_strlit("aframp_analytics_anomaly_detections_total");
    assert(is_ascii("aframp_analytics_anomaly_detections_total"));
    assert("aframp_analytics_anomaly_detections_total".spec_bytes() == encode_utf8("aframp_analytics_anomaly_detections_total"@));
    assert(desc_id("aframp_analytics_anomaly_detections_total"@) == fnv_step(fnv_step(fnv_step(fnv_step(fnv_step(fnv_step(fnv_step(fnv_step(fnv_step(fnv_step(fnv_step(fnv_step(fnv_step(fnv_step(fnv_step(fnv_step(fnv_step(fnv_step(fnv_step(fnv_step(fnv_step(fnv_step(fnv_step(fnv_step(fnv_step(fnv_step(fnv_step(fnv_step(fnv_step(fnv_step(fnv_step(fnv_step(fnv_step(fnv_step(fnv_step(fnv_step(fnv_step(fnv_step(fnv_step(fnv_step(fnv_step(fnv_step(0xcbf29ce484222325u64, 97u8), 102u8), 114u8), 97u8), 109u8), 112u8), 95u8), 97u8), 110u8), 97u8), 108u8), 121u8), 116u8), 105u8), 99u8), 115u8), 95u8), 97u8), 110u8), 111u8), 109u8), 97u8), 108u8), 121u8), 95u8), 100u8), 101u8), 116u8), 101u8), 99u8), 116u8), 105u8), 111u8), 110u8), 115u8), 95u8), 116u8), 111u8), 116u8), 97u8), 108u8), 255u8)) by {
        reveal_with_fuel(fnv_from, 44);
    }
    assert(fnv_step(fnv_step(fnv_step(fnv_step(fnv_step(fnv_step(fnv_step(fnv_step(fnv_step(fnv_step(fnv_step(fnv_step(fnv_step(fnv_step(fnv_step(fnv_step(fnv_step(fnv_step(fnv_step(fnv_step(fnv_step(fnv_step(fnv_step(fnv_step(fnv_step(fnv_step(fnv_step(fnv_step(fnv_step(fnv_step(fnv_step(fnv_step(fnv_step(fnv_step(fnv_step(fnv_step(fnv_step(fnv_step(fnv_step(fnv_step(fnv_step(fnv_step(0xcbf29ce484222325u64, 97u8), 102u8), 114u8), 97u8), 109u8), 112u8), 95u8), 97u8), 110u8), 97u8), 108u8), 121u8), 116u8), 105u8), 99u8), 115u8), 95u8), 97u8), 110u8), 111u8), 109u8), 97u8), 108u8), 121u8), 95u8), 100u8), 101u8), 116u8), 101u8), 99u8), 116u8), 105u8), 111u8), 110u8), 115u8), 95u8), 116u8), 111u8), 116u8), 97u8), 108u8), 255u8) == 0xc1d4998ecaa4f71au64) by (bit_vector);
}

proof fn lemma_id_insight_deliveries_total()
    ensures
        desc_id("aframp_analytics_insight_deliveries_total"@) == 0xe0b5da89b56974ffu64,
{
    broadcast use vstd::string::group_string_axioms;

    reveal_strlit("aframp_analytics_insight_deliveries_total");
    assert(is_ascii("aframp_analytics_insight_deliveries_total"));
    assert("aframp_analytics_insight_deliveries_total".spec_bytes() == encode_utf8("aframp_analytics_insight_deliveries_total"@));
    assert(desc_id("aframp_analytics_insight_deliveries_total"@) == fnv_step(fnv_step(fnv_step(fnv_step(fnv_step(fnv_step(fnv_step(fnv_step(fnv_step(fnv_step(fnv_step(fnv_step(fnv_step(fnv_step(fnv_step(fnv_step(fnv_step(fnv_step(fnv_step(fnv_step(fnv_step(fnv_step(fnv_step(fnv_step(fnv_step(fnv_step(fnv_step(fnv_step(fnv_step(fnv_step(fnv_step(fnv_step(fnv_step(fnv_step(fnv_step(fnv_step(fnv_step(fnv_step(fnv_step(fnv_step(fnv_step(fnv_step(0xcbf29ce484222325u64, 97u8), 102u8), 114u8), 97u8), 109u8), 112u8), 95u8), 97u8), 110u8), 97u8), 108u8), 121u8), 116u8), 105u8), 99u8), 115u8), 95u8), 105u8), 110u8), 115u8), 105u8), 103u8), 104u8), 116u8), 95u8), 100u8), 101u8), 108u8), 105u8), 118u8), 101u8), 114u8), 105u8), 101u8), 115u8), 95u8), 116u8), 111u8), 116u8), 97u8), 108u8), 255u8)) by {
        reveal_with_fuel(fnv_from, 44);
    }
    assert(fnv_step(fnv_step(fnv_step(fnv_step(fnv_step(fnv_step(fnv_step(fnv_step(fnv_step(fnv_step(fnv_step(fnv_step(fnv_step(fnv_step(fnv_step(fnv_step(fnv_step(fnv_step(fnv_step(fnv_step(fnv_step(fnv_step(fnv_step(fnv_step(fnv_step(fnv_step(fnv_step(fnv_step(fnv_step(fnv_step(fnv_step(fnv_step(fnv_step(fnv_step(fnv_step(fnv_step(fnv_step(fnv_step(fnv_step(fnv_step(fnv_step(fnv_step(0xcbf29ce484222325u64, 97u8), 102u8), 114u8), 97u8), 109u8), 112u8), 95u8), 97u8), 110u8), 97u8), 108u8), 121u8), 116u8), 105u8), 99u8), 115u8), 95u8), 105u8), 110u8), 115u8), 105u8), 103u8), 104u8), 116u8), 95u8), 100u8), 101u8), 108u8), 105u8), 118u8), 101u8), 114u8), 105u8), 101u8), 115u8), 95u8), 116u8), 111u8), 116u8), 97u8), 108u8), 255u8) == 0xe0b5da89b56974ffu64) by (bit_vector);
}

proof fn lemma_id_analytics_cache_hits_total()
    ensures
        desc_id("aframp_analytics_cache_hits_total"@) == 0x2dad0bbc407a3eb7u64,
{
    broadcast use vstd::string::group_string_axioms;

    reveal_strlit("aframp_analytics_cache_hits_total");
    assert(is_ascii("aframp_analytics_cache_hits_total"));
    assert("aframp_analytics_cache_hits_total".spec_bytes() == encode_utf8("aframp_analytics_cache_hits_total"@));
    assert(desc_id("aframp_analytics_cache_hits_total"@) == fnv_step(fnv_step(fnv_step(fnv_step(fnv_step(fnv_step(fnv_step(fnv_step(fnv_step(fnv_step(fnv_step(fnv_step(fnv_step(fnv_step(fnv_step(fnv_step(fnv_step(fnv_step(fnv_step(fnv_step(fnv_step(fnv_step(fnv_step(fnv_step(fnv_step(fnv_step(fnv_step(fnv_step(fnv_step(fnv_step(fnv_step(fnv_step(fnv_step(fnv_step(0xcbf29ce484222325u64, 97u8), 102u8), 114u8), 97u8), 109u8), 112u8), 95u8), 97u8), 110u8), 97u8), 108u8), 121u8), 116u8), 105u8), 99u8), 115u8), 95u8), 99u8), 97u8), 99u8), 104u8), 101u8), 95u8), 104u8), 105u8), 116u8), 115u8), 95u8), 116u8), 111u8), 116u8), 97u8), 108u8), 255u8)) by {
        reveal_with_fuel(fnv_from, 36);
    }
    assert(fnv_step(fnv_step(fnv_step(fnv_step(fnv_step(fnv_step(fnv_step(fnv_step(fnv_step(fnv_step(fnv_step(fnv_step(fnv_step(fnv_step(fnv_step(fnv_step(fnv_step(fnv_step(fnv_step(fnv_step(fnv_step(fnv_step(fnv_step(fnv_step(fnv_step(fnv_step(fnv_step(fnv_step(fnv_step(fnv_step(fnv_step(fnv_step(fnv_step(fnv_step(0xcbf29ce484222325u64, 97u8), 102u8), 114u8), 97u8), 109u8), 112u8), 95u8), 97u8), 110u8), 97u8), 108u8), 121u8), 116u8), 105u8), 99u8), 115u8), 95u8), 99u8), 97u8), 99u8), 104u8), 101u8), 95u8), 104u8), 105u8), 116u8), 115u8), 95u8), 116u8), 111u8), 116u8), 97u8), 108u8), 255u8) == 0x2dad0bbc407a3eb7u64) by (bit_vector);
}

proof fn lemma_id_analytics_cache_misses_total()
    ensures
        desc_id("aframp_analytics_cache_misses_total"@) == 0xd55f924610fdcb79u64,
{
    broadcast use vstd::string::group_string_axioms;

    reveal_strlit("aframp_analytics_cache_misses_total");
    assert(is_ascii("aframp_analytics_cache_misses_total"));
    assert("aframp_analytics_cache_misses_total".spec_bytes() == encode_utf8("aframp_analytics_cache_misses_total"@));
    assert(desc_id("aframp_analytics_cache_misses_total"@) == fnv_step(fnv_step(fnv_step(fnv_step(fnv_step(fnv_step(fnv_step(fnv_step(fnv_step(fnv_step(fnv_step(fnv_step(fnv_step(fnv_step(fnv_step(fnv_step(fnv_step(fnv_step(fnv_step(fnv_step(fnv_step(fnv_step(fnv_step(fnv_step(fnv_step(fnv_step(fnv_step(fnv_step(fnv_step(fnv_step(fnv_step(fnv_step(fnv_step(fnv_step(fnv_step(fnv_step(0xcbf29ce484222325u64, 97u8), 102u8), 114u8), 97u8), 109u8), 112u8), 95u8), 97u8), 110u8), 97u8), 108u8), 121u8), 116u8), 105u8), 99u8), 115u8), 95u8), 99u8), 97u8), 99u8), 104u8), 101u8), 95u8), 109u8), 105u8), 115u8), 115u8), 101u8), 115u8), 95u8), 116u8), 111u8), 116u8), 97u8), 108u8), 255u8)) by {
        reveal_with_fuel(fnv_from, 38);
    }
    assert(fnv_step(fnv_step(fnv_step(fnv_step(fnv_step(fnv_step(fnv_step(fnv_step(fnv_step(fnv_step(fnv_step(fnv_step(fnv_step(fnv_step(fnv_step(fnv_step(fnv_step(fnv_step(fnv_step(fnv_step(fnv_step(fnv_step(fnv_step(fnv_step(fnv_step(fnv_step(fnv_step(fnv_step(fnv_step(fnv_step(fnv_step(fnv_step(fnv_step(fnv_step(fnv_step(fnv_step(0xcbf29ce484222325u64, 97u8), 102u8), 114u8), 97u8), 109u8), 112u8), 95u8), 97u8), 110u8), 97u8), 108u8), 121u8), 116u8), 105u8), 99u8), 115u8), 95u8), 99u8), 97u8), 99u8), 104u8), 101u8), 95u8), 109u8), 105u8), 115u8), 115u8), 101u8), 115u8), 95u8), 116u8), 111u8), 116u8), 97u8), 108u8), 255u8) == 0xd55f924610fdcb79u64) by (bit_vector);
}

proof fn lemma_id_active_wallet_count_gauge()
    ensures
        desc_id("aframp_analytics_active_wallet_count"@) == 0x55187d1541abb38du64,
{
    broadcast use vstd::string::group_string_axioms;

    reveal_strlit("aframp_analytics_active_wallet_count");
    assert(is_ascii("aframp_analytics_active_wallet_count"));
    assert("aframp_analytics_active_wallet_count".spec_bytes() == encode_utf8("aframp_analytics_active_wallet_count"@));
    assert(desc_id("aframp_analytics_active_wallet_count"@) == fnv_step(fnv_step(fnv_step(fnv_step(fnv_step(fnv_step(fnv_step(fnv_step(fnv_step(fnv_step(fnv_step(fnv_step(fnv_step(fnv_step(fnv_step(fnv_step(fnv_step(fnv_step(fnv_step(fnv_step(fnv_step(fnv_step(fnv_step(fnv_step(fnv_step(fnv_step(fnv_step(fnv_step(fnv_step(fnv_step(fnv_step(fnv_step(fnv_step(fnv_step(fnv_step(fnv_step(fnv_step(0xcbf29ce484222325u64, 97u8), 102u8), 114u8), 97u8), 109u8), 112u8), 95u8), 97u8), 110u8), 97u8), 108u8), 121u8), 116u8), 105u8), 99u8), 115u8), 95u8), 97u8), 99u8), 116u8), 105u8), 118u8), 101u8), 95u8), 119u8), 97u8), 108u8), 108u8), 101u8), 116u8), 95u8), 99u8), 111u8), 117u8), 110u8), 116u8), 255u8)) by {
        reveal_with_fuel(fnv_from, 39);
    }
    assert(fnv_step(fnv_step(fnv_step(fnv_step(fnv_step(fnv_step(fnv_step(fnv_step(fnv_step(fnv_step(fnv_step(fnv_step(fnv_step(fnv_step(fnv_step(fnv_step(fnv_step(fnv_step(fnv_step(fnv_step(fnv_step(fnv_step(fnv_step(fnv_step(fnv_step(fnv_step(fnv_step(fnv_step(fnv_step(fnv_step(fnv_step(fnv_step(fnv_step(fnv_step(fnv_step(fnv_step(fnv_step(0xcbf29ce484222325u64, 97u8), 102u8), 114u8), 97u8), 109u8), 112u8), 95u8), 97u8), 110u8), 97u8), 108u8), 121u8), 116u8), 105u8), 99u8), 115u8), 95u8), 97u8), 99u8), 116u8), 105u8), 118u8), 101u8), 95u8), 119u8), 97u8), 108u8), 108u8), 101u8), 116u8), 95u8), 99u8), 111u8), 117u8), 110u8), 116u8), 255u8) == 0x55187d1541abb38du64) by (bit_vector);
}

proof fn lemma_id_avg_wallet_risk_score_gauge()
    ensures
        desc_id("aframp_analytics_avg_wallet_risk_score"@) == 0xea5884b2986ad8beu64,
{
    broadcast use vstd::string::group_string_axioms;

    reveal_strlit("aframp_analytics_avg_wallet_risk_score");
    assert(is_ascii("aframp_analytics_avg_wallet_risk_score"));
    assert("aframp_analytics_avg_wallet_risk_score".spec_bytes() == encode_utf8("aframp_analytics_avg_wallet_risk_score"@));
    assert(desc_id("aframp_analytics_avg_wallet_risk_score"@) == fnv_step(fnv_step(fnv_step(fnv_step(fnv_step(fnv_step(fnv_step(fnv_step(fnv_step(fnv_step(fnv_step(fnv_step(fnv_step(fnv_step(fnv_step(fnv_step(fnv_step(fnv_step(fnv_step(fnv_step(fnv_step(fnv_step(fnv_step(fnv_step(fnv_step(fnv_step(fnv_step(fnv_step(fnv_step(fnv_step(fnv_step(fnv_step(fnv_step(fnv_step(fnv_step(fnv_step(fnv_step(fnv_step(fnv_step(0xcbf29ce484222325u64, 97u8), 102u8), 114u8), 97u8), 109u8), 112u8), 95u8), 97u8), 110u8), 97u8), 108u8), 121u8), 116u8), 105u8), 99u8), 115u8), 95u8), 97u8), 118u8), 103u8), 95u8), 119u8), 97u8), 108u8), 108u8), 101u8), 116u8), 95u8), 114u8), 105u8), 115u8), 107u8), 95u8), 115u8), 99u8), 111u8), 114u8), 101u8), 255u8)) by {
        reveal_with_fuel(fnv_from, 41);
    }
    assert(fnv_step(fnv_step(fnv_step(fnv_step(fnv_step(fnv_step(fnv_step(fnv_step(fnv_step(fnv_step(fnv_step(fnv_step(fnv_step(fnv_step(fnv_step(fnv_step(fnv_step(fnv_step(fnv_step(fnv_step(fnv_step(fnv_step(fnv_step(fnv_step(fnv_step(fnv_step(fnv_step(fnv_step(fnv_step(fnv_step(fnv_step(fnv_step(fnv_step(fnv_step(fnv_step(fnv_step(fnv_step(fnv_step(fnv_step(0xcbf29ce484222325u64, 97u8), 102u8), 114u8), 97u8), 109u8), 112u8), 95u8), 97u8), 110u8), 97u8), 108u8), 121u8), 116u8), 105u8), 99u8), 115u8), 95u8), 97u8), 118u8), 103u8), 95u8), 119u8), 97u8), 108u8), 108u8), 101u8), 116u8), 95u8), 114u8), 105u8), 115u8), 107u8), 95u8), 115u8), 99u8), 111u8), 114u8), 101u8), 255u8) == 0xea5884b2986ad8beu64) by (bit_vector);
}

proof fn lemma_id_anomaly_flagged_wallets_gauge()
    ensures
        desc_id("aframp_analytics_anomaly_flagged_wallets"@) == 0xb31f615723dd39ecu64,
{
    broadcast use vstd::string::group_string_axioms;

    reveal_strlit("aframp_analytics_anomaly_flagged_wallets");
    assert(is_ascii("aframp_analytics_anomaly_flagged_wallets"));
    assert("aframp_analytics_anomaly_flagged_wallets".spec_bytes() == encode_utf8("aframp_analytics_anomaly_flagged_wallets"@));
    assert(desc_id("aframp_analytics_anomaly_flagged_wallets"@) == fnv_step(fnv_step(fnv_step(fnv_step(fnv_step(fnv_step(fnv_step(fnv_step(fnv_step(fnv_step(fnv_step(fnv_step(fnv_step(fnv_step(fnv_step(fnv_step(fnv_step(fnv_step(fnv_step(fnv_step(fnv_step(fnv_step(fnv_step(fnv_step(fnv_step(fnv_step(fnv_step(fnv_step(fnv_step(fnv_step(fnv_step(fnv_step(fnv_step(fnv_step(fnv_step(fnv_step(fnv_step(fnv_step(fnv_step(fnv_step(fnv_step(0xcbf29ce484222325u64, 97u8), 102u8), 114u8), 97u8), 109u8), 112u8), 95u8), 97u8), 110u8), 97u8), 108u8), 121u8), 116u8), 105u8), 99u8), 115u8), 95u8), 97u8), 110u8), 111u8), 109u8), 97u8), 108u8), 121u8), 95u8), 102u8), 108u8), 97u8), 103u8), 103u8), 101u8), 100u8), 95u8), 119u8), 97u8), 108u8), 108u8), 101u8), 116u8), 115u8), 255u8)) by {
        reveal_with_fuel(fnv_from, 43);
    }
    assert(fnv_step(fnv_step(fnv_step(fnv_step(fnv_step(fnv_step(fnv_step(fnv_step(fnv_step(fnv_step(fnv_step(fnv_step(fnv_step(fnv_step(fnv_step(fnv_step(fnv_step(fnv_step(fnv_step(fnv_step(fnv_step(fnv_step(fnv_step(fnv_step(fnv_step(fnv_step(fnv_step(fnv_step(fnv_step(fnv_step(fnv_step(fnv_step(fnv_step(fnv_step(fnv_step(fnv_step(fnv_step(fnv_step(fnv_step(fnv_step(fnv_step(0xcbf29ce484222325u64, 97u8), 102u8), 114u8), 97u8), 109u8), 112u8), 95u8), 97u8), 110u8), 97u8), 108u8), 121u8), 116u8), 105u8), 99u8), 115u8), 95u8), 97u8), 110u8), 111u8), 109u8), 97u8), 108u8), 121u8), 95u8), 102u8), 108u8), 97u8), 103u8), 103u8), 101u8), 100u8), 95u8), 119u8), 97u8), 108u8), 108u8), 101u8), 116u8), 115u8), 255u8) == 0xb31f615723dd39ecu64) by (bit_vector);
}

/// The descriptor ids that Prometheus gives the metric names.
pub proof fn lemma_definitions_ids()
    ensures
        desc_id(definitions()[0].opts.name) == 0x59ed8f34e179a04du64,
        desc_id(definitions()[1].opts.name) == 0xc1d4998ecaa4f71au64,
        desc_id(definitions()[2].opts.name) == 0xe0b5da89b56974ffu64,
        desc_id(definitions()[3].opts.name) == 0x2dad0bbc407a3eb7u64,
        desc_id(definitions()[4].opts.name) == 0xd55f924610fdcb79u64,
        desc_id(definitions()[5].opts.name) == 0x55187d1541abb38du64,
        desc_id(definitions()[6].opts.name) == 0xea5884b2986ad8beu64,
        desc_id(definitions()[7].opts.name) == 0xb31f615723dd39ecu64,
        ids_fresh(definitions(), Set::empty()),
        forall|i: int|
            0 <= i < definitions().len() ==> ids().contains(
                desc_id(#[trigger] definitions()[i].opts.name),
            ),
{
    lemma_id_snapshots_generated_total();
    lemma_id_anomaly_detections_total();
    lemma_id_insight_deliveries_total();
    lemma_id_analytics_cache_hits_total();
    lemma_id_analytics_cache_misses_total();
    lemma_id_active_wallet_count_gauge();
    lemma_id_avg_wallet_risk_score_gauge();
    lemma_id_anomaly_flagged_wallets_gauge();
    let defs = definitions();
    assert(desc_id(defs[0].opts.name) == 0x59ed8f34e179a04du64);
    assert(ids().contains(desc_id(defs[0].opts.name)));
    assert(desc_id(defs[1].opts.name) == 0xc1d4998ecaa4f71au64);
    assert(ids().contains(desc_id(defs[1].opts.name)));
    assert(desc_id(defs[2].opts.name) == 0xe0b5da89b56974ffu64);
    assert(ids().contains(desc_id(defs[2].opts.name)));
    assert(desc_id(defs[3].opts.name) == 0x2dad0bbc407a3eb7u64);
    assert(ids().contains(desc_id(defs[3].opts.name)));
    assert(desc_id(defs[4].opts.name) == 0xd55f924610fdcb79u64);
    assert(ids().contains(desc_id(defs[4].opts.name)));
    assert(desc_id(defs[5].opts.name) == 0x55187d1541abb38du64);
    assert(ids().contains(desc_id(defs[5].opts.name)));
    assert(desc_id(defs[6].opts.name) == 0xea5884b2986ad8beu64);
    assert(ids().contains(desc_id(defs[6].opts.name)));
    assert(desc_id(defs[7].opts.name) == 0xb31f615723dd39ecu64);
    assert(ids().contains(desc_id(defs[7].opts.name)));
}

/// The descriptor ids of the metric names, as a set.
pub open spec fn ids() -> Set<u64> {
    set![0x59ed8f34e179a04du64, 0xc1d4998ecaa4f71au64, 0xe0b5da89b56974ffu64, 0x2dad0bbc407a3eb7u64, 0xd55f924610fdcb79u64, 0x55187d1541abb38du64, 0xea5884b2986ad8beu64, 0xb31f615723dd39ecu64]
}

impl AnalyticsMetrics {
    /// The vectors, in the order of their definitions.
    pub closed spec fn families(self) -> Seq<Family> {
        seq![
            Family::Counter(self.snapshots_generated_total),
            Family::Counter(self.anomaly_detections_total),
            Family::Counter(self.insight_deliveries_total),
            Family::Counter(self.analytics_cache_hits_total),
            Family::Counter(self.analytics_cache_misses_total),
            Family::Gauge(self.active_wallet_count_gauge),
            Family::Gauge(self.avg_wallet_risk_score_gauge),
            Family::Gauge(self.anomaly_flagged_wallets_gauge),
        ]
    }

    /// Each vector was created from its definition.
    #[verifier::type_invariant]
    spec fn made_from_definitions(self) -> bool {
        defs_of(self.families()) == definitions()
    }
}

/// Creates the analytics metrics and registers them in `registry`, in order.
/// Hands back the vectors that were registered, each found under its name.
pub fn register(registry: &mut MetricsRegistry) -> (metrics: AnalyticsMetrics)
    requires
        ids_fresh(definitions(), old(registry).metrics().dom()),
    ensures
        final(registry).metrics() == extend(old(registry).metrics(), metrics.families()),
        defs_of(metrics.families()) == definitions(),
        forall|i: int|
            0 <= i < metrics.families().len() ==> final(registry).metrics()[(
            #[trigger] metrics.families()[i]).name()] == metrics.families()[i],
{
    let ghost before = registry.metrics();
    let table = table();
    proof {
        lemma_definitions_well_formed();
    }
    assert forall|i: int| 0 <= i < table.len() implies accepts_opts((#[trigger] table[i]@).opts)
        && (table[i]@.kind != MetricKind::Histogram ==> table[i]@.buckets.len() == 0) by {
        assert(definition_views(table@)[i] == table@[i]@);
        assert(definitions()[i].follows_conventions());
    }
    let mut families = register_definitions(registry, &table);
    let ghost registered = families@;
    assert(registered.len() == 8) by {
        assert(defs_of(registered).len() == registered.len());
    }
    assert forall|i: int| 0 <= i < 8 implies #[trigger] registered[i].describes(definitions()[i]) by {
        assert(defs_of(registered)[i] == registered[i].def());
    }
    assert(families@.last() == registered[7]);
    let anomaly_flagged_wallets_gauge = pop_gauge(&mut families);
    assert(families@.last() == registered[6]);
    let avg_wallet_risk_score_gauge = pop_gauge(&mut families);
    assert(families@.last() == registered[5]);
    let active_wallet_count_gauge = pop_gauge(&mut families);
    assert(families@.last() == registered[4]);
    let analytics_cache_misses_total = pop_counter(&mut families);
    assert(families@.last() == registered[3]);
    let analytics_cache_hits_total = pop_counter(&mut families);
    assert(families@.last() == registered[2]);
    let insight_deliveries_total = pop_counter(&mut families);
    assert(families@.last() == registered[1]);
    let anomaly_detections_total = pop_counter(&mut families);
    assert(families@.last() == registered[0]);
    let snapshots_generated_total = pop_counter(&mut families);
    assert(seq![Family::Counter(snapshots_generated_total), Family::Counter(anomaly_detections_total), Family::Counter(insight_deliveries_total), Family::Counter(analytics_cache_hits_total), Family::Counter(analytics_cache_misses_total), Family::Gauge(active_wallet_count_gauge), Family::Gauge(avg_wallet_risk_score_gauge), Family::Gauge(anomaly_flagged_wallets_gauge)] =~= registered);
    let metrics = AnalyticsMetrics { snapshots_generated_total, anomaly_detections_total, insight_deliveries_total, analytics_cache_hits_total, analytics_cache_misses_total, active_wallet_count_gauge, avg_wallet_risk_score_gauge, anomaly_flagged_wallets_gauge };
    assert(metrics.families() =~= registered);
    proof {
        assert forall|i: int, j: int| 0 <= i < j < registered.len() implies (#[trigger] registered[i]).name()
            != (#[trigger] registered[j]).name() by {
            assert(defs_of(registered)[i] == registered[i].def());
            assert(defs_of(registered)[j] == registered[j].def());
        }
        law_registered_found_by_name(before, registered);
    }
    metrics
}

/// The vector `aframp_analytics_snapshots_generated_total`, as registered.
pub fn snapshots_generated_total(metrics: &AnalyticsMetrics) -> (family: &CounterFamily)
    ensures
        Family::Counter(*family) == metrics.families()[0],
        Family::Counter(*family).describes(definitions()[0]),
        defs_of(metrics.families()) == definitions(),
{
    proof {
        use_type_invariant(metrics);
        assert(defs_of(metrics.families())[0] == metrics.families()[0].def());
    }
    &metrics.snapshots_generated_total
}

/// The vector `aframp_analytics_anomaly_detections_total`, as registered.
pub fn anomaly_detections_total(metrics: &AnalyticsMetrics) -> (family: &CounterFamily)
    ensures
        Family::Counter(*family) == metrics.families()[1],
        Family::Counter(*family).describes(definitions()[1]),
        defs_of(metrics.families()) == definitions(),
{
    proof {
        use_type_invariant(metrics);
        assert(defs_of(metrics.families())[1] == metrics.families()[1].def());
    }
    &metrics.anomaly_detections_total
}

/// The vector `aframp_analytics_insight_deliveries_total`, as registered.
pub fn insight_deliveries_total(metrics: &AnalyticsMetrics) -> (family: &CounterFamily)
    ensures
        Family::Counter(*family) == metrics.families()[2],
        Family::Counter(*family).describes(definitions()[2]),
        defs_of(metrics.families()) == definitions(),
{
    proof {
        use_type_invariant(metrics);
        assert(defs_of(metrics.families())[2] == metrics.families()[2].def());
    }
    &metrics.insight_deliveries_total
}

/// The vector `aframp_analytics_cache_hits_total`, as registered.
pub fn analytics_cache_hits_total(metrics: &AnalyticsMetrics) -> (family: &CounterFamily)
    ensures
        Family::Counter(*family) == metrics.families()[3],
        Family::Counter(*family).describes(definitions()[3]),
        defs_of(metrics.families()) == definitions(),
{
    proof {
        use_type_invariant(metrics);
        assert(defs_of(metrics.families())[3] == metrics.families()[3].def());
    }
    &metrics.analytics_cache_hits_total
}

/// The vector `aframp_analytics_cache_misses_total`, as registered.
pub fn analytics_cache_misses_total(metrics: &AnalyticsMetrics) -> (family: &CounterFamily)
    ensures
        Family::Counter(*family) == metrics.families()[4],
        Family::Counter(*family).describes(definitions()[4]),
        defs_of(metrics.families()) == definitions(),
{
    proof {
        use_type_invariant(metrics);
        assert(defs_of(metrics.families())[4] == metrics.families()[4].def());
    }
    &metrics.analytics_cache_misses_total
}

/// The vector `aframp_analytics_active_wallet_count`, as registered.
pub fn active_wallet_count_gauge(metrics: &AnalyticsMetrics) -> (family: &GaugeFamily)
    ensures
        Family::Gauge(*family) == metrics.families()[5],
        Family::Gauge(*family).describes(definitions()[5]),
        defs_of(metrics.families()) == definitions(),
{
    proof {
        use_type_invariant(metrics);
        assert(defs_of(metrics.families())[5] == metrics.families()[5].def());
    }
    &metrics.active_wallet_count_gauge
}

/// The vector `aframp_analytics_avg_wallet_risk_score`, as registered.
pub fn avg_wallet_risk_score_gauge(metrics: &AnalyticsMetrics) -> (family: &GaugeFamily)
    ensures
        Family::Gauge(*family) == metrics.families()[6],
        Family::Gauge(*family).describes(definitions()[6]),
        defs_of(metrics.families()) == definitions(),
{
    proof {
        use_type_invariant(metrics);
        assert(defs_of(metrics.families())[6] == metrics.families()[6].def());
    }
    &metrics.avg_wallet_risk_score_gauge
}

/// The vector `aframp_analytics_anomaly_flagged_wallets`, as registered.
pub fn anomaly_flagged_wallets_gauge(metrics: &AnalyticsMetrics) -> (family: &GaugeFamily)
    ensures
        Family::Gauge(*family) == metrics.families()[7],
        Family::Gauge(*family).describes(definitions()[7]),
        defs_of(metrics.families()) == definitions(),
{
    proof {
        use_type_invariant(metrics);
        assert(defs_of(metrics.families())[7] == metrics.families()[7].def());
    }
    &metrics.anomaly_flagged_wallets_gauge
}

/// The counter and the label values that `snapshot_generated` increments: the snapshots
/// counter, under the period. The wallet takes no part.
pub fn snapshot_series<'a>(metrics: &'a AnalyticsMetrics, period: &'a str) -> (series: (
    &'a CounterFamily,
    Vec<&'a str>,
))
    ensures
        Family::Counter(*series.0) == metrics.families()[0],
        Family::Counter(*series.0).describes(definitions()[0]),
        series.1@ == seq![period],
{
    (snapshots_generated_total(metrics), vec![period])
}

/// The counter and the label values that `anomaly_detected` increments: the anomaly
/// detections counter, under the anomaly type.
pub fn anomaly_series<'a>(metrics: &'a AnalyticsMetrics, anomaly_type: &'a str) -> (series: (
    &'a CounterFamily,
    Vec<&'a str>,
))
    ensures
        Family::Counter(*series.0) == metrics.families()[1],
        Family::Counter(*series.0).describes(definitions()[1]),
        series.1@ == seq![anomaly_type],
{
    (anomaly_detections_total(metrics), vec![anomaly_type])
}

/// The counter and the label values that `insight_delivered` increments: the insight
/// deliveries counter, under the period.
pub fn insight_series<'a>(metrics: &'a AnalyticsMetrics, period: &'a str) -> (series: (
    &'a CounterFamily,
    Vec<&'a str>,
))
    ensures
        Family::Counter(*series.0) == metrics.families()[2],
        Family::Counter(*series.0).describes(definitions()[2]),
        series.1@ == seq![period],
{
    (insight_deliveries_total(metrics), vec![period])
}

/// The counter and the label values that `cache_hit` increments: the analytics cache
/// hits counter, under the endpoint.
pub fn cache_hit_series<'a>(metrics: &'a AnalyticsMetrics, endpoint: &'a str) -> (series: (
    &'a CounterFamily,
    Vec<&'a str>,
))
    ensures
        Family::Counter(*series.0) == metrics.families()[3],
        Family::Counter(*series.0).describes(definitions()[3]),
        series.1@ == seq![endpoint],
{
    (analytics_cache_hits_total(metrics), vec![endpoint])
}

/// The counter and the label values that `cache_miss` increments: the analytics cache
/// misses counter, under the endpoint.
pub fn cache_miss_series<'a>(metrics: &'a AnalyticsMetrics, endpoint: &'a str) -> (series: (
    &'a CounterFamily,
    Vec<&'a str>,
))
    ensures
        Family::Counter(*series.0) == metrics.families()[4],
        Family::Counter(*series.0).describes(definitions()[4]),
        series.1@ == seq![endpoint],
{
    (analytics_cache_misses_total(metrics), vec![endpoint])
}

/// The gauge and the label values that `active_wallet_count` sets: the active wallets
/// gauge, in the tier `all`.
pub fn active_wallet_count_series(metrics: &AnalyticsMetrics) -> (series: (
    &GaugeFamily,
    Vec<&'static str>,
))
    ensures
        Family::Gauge(*series.0) == metrics.families()[5],
        Family::Gauge(*series.0).describes(definitions()[5]),
        series.1@ == seq!["all"],
{
    (active_wallet_count_gauge(metrics), vec!["all"])
}

/// The gauge and the label values that `avg_risk_score` sets: the average risk score
/// gauge, in the scope `all`.
pub fn avg_risk_score_series(metrics: &AnalyticsMetrics) -> (series: (
    &GaugeFamily,
    Vec<&'static str>,
))
    ensures
        Family::Gauge(*series.0) == metrics.families()[6],
        Family::Gauge(*series.0).describes(definitions()[6]),
        series.1@ == seq!["all"],
{
    (avg_wallet_risk_score_gauge(metrics), vec!["all"])
}

/// The gauge and the label values that `anomaly_flagged_wallets` sets: the flagged
/// wallets gauge, under the status `open`.
pub fn anomaly_flagged_wallets_series(metrics: &AnalyticsMetrics) -> (series: (
    &GaugeFamily,
    Vec<&'static str>,
))
    ensures
        Family::Gauge(*series.0) == metrics.families()[7],
        Family::Gauge(*series.0).describes(definitions()[7]),
        series.1@ == seq!["open"],
{
    (anomaly_flagged_wallets_gauge(metrics), vec!["open"])
}

/// Counts one generated snapshot, in the series that `snapshot_series` selects, if the
/// analytics metrics have been registered. Hands back the record of the increment.
pub fn snapshot_generated(metrics: Option<&AnalyticsMetrics>, wallet: &str, period: &str) -> (counted:
    Option<Increment>)
    ensures
        counted is Some <==> metrics is Some,
        counted matches Some(c) ==> c.family() == metrics->0.families()[0] && c.labels()
            == seq![period@],
{
    match metrics {
        Some(m) => {
            let (counter, labels) = snapshot_series(m, period);
            let counted = counter_family_inc(counter, labels.as_slice());
            proof {
                assert(label_views(labels@) =~= seq![period@]);
            }
            Some(counted)
        },
        None => None,
    }
}

/// Counts one detected anomaly, in the series that `anomaly_series` selects, if the
/// analytics metrics have been registered. Hands back the record of the increment.
pub fn anomaly_detected(metrics: Option<&AnalyticsMetrics>, anomaly_type: &str) -> (counted:
    Option<Increment>)
    ensures
        counted is Some <==> metrics is Some,
        counted matches Some(c) ==> c.family() == metrics->0.families()[1] && c.labels()
            == seq![anomaly_type@],
{
    match metrics {
        Some(m) => {
            let (counter, labels) = anomaly_series(m, anomaly_type);
            let counted = counter_family_inc(counter, labels.as_slice());
            proof {
                assert(label_views(labels@) =~= seq![anomaly_type@]);
            }
            Some(counted)
        },
        None => None,
    }
}

/// Counts one delivered insight, in the series that `insight_series` selects, if the
/// analytics metrics have been registered. Hands back the record of the increment.
pub fn insight_delivered(metrics: Option<&AnalyticsMetrics>, period: &str) -> (counted:
    Option<Increment>)
    ensures
        counted is Some <==> metrics is Some,
        counted matches Some(c) ==> c.family() == metrics->0.families()[2] && c.labels()
            == seq![period@],
{
    match metrics {
        Some(m) => {
            let (counter, labels) = insight_series(m, period);
            let counted = counter_family_inc(counter, labels.as_slice());
            proof {
                assert(label_views(labels@) =~= seq![period@]);
            }
            Some(counted)
        },
        None => None,
    }
}

/// Counts one analytics cache hit, in the series that `cache_hit_series` selects, if
/// the analytics metrics have been registered. Hands back the record of the increment.
pub fn cache_hit(metrics: Option<&AnalyticsMetrics>, endpoint: &str) -> (counted:
    Option<Increment>)
    ensures
        counted is Some <==> metrics is Some,
        counted matches Some(c) ==> c.family() == metrics->0.families()[3] && c.labels()
            == seq![endpoint@],
{
    match metrics {
        Some(m) => {
            let (counter, labels) = cache_hit_series(m, endpoint);
            let counted = counter_family_inc(counter, labels.as_slice());
            proof {
                assert(label_views(labels@) =~= seq![endpoint@]);
            }
            Some(counted)
        },
        None => None,
    }
}

/// Counts one analytics cache miss, in the series that `cache_miss_series` selects, if
/// the analytics metrics have been registered. Hands back the record of the increment.
pub fn cache_miss(metrics: Option<&AnalyticsMetrics>, endpoint: &str) -> (counted:
    Option<Increment>)
    ensures
        counted is Some <==> metrics is Some,
        counted matches Some(c) ==> c.family() == metrics->0.families()[4] && c.labels()
            == seq![endpoint@],
{
    match metrics {
        Some(m) => {
            let (counter, labels) = cache_miss_series(m, endpoint);
            let counted = counter_family_inc(counter, labels.as_slice());
            proof {
                assert(label_views(labels@) =~= seq![endpoint@]);
            }
            Some(counted)
        },
        None => None,
    }
}

} // verus!
