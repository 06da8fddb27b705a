use aframp_metrics::analytics;
use aframp_metrics::cache;
use aframp_metrics::cngn;
use aframp_metrics::database;
use aframp_metrics::definition::{Definition, MetricKind};
use aframp_metrics::error::MetricsError;
use aframp_metrics::exposition::{exposition_text, render};
use aframp_metrics::http;
use aframp_metrics::keys::key_prefix;
use aframp_metrics::payment;
use aframp_metrics::registration::{register_definitions, Family};
use aframp_metrics::registry::{empty_registry, register_all, registry};
use aframp_metrics::stellar;
use aframp_metrics::worker;

fn all_names() -> Vec<&'static str> {
    let mut names = Vec::new();
    for table in [
        http::table(),
        cngn::table(),
        payment::table(),
        stellar::table(),
        worker::table(),
        cache::table(),
        database::table(),
        analytics::table(),
    ] {
        for def in table {
            names.push(def.name);
        }
    }
    names
}

#[test]
fn key_prefix_takes_segment_before_first_colon() {
    assert_eq!(key_prefix("user:123"), "user");
    assert_eq!(key_prefix("session:abc:def"), "session");
    assert_eq!(key_prefix("a::b"), "a");
}

#[test]
fn key_prefix_without_colon_is_whole_key() {
    assert_eq!(key_prefix("nocolon"), "nocolon");
    assert_eq!(key_prefix(""), "");
}

#[test]
fn key_prefix_edge_cases() {
    assert_eq!(key_prefix(":leading"), "");
    assert_eq!(key_prefix("trailing:"), "trailing");
    assert_eq!(key_prefix("ключ:значение"), "ключ");
}

#[test]
fn key_prefix_is_idempotent() {
    for key in ["rate:limit:1", "plain", ":x", "wallet:0xabc"] {
        let p = key_prefix(key);
        assert_eq!(key_prefix(p), p);
    }
}

#[test]
fn catalog_has_thirty_unique_namespaced_names() {
    let names = all_names();
    assert_eq!(names.len(), 30);
    for (i, a) in names.iter().enumerate() {
        assert!(a.starts_with("aframp_"));
        assert!(a.chars().all(|c| c.is_ascii_lowercase() || c.is_ascii_digit() || c == '_'));
        for b in names.iter().skip(i + 1) {
            assert_ne!(a, b);
        }
    }
}

#[test]
fn counters_end_in_total() {
    for table in [http::table(), worker::table(), analytics::table(), database::table()] {
        for def in table {
            if def.kind == aframp_metrics::definition::MetricKind::Counter {
                assert!(def.name.ends_with("_total"));
            }
        }
    }
}

#[test]
fn histogram_buckets_increase() {
    for table in [http::table(), cngn::table(), payment::table(), stellar::table(), worker::table(), cache::table(), database::table()] {
        for def in table {
            if def.kind == aframp_metrics::definition::MetricKind::Histogram {
                assert!(!def.buckets.is_empty());
                assert!(def.buckets.windows(2).all(|w| w[0] < w[1]));
            } else {
                assert!(def.buckets.is_empty());
            }
        }
    }
}

#[test]
fn registry_registers_every_metric() {
    let (_registry, metrics) = registry();
    assert_eq!(http::requests_total(&metrics.http).vec.with_label_values(&["GET", "/", "200"]).get(), 0.0);
}

#[test]
fn render_of_untouched_registry_is_empty() {
    let (registry, _metrics) = registry();
    assert_eq!(render(&registry), "");
}

#[test]
fn snapshot_generated_counts_by_period() {
    let (registry, metrics) = registry();
    analytics::snapshot_generated(Some(&metrics.analytics), "wallet-1", "daily");
    analytics::snapshot_generated(Some(&metrics.analytics), "wallet-2", "daily");
    let text = render(&registry);
    assert!(text.contains("aframp_analytics_snapshots_generated_total{period=\"daily\"} 2"));
    assert!(!text.contains("wallet-1"));
}

#[test]
fn analytics_helpers_use_their_counters() {
    let (registry, metrics) = registry();
    let m = Some(&metrics.analytics);
    assert!(analytics::anomaly_detected(m, "spike").is_some());
    assert!(analytics::insight_delivered(m, "weekly").is_some());
    assert!(analytics::cache_hit(m, "/analytics/summary").is_some());
    analytics::cache_miss(m, "/analytics/summary");
    analytics::cache_miss(m, "/analytics/summary");
    let text = render(&registry);
    assert!(text.contains("aframp_analytics_anomaly_detections_total{anomaly_type=\"spike\"} 1"));
    assert!(text.contains("aframp_analytics_insight_deliveries_total{period=\"weekly\"} 1"));
    assert!(text.contains("aframp_analytics_cache_hits_total{endpoint=\"/analytics/summary\"} 1"));
    assert!(text.contains("aframp_analytics_cache_misses_total{endpoint=\"/analytics/summary\"} 2"));
}

#[test]
fn analytics_helpers_without_metrics_do_nothing() {
    let (registry, _metrics) = registry();
    assert!(analytics::snapshot_generated(None, "wallet", "daily").is_none());
    assert!(analytics::anomaly_detected(None, "spike").is_none());
    assert!(analytics::insight_delivered(None, "weekly").is_none());
    assert!(analytics::cache_hit(None, "/a").is_none());
    assert!(analytics::cache_miss(None, "/a").is_none());
    assert_eq!(render(&registry), "");
}

#[test]
fn histogram_buckets_are_the_decimal_bounds() {
    let (registry, metrics) = registry();
    http::request_duration_seconds(&metrics.http).vec.with_label_values(&["GET", "/"]).observe(0.003);
    cache::operation_duration_seconds(&metrics.cache).vec.with_label_values(&["get"]).observe(0.0002);
    cngn::transaction_volume(&metrics.cngn).vec.with_label_values(&["mint"]).observe(250.0);
    let text = render(&registry);
    assert!(text.contains("aframp_http_request_duration_seconds_bucket{method=\"GET\",route=\"/\",le=\"0.005\"} 1"));
    assert!(text.contains("aframp_http_request_duration_seconds_bucket{method=\"GET\",route=\"/\",le=\"10\"} 1"));
    assert!(text.contains("aframp_cache_operation_duration_seconds_bucket{operation=\"get\",le=\"0.0001\"} 0"));
    assert!(text.contains("aframp_cache_operation_duration_seconds_bucket{operation=\"get\",le=\"0.0005\"} 1"));
    assert!(text.contains("aframp_cngn_transaction_volume_ngn_bucket{tx_type=\"mint\",le=\"100\"} 0"));
    assert!(text.contains("aframp_cngn_transaction_volume_ngn_bucket{tx_type=\"mint\",le=\"500\"} 1"));
    assert!(text.contains("aframp_cngn_transaction_volume_ngn_bucket{tx_type=\"mint\",le=\"1000000\"} 1"));
}

#[test]
fn stellar_submission_histogram_has_no_labels() {
    let (registry, metrics) = registry();
    stellar::tx_submission_duration_seconds(&metrics.stellar).vec.with_label_values(&[]).observe(0.7);
    let text = render(&registry);
    assert!(text.contains("aframp_stellar_tx_submission_duration_seconds_bucket{le=\"1\"} 1"));
    assert!(text.contains("aframp_stellar_tx_submission_duration_seconds_bucket{le=\"0.5\"} 0"));
}

#[test]
fn register_all_fills_an_empty_registry() {
    let mut registry = empty_registry();
    let metrics = register_all(&mut registry);
    http::requests_total(&metrics.http).vec.with_label_values(&["GET", "/", "200"]).inc();
    let text = render(&registry);
    assert!(text.contains("aframp_http_requests_total{method=\"GET\",route=\"/\",status_code=\"200\"} 1"));
}

#[test]
fn analytics_series_select_counter_and_labels() {
    let (_registry, metrics) = registry();
    let (counter, labels) = analytics::snapshot_series(&metrics.analytics, "daily");
    assert_eq!(labels, vec!["daily"]);
    counter.vec.with_label_values(&labels).inc();
    assert_eq!(analytics::snapshots_generated_total(&metrics.analytics).vec.with_label_values(&["daily"]).get(), 1.0);
    let (_, labels) = analytics::anomaly_series(&metrics.analytics, "spike");
    assert_eq!(labels, vec!["spike"]);
    let (_, labels) = analytics::insight_series(&metrics.analytics, "weekly");
    assert_eq!(labels, vec!["weekly"]);
    let (_, labels) = analytics::cache_hit_series(&metrics.analytics, "/a");
    assert_eq!(labels, vec!["/a"]);
    let (_, labels) = analytics::cache_miss_series(&metrics.analytics, "/b");
    assert_eq!(labels, vec!["/b"]);
}

#[test]
fn module_registration_yields_named_vectors() {
    let mut registry = empty_registry();
    let w = worker::register(&mut registry);
    worker::cycles_total(&w).vec.with_label_values(&["settlement"]).inc();
    worker::records_processed(&w).vec.with_label_values(&["settlement"]).set(12.0);
    worker::errors_total(&w).vec.with_label_values(&["settlement", "timeout"]).inc();
    let d = database::register(&mut registry);
    database::connections_active(&d).vec.with_label_values(&["main"]).set(3.0);
    database::errors_total(&d).vec.with_label_values(&["deadlock"]).inc();
    let text = render(&registry);
    assert!(text.contains("aframp_worker_cycles_total{worker=\"settlement\"} 1"));
    assert!(text.contains("aframp_worker_records_processed{worker=\"settlement\"} 12"));
    assert!(text.contains("aframp_worker_errors_total{error_type=\"timeout\",worker=\"settlement\"} 1")
        || text.contains("aframp_worker_errors_total{worker=\"settlement\",error_type=\"timeout\"} 1"));
    assert!(text.contains("aframp_db_connections_active{pool=\"main\"} 3"));
    assert!(text.contains("aframp_db_errors_total{error_type=\"deadlock\"} 1"));
    assert!(text.contains("# HELP aframp_db_connections_active Active database connections in the pool"));
    assert!(text.contains("# TYPE aframp_worker_cycle_duration_seconds histogram") == false);
}

#[test]
fn exposition_text_decodes_utf8() {
    assert_eq!(exposition_text(b"a 1\n".to_vec()).unwrap(), "a 1\n");
    assert_eq!(exposition_text("é".as_bytes().to_vec()).unwrap(), "é");
    assert!(matches!(exposition_text(vec![0xff, 0x00]), Err(MetricsError::NotUtf8)));
    assert_eq!(exposition_text(Vec::new()).unwrap(), "");
}

#[test]
fn getters_return_their_vectors() {
    let (registry, m) = registry();
    http::requests_in_flight(&m.http).vec.with_label_values(&["/"]).set(2.0);
    cngn::transactions_total(&m.cngn).vec.with_label_values(&["mint", "ok"]).inc();
    cngn::transaction_duration_seconds(&m.cngn).vec.with_label_values(&["mint"]).observe(20.0);
    payment::provider_request_duration_seconds(&m.payment).vec.with_label_values(&["p", "pay"]).observe(0.2);
    payment::provider_failures_total(&m.payment).vec.with_label_values(&["p", "timeout"]).inc();
    stellar::tx_submissions_total(&m.stellar).vec.with_label_values(&["ok"]).inc();
    stellar::trustline_attempts_total(&m.stellar).vec.with_label_values(&["ok"]).inc();
    worker::cycle_duration_seconds(&m.worker).vec.with_label_values(&["w"]).observe(1.0);
    cache::hits_total(&m.cache).vec.with_label_values(&["user"]).inc();
    cache::misses_total(&m.cache).vec.with_label_values(&["user"]).inc();
    database::query_duration_seconds(&m.database).vec.with_label_values(&["select", "users"]).observe(0.02);
    analytics::active_wallet_count_gauge(&m.analytics).vec.with_label_values(&["all"]).set(5.0);
    analytics::avg_wallet_risk_score_gauge(&m.analytics).vec.with_label_values(&["all"]).set(0.5);
    analytics::anomaly_flagged_wallets_gauge(&m.analytics).vec.with_label_values(&["open"]).set(1.0);
    let text = render(&registry);
    for name in [
        "aframp_http_requests_in_flight{route=\"/\"} 2",
        "aframp_cngn_transactions_total{status=\"ok\",tx_type=\"mint\"} 1",
        "aframp_cngn_transaction_duration_seconds_bucket{tx_type=\"mint\",le=\"30\"} 1",
        "aframp_payment_provider_request_duration_seconds_count",
        "aframp_payment_provider_failures_total",
        "aframp_stellar_tx_submissions_total{status=\"ok\"} 1",
        "aframp_stellar_trustline_attempts_total{status=\"ok\"} 1",
        "aframp_worker_cycle_duration_seconds_sum",
        "aframp_cache_hits_total{key_prefix=\"user\"} 1",
        "aframp_cache_misses_total{key_prefix=\"user\"} 1",
        "aframp_db_query_duration_seconds_count",
        "aframp_analytics_active_wallet_count{tier=\"all\"} 5",
        "aframp_analytics_avg_wallet_risk_score{scope=\"all\"} 0.5",
        "aframp_analytics_anomaly_flagged_wallets{status=\"open\"} 1",
    ] {
        assert!(text.contains(name) || (name.contains("status=\"ok\",tx_type") && text.contains("aframp_cngn_transactions_total{tx_type=\"mint\",status=\"ok\"} 1")), "missing {}", name);
    }
}

#[test]
fn analytics_gauge_series_select_gauge_and_labels() {
    let (registry, metrics) = registry();
    let (gauge, labels) = analytics::active_wallet_count_series(&metrics.analytics);
    assert_eq!(labels, vec!["all"]);
    gauge.vec.with_label_values(&labels).set(7.0);
    let (gauge, labels) = analytics::avg_risk_score_series(&metrics.analytics);
    assert_eq!(labels, vec!["all"]);
    gauge.vec.with_label_values(&labels).set(0.25);
    let (gauge, labels) = analytics::anomaly_flagged_wallets_series(&metrics.analytics);
    assert_eq!(labels, vec!["open"]);
    gauge.vec.with_label_values(&labels).set(3.0);
    let text = render(&registry);
    assert!(text.contains("aframp_analytics_active_wallet_count{tier=\"all\"} 7"));
    assert!(text.contains("aframp_analytics_avg_wallet_risk_score{scope=\"all\"} 0.25"));
    assert!(text.contains("aframp_analytics_anomaly_flagged_wallets{status=\"open\"} 3"));
}

#[test]
fn render_writes_help_type_and_sample_lines_of_registered_metrics() {
    let (registry, metrics) = registry();
    cache::hits_total(&metrics.cache).vec.with_label_values(&["user"]).inc();
    http::request_duration_seconds(&metrics.http).vec.with_label_values(&["GET", "/"]).observe(0.2);
    let text = render(&registry);
    assert!(text.ends_with('\n'));
    let lines: Vec<&str> = text.lines().collect();
    assert_eq!(lines[0], "# HELP aframp_cache_hits_total Total Redis cache hits by key prefix");
    assert_eq!(lines[1], "# TYPE aframp_cache_hits_total counter");
    assert_eq!(lines[2], "aframp_cache_hits_total{key_prefix=\"user\"} 1");
    assert_eq!(lines[3], "# HELP aframp_http_request_duration_seconds HTTP request duration in seconds");
    assert_eq!(lines[4], "# TYPE aframp_http_request_duration_seconds histogram");
    for line in &lines[5..] {
        assert!(line.starts_with("aframp_http_request_duration_seconds_bucket{")
            || line.starts_with("aframp_http_request_duration_seconds_sum{")
            || line.starts_with("aframp_http_request_duration_seconds_count{"));
    }
}

#[test]
fn register_all_keeps_what_the_registry_held() {
    let mut registry = empty_registry();
    let table = vec![Definition {
        kind: MetricKind::Counter,
        name: "custom_jobs_total",
        help: "Custom jobs",
        labels: vec!["queue"],
        buckets: vec![],
    }];
    let families = register_definitions(&mut registry, &table);
    assert_eq!(families.len(), 1);
    let metrics = register_all(&mut registry);
    match &families[0] {
        Family::Counter(c) => c.vec.with_label_values(&["mail"]).inc(),
        _ => panic!("expected a counter"),
    }
    http::requests_total(&metrics.http).vec.with_label_values(&["GET", "/", "200"]).inc();
    let text = render(&registry);
    assert!(text.contains("custom_jobs_total{queue=\"mail\"} 1"));
    assert!(text.contains("aframp_http_requests_total{method=\"GET\",route=\"/\",status_code=\"200\"} 1"));
}
