use pg_extensions::eligibility::OHIValidations;
use pg_extensions::extensions::{ExtensionInfo, ExtensionSnapshot};

fn snapshot_of(entries: &[(&str, &str, bool)]) -> ExtensionSnapshot {
    let mut s = ExtensionSnapshot::new();
    for (name, version, enabled) in entries {
        s.insert(ExtensionInfo {
            name: (*name).to_string(),
            version: (*version).to_string(),
            enabled: *enabled,
        });
    }
    s
}

#[test]
fn missing_statements_blocks_slow_and_wait() {
    let empty = snapshot_of(&[]);
    assert!(!OHIValidations::check_slow_query_metrics_fetch_eligibility(&empty));
    assert!(!OHIValidations::check_wait_event_metrics_fetch_eligibility(&empty));
    assert!(!OHIValidations::check_blocking_session_metrics_fetch_eligibility(&empty, 11));
    assert!(!OHIValidations::check_blocking_session_metrics_fetch_eligibility(&empty, 14));
    assert!(!OHIValidations::check_blocking_session_metrics_fetch_eligibility(&empty, 99));

    let wait_only = snapshot_of(&[("pg_wait_sampling", "1.1", true)]);
    assert!(!OHIValidations::check_slow_query_metrics_fetch_eligibility(&wait_only));
    assert!(!OHIValidations::check_wait_event_metrics_fetch_eligibility(&wait_only));
    assert!(!OHIValidations::check_blocking_session_metrics_fetch_eligibility(&wait_only, 14));
}

#[test]
fn query_monitoring_version_boundary() {
    assert!(!OHIValidations::check_postgres_version_support_for_query_monitoring(11));
    assert!(OHIValidations::check_postgres_version_support_for_query_monitoring(12));
    assert!(OHIValidations::check_postgres_version_support_for_query_monitoring(13));
    assert!(!OHIValidations::check_postgres_version_support_for_query_monitoring(0));
}

#[test]
fn blocking_ignores_extensions_on_12_and_13() {
    let empty = snapshot_of(&[]);
    assert!(OHIValidations::check_blocking_session_metrics_fetch_eligibility(&empty, 12));
    assert!(OHIValidations::check_blocking_session_metrics_fetch_eligibility(&empty, 13));
    assert!(!OHIValidations::check_blocking_session_metrics_fetch_eligibility(&empty, 14));

    let with_statements = snapshot_of(&[("pg_stat_statements", "1.10", true)]);
    assert!(OHIValidations::check_blocking_session_metrics_fetch_eligibility(&with_statements, 14));
}

#[test]
fn enabled_statements_allows_slow_queries() {
    let s = snapshot_of(&[("pg_stat_statements", "1.10", true)]);
    assert!(OHIValidations::check_slow_query_metrics_fetch_eligibility(&s));
    assert!(!OHIValidations::check_wait_event_metrics_fetch_eligibility(&s));
}

#[test]
fn wait_events_need_both_extensions() {
    let s = snapshot_of(&[("pg_stat_statements", "1.10", true), ("pg_wait_sampling", "1.1", true)]);
    assert!(OHIValidations::check_wait_event_metrics_fetch_eligibility(&s));
}

#[test]
fn disabled_extension_is_not_eligible() {
    let s = snapshot_of(&[("pg_stat_statements", "1.10", false)]);
    assert!(!OHIValidations::check_slow_query_metrics_fetch_eligibility(&s));
    let m = snapshot_of(&[("pg_stat_monitor", "2.0", false)]);
    assert!(!OHIValidations::check_individual_query_metrics_fetch_eligibility(&m));
}

#[test]
fn individual_queries_need_monitor() {
    let without = snapshot_of(&[("pg_stat_statements", "1.10", true)]);
    assert!(!OHIValidations::check_individual_query_metrics_fetch_eligibility(&without));
    let with = snapshot_of(&[("pg_stat_monitor", "2.0", true)]);
    assert!(OHIValidations::check_individual_query_metrics_fetch_eligibility(&with));
}
