use pg_extensions::compat::CompatibilityMatrix;
use pg_extensions::config::ExtensionManager;
use pg_extensions::errors::CollectorError;
use pg_extensions::extensions::{ExtensionInfo, ExtensionSnapshot};

fn rows_of(entries: &[(&str, &str)]) -> Vec<(String, String)> {
    entries.iter().map(|(n, v)| ((*n).to_string(), (*v).to_string())).collect()
}

#[test]
fn detect_and_configure_statements_and_wait_sampling() {
    let rows = rows_of(&[("pg_stat_statements", "1.10"), ("pg_wait_sampling", "1.1")]);
    let installed = ExtensionSnapshot::from_rows(&rows);
    let mut manager = ExtensionManager::new();
    let config = manager.detect_and_configure(installed);

    let statements = config.pg_stat_statements.expect("pg_stat_statements config");
    assert_eq!(statements.version, "1.10");
    assert_eq!(statements.track_scope, "all");
    assert_eq!(statements.max_tracked, 10000);

    let wait_sampling = config.pg_wait_sampling.expect("pg_wait_sampling config");
    assert_eq!(wait_sampling.version, "1.1");
    assert_eq!(wait_sampling.sample_period_ms, 10);

    assert!(config.pg_stat_monitor.is_none());
}

#[test]
fn detect_and_configure_monitor_when_compatible() {
    let rows = rows_of(&[("pg_stat_monitor", "2.0")]);
    let installed = ExtensionSnapshot::from_rows(&rows);
    let mut manager = ExtensionManager::new();
    let config = manager.detect_and_configure(installed);

    assert!(config.pg_stat_statements.is_none());
    assert!(config.pg_wait_sampling.is_none());
    let monitor = config.pg_stat_monitor.expect("pg_stat_monitor config");
    assert_eq!(monitor.version, "2.0");
    assert!(monitor.normalize_queries);
    assert!(monitor.enable_query_plan);
}

#[test]
fn detect_and_configure_empty_snapshot() {
    let installed = ExtensionSnapshot::from_rows(&rows_of(&[]));
    let mut manager = ExtensionManager::new();
    let config = manager.detect_and_configure(installed);
    assert!(config.pg_stat_statements.is_none());
    assert!(config.pg_stat_monitor.is_none());
    assert!(config.pg_wait_sampling.is_none());
}

#[test]
fn manager_replaces_stored_snapshot_wholesale() {
    let mut manager = ExtensionManager::new();
    let first = ExtensionSnapshot::from_rows(&rows_of(&[("pg_stat_statements", "1.9")]));
    manager.detect_and_configure(first);
    let second = ExtensionSnapshot::from_rows(&rows_of(&[("pg_wait_sampling", "1.1")]));
    manager.detect_and_configure(second);

    let stored = manager.installed_extensions();
    assert!(stored.get("pg_stat_statements").is_none());
    let kept = stored.get("pg_wait_sampling").expect("stored extension");
    assert_eq!(kept.version, "1.1");
}

#[test]
fn from_rows_marks_enabled_and_later_row_wins() {
    let rows = rows_of(&[("pg_stat_statements", "1.9"), ("pg_stat_statements", "1.10")]);
    let snapshot = ExtensionSnapshot::from_rows(&rows);
    let info = snapshot.get("pg_stat_statements").expect("entry");
    assert_eq!(info.name, "pg_stat_statements");
    assert_eq!(info.version, "1.10");
    assert!(info.enabled);
}

#[test]
fn snapshot_insert_replaces_same_name() {
    let mut snapshot = ExtensionSnapshot::new();
    snapshot.insert(ExtensionInfo {
        name: "pg_stat_monitor".to_string(),
        version: "1.0".to_string(),
        enabled: true,
    });
    snapshot.insert(ExtensionInfo {
        name: "pg_stat_monitor".to_string(),
        version: "2.0".to_string(),
        enabled: false,
    });
    let info = snapshot.get("pg_stat_monitor").expect("entry");
    assert_eq!(info.version, "2.0");
    assert!(!info.enabled);
}

#[test]
fn snapshot_get_absent_is_none() {
    let snapshot = ExtensionSnapshot::new();
    assert!(snapshot.get("pg_stat_statements").is_none());
}

#[test]
fn compatibility_default_is_permissive() {
    let matrix = CompatibilityMatrix::default();
    assert!(matrix.is_compatible("pg_stat_monitor", "2.0"));
    assert!(matrix.is_compatible("anything_else", "0.0.1"));
    assert!(matrix.is_compatible("", ""));
}

#[test]
fn collector_error_messages() {
    let c = CollectorError::ConnectionError("pool exhausted".to_string());
    assert_eq!(c.message().as_str(), "pool exhausted");
    let q = CollectorError::QueryError("syntax error".to_string());
    assert_eq!(q.message().as_str(), "syntax error");
    let d = CollectorError::DecodeError("bad row".to_string());
    assert_eq!(d.message().as_str(), "bad row");
}
