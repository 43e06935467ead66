use agent::models::metrics::{Metric, MetricCategory};
use agent::time::Timestamp;
use chrono::Utc;

fn bits(v: f64) -> u64 {
    v.to_bits()
}

fn stamp(t: chrono::DateTime<Utc>) -> Timestamp {
    Timestamp { secs: t.timestamp(), nanos: t.timestamp_subsec_nanos() }
}

#[test]
fn test_metric_creation() {
    let metric = Metric::new("CPU Usage", bits(75.5), "%", "server_1", MetricCategory::CPU).unwrap();
    assert_eq!(metric.name, "CPU Usage");
    assert_eq!(f64::from_bits(metric.value), 75.5);
    assert_eq!(metric.unit, "%");
    assert_eq!(metric.server_id, "server_1");
    assert!(matches!(metric.category, MetricCategory::CPU));
    assert!(metric.id.is_none());
}

#[test]
fn test_metric_with_id() {
    let metric = Metric::new("Memory Usage", bits(85.0), "%", "server_2", MetricCategory::Memory)
        .unwrap()
        .with_id("metric_123");

    assert_eq!(metric.name, "Memory Usage");
    assert_eq!(f64::from_bits(metric.value), 85.0);
    assert_eq!(metric.unit, "%");
    assert_eq!(metric.server_id, "server_2");
    assert!(matches!(metric.category, MetricCategory::Memory));
    assert_eq!(metric.id, Some("metric_123".to_string()));
}

#[test]
fn test_metric_timestamp_is_set() {
    let before = Utc::now();
    let metric = Metric::new("Disk Usage", bits(90.0), "%", "server_3", MetricCategory::Disk).unwrap();
    let after = Utc::now();

    assert!(metric.timestamp >= stamp(before));
    assert!(metric.timestamp <= stamp(after));
}

#[test]
fn test_metric_critical_detection() {
    let cpu_metric = Metric::new("CPU Usage", bits(95.0), "%", "server_1", MetricCategory::CPU).unwrap();
    assert!(cpu_metric.is_critical());

    let memory_metric =
        Metric::new("Memory Usage", bits(98.0), "%", "server_2", MetricCategory::Memory).unwrap();
    assert!(memory_metric.is_critical());

    let disk_metric = Metric::new("Disk Usage", bits(95.0), "%", "server_3", MetricCategory::Disk).unwrap();
    assert!(disk_metric.is_critical());

    let normal_metric = Metric::new("CPU Usage", bits(50.0), "%", "server_4", MetricCategory::CPU).unwrap();
    assert!(!normal_metric.is_critical());
}

#[test]
fn test_metric_custom_category() {
    let custom_metric = Metric::new(
        "Custom Metric",
        bits(42.0),
        "units",
        "server_5",
        MetricCategory::Custom("CustomType".to_string()),
    )
    .unwrap();

    assert_eq!(custom_metric.name, "Custom Metric");
    assert_eq!(f64::from_bits(custom_metric.value), 42.0);
    assert_eq!(custom_metric.unit, "units");
    assert_eq!(custom_metric.server_id, "server_5");

    match custom_metric.category {
        MetricCategory::Custom(category_name) => {
            assert_eq!(category_name, "CustomType");
        }
        _ => panic!("Expected Custom category"),
    }
}

#[test]
fn test_metric_validation_errors() {
    let result = Metric::new("", bits(50.0), "%", "server_1", MetricCategory::CPU);
    assert!(result.is_err());

    let result = Metric::new("CPU Usage", bits(50.0), "", "server_1", MetricCategory::CPU);
    assert!(result.is_err());

    let result = Metric::new("CPU Usage", bits(50.0), "%", "", MetricCategory::CPU);
    assert!(result.is_err());

    let result = Metric::new("CPU Usage", bits(-10.0), "%", "server_1", MetricCategory::CPU);
    assert!(result.is_err());

    let result = Metric::new("CPU Usage", bits(f64::NAN), "%", "server_1", MetricCategory::CPU);
    assert!(result.is_err());

    let result = Metric::new("CPU Usage", bits(f64::INFINITY), "%", "server_1", MetricCategory::CPU);
    assert!(result.is_err());
}

#[test]
fn metrics_test_test_metric_creation() {
    let metric = Metric::new("CPU Usage", bits(75.5), "%", "server_1", MetricCategory::CPU).unwrap();

    assert_eq!(metric.name, "CPU Usage");
    assert_eq!(f64::from_bits(metric.value), 75.5);
    assert_eq!(metric.unit, "%");
    assert_eq!(metric.server_id, "server_1");
    assert!(matches!(metric.category, MetricCategory::CPU));
    assert!(metric.id.is_none());
}

#[test]
fn metrics_test_test_metric_with_id() {
    let metric = Metric::new("Memory Usage", bits(60.0), "%", "server_1", MetricCategory::Memory)
        .unwrap()
        .with_id("metric_123");

    assert_eq!(metric.id, Some("metric_123".to_string()));
}

#[test]
fn metrics_test_test_metric_critical_detection() {
    let cpu_metric = Metric::new("CPU Usage", bits(95.5), "%", "server_1", MetricCategory::CPU).unwrap();
    let memory_metric =
        Metric::new("Memory Usage", bits(60.0), "%", "server_1", MetricCategory::Memory).unwrap();

    assert!(cpu_metric.is_critical());
    assert!(!memory_metric.is_critical());
}
