use agent::models::alert::{Alert, AlertCondition};
use agent::time::Timestamp;
use chrono::Utc;

fn bits(v: f64) -> u64 {
    v.to_bits()
}

fn stamp(t: chrono::DateTime<Utc>) -> Timestamp {
    Timestamp { secs: t.timestamp(), nanos: t.timestamp_subsec_nanos() }
}

#[test]
fn alert_creation_basic() {
    let a = Alert::new("s1", "cpu_usage", bits(90.0), AlertCondition::GreaterThan).unwrap();
    assert!(a.id.is_none());
    assert_eq!(a.server_id, "s1");
    assert_eq!(a.metric_type, "cpu_usage");
    assert_eq!(f64::from_bits(a.threshold), 90.0);
    assert!(matches!(a.condition, AlertCondition::GreaterThan));
    assert!(a.is_active);
}

#[test]
fn alert_with_id() {
    let alert = Alert::new("s1", "cpu_usage", bits(90.0), AlertCondition::GreaterThan)
        .unwrap()
        .with_id("alert_123");
    assert_eq!(alert.id, Some("alert_123".to_string()));
}

#[test]
fn alert_timestamp_is_set() {
    let before = Utc::now();
    let alert = Alert::new("s1", "cpu_usage", bits(90.0), AlertCondition::GreaterThan).unwrap();
    let after = Utc::now();

    assert!(alert.created_at >= stamp(before));
    assert!(alert.created_at <= stamp(after));
}

#[test]
fn alert_deactivate() {
    let mut alert = Alert::new("s1", "cpu_usage", bits(90.0), AlertCondition::GreaterThan).unwrap();
    assert!(alert.is_active);

    alert.deactivate();
    assert!(!alert.is_active);
}

#[test]
fn alert_activate() {
    let mut alert = Alert::new("s1", "cpu_usage", bits(90.0), AlertCondition::GreaterThan).unwrap();
    alert.deactivate();
    assert!(!alert.is_active);

    alert.activate();
    assert!(alert.is_active);
}

#[test]
fn alert_should_trigger_greater_than() {
    let alert = Alert::new("s1", "cpu_usage", bits(90.0), AlertCondition::GreaterThan).unwrap();

    assert!(!alert.should_trigger(bits(89.0)));
    assert!(!alert.should_trigger(bits(90.0)));
    assert!(alert.should_trigger(bits(91.0)));
}

#[test]
fn alert_should_trigger_greater_or_equal() {
    let alert = Alert::new("s1", "cpu_usage", bits(90.0), AlertCondition::GreaterOrEqual).unwrap();

    assert!(!alert.should_trigger(bits(89.0)));
    assert!(alert.should_trigger(bits(90.0)));
    assert!(alert.should_trigger(bits(91.0)));
}

#[test]
fn alert_should_trigger_less_than() {
    let alert = Alert::new("s1", "cpu_usage", bits(10.0), AlertCondition::LessThan).unwrap();

    assert!(alert.should_trigger(bits(9.0)));
    assert!(!alert.should_trigger(bits(10.0)));
    assert!(!alert.should_trigger(bits(11.0)));
}

#[test]
fn alert_should_trigger_less_or_equal() {
    let alert = Alert::new("s1", "cpu_usage", bits(10.0), AlertCondition::LessOrEqual).unwrap();

    assert!(alert.should_trigger(bits(9.0)));
    assert!(alert.should_trigger(bits(10.0)));
    assert!(!alert.should_trigger(bits(11.0)));
}

#[test]
fn alert_inactive_should_not_trigger() {
    let mut alert = Alert::new("s1", "cpu_usage", bits(90.0), AlertCondition::GreaterThan).unwrap();
    alert.deactivate();

    assert!(!alert.should_trigger(bits(95.0)));
}

#[test]
fn alert_validation_empty_server_id() {
    let result = Alert::new("", "cpu_usage", bits(90.0), AlertCondition::GreaterThan);
    assert!(result.is_err());
    assert!(matches!(result.unwrap_err(), agent::AppError::Validation(_)));
}

#[test]
fn alert_validation_empty_metric_type() {
    let result = Alert::new("s1", "", bits(90.0), AlertCondition::GreaterThan);
    assert!(result.is_err());
    assert!(matches!(result.unwrap_err(), agent::AppError::Validation(_)));
}

#[test]
fn alert_validation_negative_threshold() {
    let result = Alert::new("s1", "cpu_usage", bits(-5.0), AlertCondition::GreaterThan);
    assert!(result.is_err());
    assert!(matches!(result.unwrap_err(), agent::AppError::Validation(_)));
}

#[test]
fn alert_validation_nan_threshold() {
    let result = Alert::new("s1", "cpu_usage", bits(f64::NAN), AlertCondition::GreaterThan);
    assert!(result.is_err());
    assert!(matches!(result.unwrap_err(), agent::AppError::Validation(_)));
}

#[test]
fn alert_validation_infinite_threshold() {
    let result = Alert::new("s1", "cpu_usage", bits(f64::INFINITY), AlertCondition::GreaterThan);
    assert!(result.is_err());
    assert!(matches!(result.unwrap_err(), agent::AppError::Validation(_)));
}
