use agent::time::instant_from_clock;
use agent::services::client::count_sent;
use agent::config::settings::{parse_u64, Settings};
use agent::float_bits::{f32_is_finite, f32_le, f64_is_infinite, f64_is_nan, f64_le, f64_lt};
use agent::models::payloads::{MetricPayload, OffsetTimestamp};
use agent::models::server::Server;
use agent::models::system_metrics::SystemMetrics;
use agent::services::alerts_client::check_alert;
use agent::services::fake_monitor::{
    base_readings, base_spreads, server_kind, time_band, time_factor, ServerKind, TimeBand,
};
use agent::services::http_client_base::{HttpAnswer, HttpClientBase, PostStep};
use agent::services::multi_server_service::{find_server_metrics, MultiServerResult};
use agent::text::{contains, decimal, is_blank, str_eq};
use agent::time::{minutes_between, Timestamp};
use agent::models::alert::{Alert, AlertCondition};
use agent::AppError;

#[test]
fn error_messages_carry_their_prefix() {
    assert_eq!(AppError::Metrics("x".into()).message(), "Error de métricas: x");
    assert_eq!(AppError::Validation("y".into()).message(), "Error de validación: y");
    assert_eq!(AppError::NotFound("z".into()).message(), "Recurso no encontrado: z");
    assert_eq!(AppError::RequestError("w".into()).message(), "Error de solicitud HTTP: w");
}

#[test]
fn float_comparisons_follow_ieee() {
    let b = |v: f64| v.to_bits();
    let nan = f64::NAN.to_bits();
    assert!(f64_is_nan(nan));
    assert!(!f64_is_nan(b(1.0)));
    assert!(f64_is_infinite(b(f64::NEG_INFINITY)));
    assert!(f64_lt(b(-1.0), b(0.5)));
    assert!(f64_lt(b(-2.0), b(-1.0)));
    assert!(!f64_lt(b(-0.0), b(0.0)));
    assert!(f64_le(b(-0.0), b(0.0)));
    assert!(!f64_lt(nan, b(1.0)));
    assert!(!f64_le(b(1.0), nan));
    assert!(f64_lt(b(1e300), b(f64::INFINITY)));
    assert!(f32_le(0, 100.0f32.to_bits()));
    assert!(!f32_le(f32::NAN.to_bits(), 1.0f32.to_bits()));
    assert!(f32_le((-3.0f32).to_bits(), (-2.0f32).to_bits()));
    assert!(!f32_is_finite(f32::INFINITY.to_bits()));
}

#[test]
fn alerts_with_nan_values_never_fire() {
    let a = Alert::new("s", "cpu", 10.0f64.to_bits(), AlertCondition::GreaterOrEqual).unwrap();
    assert!(!a.should_trigger(f64::NAN.to_bits()));
    let a = Alert::new("s", "cpu", 10.0f64.to_bits(), AlertCondition::LessOrEqual).unwrap();
    assert!(!a.should_trigger(f64::NAN.to_bits()));
    assert!(a.should_trigger((-0.0f64).to_bits()));
}

#[test]
fn alert_validation_messages_in_order() {
    match Alert::new(" ", "", f64::NAN.to_bits(), AlertCondition::LessThan) {
        Err(AppError::Validation(m)) => assert_eq!(m, "Server ID cannot be empty"),
        other => panic!("{:?}", other),
    }
    match Alert::new("s", "m", (-0.0f64).to_bits(), AlertCondition::LessThan) {
        Ok(a) => assert_eq!(a.threshold, (-0.0f64).to_bits()),
        other => panic!("{:?}", other),
    }
    match Alert::new("s", "m", f64::NEG_INFINITY.to_bits(), AlertCondition::LessThan) {
        Err(AppError::Validation(m)) => assert_eq!(m, "Threshold cannot be infinite"),
        other => panic!("{:?}", other),
    }
}

#[test]
fn blank_and_contains() {
    assert!(is_blank(""));
    assert!(is_blank(" \t\n\u{3000}\u{a0}"));
    assert!(!is_blank(" a "));
    assert!(contains("server-web-01", "web"));
    assert!(!contains("server-db-01", "web"));
    assert!(contains("abc", ""));
    assert!(str_eq("x", "x"));
    assert!(!str_eq("x", "xy"));
}

#[test]
fn decimal_text() {
    assert_eq!(decimal(0), "0");
    assert_eq!(decimal(1234), "1234");
    assert_eq!(decimal(u64::MAX), u64::MAX.to_string());
}

#[test]
fn parse_u64_matches_std() {
    for s in ["5", "+5", "", "+", "-1", " 5", "007", "18446744073709551615", "18446744073709551616", "1a"] {
        assert_eq!(parse_u64(s), s.parse::<u64>().ok(), "{s:?}");
    }
}

#[test]
fn settings_from_environment_values() {
    let d = Settings::load_with(None, None, None, None);
    assert_eq!(d.api_key, "not-needed");
    assert_eq!(d.backend_base_url, "http://localhost:8000");
    assert_eq!(d.server_id, "servidor-ejemplo-01");
    assert_eq!(d.interval_secs, 10);
    let s = Settings::load_with(
        Some("key".into()),
        Some("http://b".into()),
        Some("srv".into()),
        Some("3".into()),
    );
    assert_eq!(s.api_key, "key");
    assert_eq!(s.backend_base_url, "http://b");
    assert_eq!(s.server_id, "srv");
    assert_eq!(s.interval_secs, 5);
    assert_eq!(Settings::load_with(None, None, None, Some("60".into())).interval_secs, 60);
    assert_eq!(Settings::load_with(None, None, None, Some("x".into())).interval_secs, 10);
    let n = Settings::new("http://c".into(), "test_server".into(), 30);
    assert_eq!(n.interval_secs, 30);
    assert_eq!(n.server_id, "test_server");
}

#[test]
fn urls_are_joined_with_one_slash() {
    let c = HttpClientBase::new("http://host/api/", "k");
    assert_eq!(c.build_url("/metrics"), "http://host/api/metrics");
    let c = HttpClientBase::new("http://host//", "k");
    assert_eq!(c.build_url("//health"), "http://host/health");
    let c = HttpClientBase::new("http://host", "k");
    assert_eq!(c.build_url("alerts"), "http://host/alerts");
    assert_eq!(c.base_url(), "http://host");
    assert_eq!(c.api_key(), "k");
}

fn status(code: u16, text: &str) -> HttpAnswer {
    HttpAnswer::Status { status: code, status_text: text.into() }
}

#[test]
fn post_steps() {
    let c = HttpClientBase::new("http://h", "k");
    assert!(matches!(c.post_step(0, status(200, "200 OK")), PostStep::Done));
    for (code, text) in [(400, "400 Bad Request"), (401, "401 Unauthorized"), (404, "404 Not Found"), (429, "429 Too Many Requests")] {
        assert!(matches!(c.post_step(0, status(code, text)), PostStep::Done));
    }
    assert!(matches!(c.post_step(0, status(500, "500 Internal Server Error")), PostStep::Retry { attempt: 1, wait_ms: 300 }));
    assert!(matches!(c.post_step(1, status(503, "503 Service Unavailable")), PostStep::Retry { attempt: 2, wait_ms: 300 }));
    match c.post_step(2, status(500, "500 Internal Server Error")) {
        PostStep::Fail(AppError::Metrics(m)) => {
            assert_eq!(m, "backend responded with 500 Internal Server Error after 2 retries")
        }
        _ => panic!(),
    }
    match c.post_step(0, status(302, "302 Found")) {
        PostStep::Fail(AppError::Metrics(m)) => assert_eq!(m, "unexpected status 302 Found"),
        _ => panic!(),
    }
    let failed = |d: &str| HttpAnswer::Failed { detail: d.into() };
    assert!(matches!(c.post_step(1, failed("refused")), PostStep::Retry { attempt: 2, .. }));
    match c.post_step(2, failed("refused")) {
        PostStep::Fail(AppError::Metrics(m)) => assert_eq!(m, "http error after retries: refused"),
        _ => panic!(),
    }
}

#[test]
fn health_check_results() {
    let c = HttpClientBase::new("http://h", "k");
    assert!(c.health_check_result(HttpAnswer::Status { status: 204, status_text: "204 No Content".into() }).is_ok());
    assert_eq!(
        c.health_check_result(HttpAnswer::Status { status: 503, status_text: "503 Service Unavailable".into() }),
        Err(AppError::Metrics("health_check status 503 Service Unavailable".into()))
    );
    assert_eq!(
        c.health_check_result(HttpAnswer::Failed { detail: "dns".into() }),
        Err(AppError::Metrics("http error: dns".into()))
    );
}

#[test]
fn minutes_between_instants() {
    let t = Timestamp { secs: 1000, nanos: 500 };
    assert_eq!(minutes_between(Timestamp { secs: 1600, nanos: 500 }, t), 10);
    assert_eq!(minutes_between(Timestamp { secs: 1299, nanos: 999_999_999 }, t), 4);
    assert_eq!(minutes_between(Timestamp { secs: 1300, nanos: 500 }, t), 5);
    assert_eq!(minutes_between(Timestamp { secs: 400, nanos: 0 }, t), -10);
    let chrono_minutes = |a: Timestamp, b: Timestamp| {
        let a = chrono::DateTime::from_timestamp(a.secs, a.nanos).unwrap();
        let b = chrono::DateTime::from_timestamp(b.secs, b.nanos).unwrap();
        a.signed_duration_since(b).num_minutes() as i128
    };
    for (a, b) in [
        ((400, 0), (1000, 500)),
        ((1000, 500), (400, 999_999_999)),
        ((-5, 3), (290, 4)),
        ((1_700_000_000, 1), (1_699_999_700, 2)),
        ((0, 999_999_999), (-60, 0)),
    ] {
        let x = Timestamp { secs: a.0, nanos: a.1 };
        let y = Timestamp { secs: b.0, nanos: b.1 };
        assert_eq!(minutes_between(x, y), chrono_minutes(x, y));
    }
    assert!(Timestamp::now().secs > 1672531200);
}

#[test]
fn servers_go_online_when_seen() {
    let mut s = Server::new("a", "h", "1.1.1.1").unwrap();
    assert!(!s.is_online());
    let t = Timestamp { secs: 5000, nanos: 0 };
    s.deactivate();
    s.activate_at(t);
    assert!(s.is_active);
    assert!(s.is_online_at(t));
    assert!(s.is_online_at(Timestamp { secs: 5299, nanos: 0 }));
    assert!(!s.is_online_at(Timestamp { secs: 5300, nanos: 0 }));
    s.update_last_seen();
    assert!(s.is_online());
    match Server::new("a", "h", "  ") {
        Err(AppError::Validation(m)) => assert_eq!(m, "IP address cannot be empty"),
        other => panic!("{:?}", other),
    }
}

#[test]
fn payload_checks_and_timestamps() {
    let b = |v: f32| v.to_bits();
    let p = MetricPayload::new("s", b(f32::NAN), b(1.0), b(1.0), b(1.0));
    assert_eq!(p.validate(), Err("cpu_usage debe estar entre 0 y 100".to_string()));
    let p = MetricPayload::new("s", b(1.0), b(1.0), b(100.5), b(1.0));
    assert_eq!(p.validate(), Err("disk_space debe estar entre 0 y 100".to_string()));
    let p = MetricPayload::new("s", b(1.0), b(1.0), b(1.0), b(f32::INFINITY));
    assert_eq!(p.validate(), Err("Los valores no pueden ser NaN o infinitos".to_string()));
    let ok = MetricPayload::new("s", b(0.0), b(100.0), b(50.0), b(-20.0));
    assert_eq!(ok.validate(), Ok(()));
    assert_eq!(ok.formatted_timestamp(), None);
    let stamped = MetricPayload {
        timestamp: Some(OffsetTimestamp { instant: Timestamp { secs: 0, nanos: 0 }, offset_secs: -10800 }),
        ..ok.clone()
    };
    assert_eq!(stamped.formatted_timestamp(), Some("1969-12-31 21:00:00 -0300".to_string()));
    let now = SystemMetrics::new(b(1.0), b(2.0), b(3.0), b(4.0)).into_payload_with_timestamp("x");
    let ts = now.timestamp.unwrap();
    assert_eq!(ts.offset_secs, -10800);
    assert!(now.formatted_timestamp().unwrap().ends_with("-0300"));
    let plain = SystemMetrics::new(b(1.0), b(2.0), b(3.0), b(4.0)).into_payload("x");
    assert_eq!(plain.server_id, "x");
    assert_eq!(plain.ram_usage, b(2.0));
    assert!(plain.timestamp.is_none());
}

#[test]
fn alert_send_checks() {
    let mut a = Alert::new("s", "cpu", 1.0f64.to_bits(), AlertCondition::LessThan).unwrap();
    assert_eq!(check_alert(&a), Ok(()));
    a.metric_type = " ".into();
    assert_eq!(check_alert(&a), Err(AppError::Validation("alert.metric_type vacío".into())));
    a.server_id = "".into();
    assert_eq!(check_alert(&a), Err(AppError::Validation("alert.server_id vacío".into())));
}

#[test]
fn multi_server_results() {
    let mut r = MultiServerResult::new();
    assert!(r.all_successful());
    assert!(!r.any_successful());
    r.add_success("a".into());
    r.add_failure("b".into(), AppError::Metrics("boom".into()));
    r.add_failure("b".into(), AppError::Validation("again".into()));
    r.add_failure("c".into(), AppError::NotFound("x".into()));
    assert!(r.any_successful());
    assert!(!r.all_successful());
    assert_eq!(r.total_servers, 4);
    assert_eq!(
        r.failed_servers,
        vec![
            ("b".to_string(), "Error de validación: again".to_string()),
            ("c".to_string(), "Recurso no encontrado: x".to_string())
        ]
    );
}

#[test]
fn server_metrics_lookup() {
    let m = SystemMetrics::new(1, 2, 3, 4);
    let all = vec![("a".to_string(), m), ("b".to_string(), SystemMetrics::new(5, 6, 7, 8))];
    assert_eq!(find_server_metrics(&all, "a"), Ok(m));
    assert_eq!(
        find_server_metrics(&all, "z"),
        Err(AppError::Validation("Servidor z no encontrado".into()))
    );
}

#[test]
fn simulated_server_profiles() {
    assert_eq!(
        agent::services::fake_monitor::default_servers(),
        vec!["server-web-01".to_string(), "server-db-01".to_string(), "server-api-01".to_string()]
    );
    assert_eq!(server_kind("server-web-01"), ServerKind::Web);
    assert_eq!(server_kind("server-db-01"), ServerKind::Db);
    assert_eq!(server_kind("server-api-01"), ServerKind::Api);
    assert_eq!(server_kind("webdb"), ServerKind::Web);
    assert_eq!(server_kind("other"), ServerKind::Generic);
    let web = base_readings(ServerKind::Web);
    assert_eq!(f32::from_bits(web.cpu_usage), 45.0);
    assert_eq!(f32::from_bits(web.ram_usage), 60.0);
    let db = base_readings(ServerKind::Db);
    assert_eq!(f32::from_bits(db.disk_space), 70.0);
    let api = base_readings(ServerKind::Api);
    assert_eq!(f32::from_bits(api.temperature), 48.0);
    assert_eq!(f32::from_bits(base_spreads().disk_space), 20.0);
    assert_eq!(time_band(9, 0), TimeBand::Business);
    assert_eq!(time_band(17, 0), TimeBand::Business);
    assert_eq!(time_band(17, 1), TimeBand::Other);
    assert_eq!(time_band(22, 0), TimeBand::Evening);
    assert_eq!(time_band(22, 30), TimeBand::Other);
    assert_eq!(time_band(23, 0), TimeBand::Night);
    assert_eq!(time_band(6, 0), TimeBand::Night);
    assert_eq!(time_band(6, 1), TimeBand::Other);
    assert_eq!(time_factor(TimeBand::Business), 0.3f32.to_bits());
    assert_eq!(time_factor(TimeBand::Night), (-0.4f32).to_bits());
    assert_eq!(time_factor(TimeBand::Evening), 0.1f32.to_bits());
    assert_eq!(time_factor(TimeBand::Other), 0.2f32.to_bits());
}

#[test]
fn sample_reading_at_a_given_time() {
    let m = agent::services::metrics::metrica_at(1_700_000_000);
    assert_eq!(m.servidor_id, "servidor-ejemplo-01");
    assert_eq!(m.timestamp, 1_700_000_000);
    assert_eq!(f64::from_bits(m.cpu_usage), 15.5);
    assert_eq!(f64::from_bits(m.ram_usage), 2048.0);
}

#[test]
fn timestamps_format_through_the_year_9999() {
    let last = MetricPayload {
        timestamp: Some(OffsetTimestamp {
            instant: Timestamp { secs: agent::models::payloads::LAST_SECOND_OF_9999, nanos: 999_999_999 },
            offset_secs: 0,
        }),
        ..MetricPayload::new("s", 0, 0, 0, 0)
    };
    assert_eq!(last.formatted_timestamp(), Some("9999-12-31 23:59:59 +0000".to_string()));
    let bad_offset = MetricPayload {
        timestamp: Some(OffsetTimestamp { instant: Timestamp { secs: 0, nanos: 0 }, offset_secs: 86_400 }),
        ..MetricPayload::new("s", 0, 0, 0, 0)
    };
    assert_eq!(bad_offset.formatted_timestamp(), None);
}

#[test]
fn outcomes_are_recorded_by_kind() {
    let mut r = MultiServerResult::new();
    r.record_outcome("a".into(), Ok(()));
    r.record_outcome("b".into(), Err(AppError::RequestError("down".into())));
    assert_eq!(r.successful_servers, vec!["a".to_string()]);
    assert_eq!(r.failed_servers, vec![("b".to_string(), "Error de solicitud HTTP: down".to_string())]);
    assert_eq!(r.total_servers, 2);
}

#[test]
fn clock_readings_on_both_sides_of_the_epoch() {
    assert_eq!(instant_from_clock(Ok((5, 7))), Timestamp { secs: 5, nanos: 7 });
    assert_eq!(instant_from_clock(Err((1, 500_000_000))), Timestamp { secs: -2, nanos: 500_000_000 });
    assert_eq!(instant_from_clock(Err((3, 0))), Timestamp { secs: -3, nanos: 0 });
    assert_eq!(instant_from_clock(Ok((u64::MAX, 0))), Timestamp { secs: i64::MAX, nanos: 999_999_999 });
    assert_eq!(instant_from_clock(Err((u64::MAX, 0))), Timestamp { secs: i64::MIN, nanos: 0 });
    assert_eq!(instant_from_clock(Err((1u64 << 63, 0))), Timestamp { secs: i64::MIN, nanos: 0 });
    assert!(Timestamp::now().nanos < 1_000_000_000);
}

#[test]
fn batch_counting_stops_at_the_first_error() {
    assert_eq!(count_sent(2, Ok(())), Ok(3));
    assert_eq!(count_sent(2, Err(AppError::Metrics("x".into()))), Err(AppError::Metrics("x".into())));
}

#[test]
fn a_publishing_run_records_each_server_once() {
    let mut r = MultiServerResult::new();
    r.record_outcome("web".into(), Ok(()));
    r.record_outcome("db".into(), Err(AppError::Metrics("timeout".into())));
    r.record_outcome("api".into(), Ok(()));
    r.record_outcome("cache".into(), Err(AppError::RequestError("refused".into())));
    assert_eq!(r.total_servers, 4);
    assert_eq!(r.successful_servers, vec!["web".to_string(), "api".to_string()]);
    assert_eq!(
        r.failed_servers,
        vec![
            ("db".to_string(), "Error de métricas: timeout".to_string()),
            ("cache".to_string(), "Error de solicitud HTTP: refused".to_string())
        ]
    );
}
