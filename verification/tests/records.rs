use kakureyado::persistence::parse_status;
use kakureyado::{OnionService, ServiceRecord, ServiceStatus, Timestamp};

fn sample(status: ServiceStatus) -> OnionService {
    OnionService {
        name: "web".into(),
        onion_address: "web.onion".into(),
        target_addr: "127.0.0.1".into(),
        target_port: 8080,
        status,
        created_at: Timestamp::from_unix(1_767_225_600, 0).unwrap(),
    }
}

#[test]
fn timestamp_renders_rfc3339() {
    let epoch = Timestamp::from_unix(0, 0).unwrap();
    assert_eq!(epoch.to_rfc3339(), "1970-01-01T00:00:00+00:00");
    let t = Timestamp::from_unix(1_767_225_600, 500_000_000).unwrap();
    assert_eq!(t.to_rfc3339(), "2026-01-01T00:00:00.500+00:00");
}

#[test]
fn timestamp_parses_rfc3339() {
    let t = Timestamp::parse_rfc3339("2026-01-01T00:00:00Z").unwrap();
    assert_eq!(t.secs(), 1_767_225_600);
    assert_eq!(t.nanos(), 0);
    let t = Timestamp::parse_rfc3339("2026-01-01T01:00:00+01:00").unwrap();
    assert_eq!(t.secs(), 1_767_225_600);
    assert!(Timestamp::parse_rfc3339("yesterday").is_none());
}

#[test]
fn timestamp_out_of_range_refused() {
    assert!(Timestamp::from_unix(i64::MAX, 0).is_none());
    assert!(Timestamp::from_unix(0, 2_000_000_000).is_none());
}

#[test]
fn status_texts() {
    assert_eq!(parse_status("running"), ServiceStatus::Running);
    assert_eq!(parse_status("starting"), ServiceStatus::Starting);
    assert_eq!(parse_status("error"), ServiceStatus::Error);
    assert_eq!(parse_status("stopped"), ServiceStatus::Stopped);
    assert_eq!(parse_status("paused"), ServiceStatus::Stopped);
}

#[test]
fn record_from_service_columns() {
    let record = ServiceRecord::from_service(&sample(ServiceStatus::Running));
    assert_eq!(record.id, "web");
    assert_eq!(record.name, "web");
    assert_eq!(record.onion_address, "web.onion");
    assert_eq!(record.target_addr, "127.0.0.1");
    assert_eq!(record.target_port, 8080);
    assert_eq!(record.onion_port, 0);
    assert_eq!(record.status, "running");
    assert!(record.persistent);
    assert_eq!(record.created_at, "2026-01-01T00:00:00+00:00");
}

#[test]
fn record_roundtrip() {
    for status in [
        ServiceStatus::Stopped,
        ServiceStatus::Starting,
        ServiceStatus::Running,
        ServiceStatus::Error,
    ] {
        let service = sample(status);
        let back = ServiceRecord::from_service(&service).to_service();
        assert_eq!(back.name, service.name);
        assert_eq!(back.onion_address, service.onion_address);
        assert_eq!(back.target_addr, service.target_addr);
        assert_eq!(back.target_port, service.target_port);
        assert_eq!(back.status, service.status);
        assert_eq!(back.created_at, service.created_at);
    }
}

#[test]
fn record_with_bad_time_falls_back() {
    let fallback = Timestamp::from_unix(42, 0).unwrap();
    let record = ServiceRecord {
        id: "x".into(),
        name: "x".into(),
        onion_address: "x.onion".into(),
        target_addr: "10.0.0.1".into(),
        target_port: 70_000,
        onion_port: 0,
        status: "weird".into(),
        persistent: true,
        created_at: "not a time".into(),
    };
    let service = record.to_service_at(fallback);
    assert_eq!(service.created_at, fallback);
    assert_eq!(service.status, ServiceStatus::Stopped);
    assert_eq!(service.target_port, (70_000i32 as u16));
}

#[test]
fn five_digit_year_does_not_read_back() {
    let t = Timestamp::from_unix(253_402_300_800, 0).unwrap();
    let text = t.to_rfc3339();
    assert_eq!(text, "+10000-01-01T00:00:00+00:00");
    assert!(Timestamp::parse_rfc3339(&text).is_none());
    let last = Timestamp::from_unix(253_402_300_799, 999_999_999).unwrap();
    let back = Timestamp::parse_rfc3339(&last.to_rfc3339()).unwrap();
    assert_eq!(back, last);
}
