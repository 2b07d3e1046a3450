use verge::domain::{ErrorCode, MemoryEvent, RealtimeEvent, TrafficEvent, ConnectionSnapshot};
use verge::script::{check_preview, check_worker_input, check_worker_output, validate_source, validate_sources, ProfileScript, SOURCE_LIMIT, TEMPLATE};
use verge::telemetry::{Telemetry, HISTORY_SAMPLES};

#[test]
fn script_sources_are_limited_in_bytes() {
    assert!(validate_source(TEMPLATE).is_ok());
    assert!(validate_source(&"a".repeat(SOURCE_LIMIT)).is_ok());
    let error = validate_source(&"a".repeat(SOURCE_LIMIT + 1)).unwrap_err();
    assert_eq!(error.code, ErrorCode::ValidationFailed);
    assert_eq!(error.message, "Script exceeds 256 KiB");
    let wide = "中".repeat(SOURCE_LIMIT / 3 + 1);
    assert!(validate_source(&wide).is_err());
    assert!(validate_sources(&vec!["ok".into(), "a".repeat(SOURCE_LIMIT + 1)]).is_err());
    assert!(validate_sources(&Vec::new()).is_ok());
    assert_eq!(ProfileScript::default().active, None);
}

#[test]
fn worker_payloads_are_bounded() {
    assert!(check_worker_input(12 * 1024 * 1024).is_ok());
    assert_eq!(check_worker_input(12 * 1024 * 1024 + 1).unwrap_err().message, "Script input exceeds 12 MiB");
    assert_eq!(check_worker_output(8 * 1024 * 1024 + 1).unwrap_err().message, "Script output exceeds 8 MiB");
    assert_eq!(check_preview(8 * 1024 * 1024 + 1).unwrap_err().message, "Script preview exceeds 8 MiB");
}

#[test]
fn telemetry_keeps_recent_samples_and_reports_changes() {
    let mut telemetry = Telemetry::new();
    let events: Vec<RealtimeEvent> = (0..50).map(|up| RealtimeEvent::Traffic(TrafficEvent { up, down: 0 })).collect();
    assert!(telemetry.apply(&events));
    assert_eq!(telemetry.history.len(), HISTORY_SAMPLES);
    assert_eq!(telemetry.history[0].up, 10);
    assert_eq!(telemetry.history.last().unwrap().up, 49);
    let memory = vec![RealtimeEvent::Memory(MemoryEvent { inuse: 1, oslimit: 2 })];
    assert!(telemetry.apply(&memory));
    assert!(!telemetry.apply(&memory));
    let connections = vec![RealtimeEvent::Connections(ConnectionSnapshot {
        upload_total: 0,
        download_total: 0,
        connection_count: 3,
        connections: Vec::new(),
    })];
    assert!(telemetry.apply(&connections));
    assert!(!telemetry.apply(&connections));
    assert_eq!(telemetry.connections, Some(3));
}

#[test]
fn long_running_traffic_keeps_only_recent_samples() {
    let mut telemetry = Telemetry::new();
    for up in 0..10_000 {
        telemetry.apply(&vec![RealtimeEvent::Traffic(TrafficEvent { up, down: 0 })]);
    }
    assert_eq!(telemetry.history.len(), HISTORY_SAMPLES);
    assert_eq!(telemetry.history.first().unwrap().up, 9_960);
    assert_eq!(telemetry.history.last().unwrap().up, 9_999);
}
