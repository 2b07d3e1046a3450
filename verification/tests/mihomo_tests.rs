use sha2::{Digest, Sha256};

use verge::domain::{ErrorCode, RealtimeEvent, RealtimeTopic, TrafficEvent};
use verge::mihomo::realtime::{
    check_subscription, connection_from_raw, connections_snapshot, format_endpoint, next_reconnect, topic_path,
    EventBuffer, RawConnection, RawMetadata, RealtimeOptions,
};
use verge::mihomo::sidecar::{verify_sha256, validate_sha256, SidecarManifest, SidecarTarget};
use verge::mihomo::{
    backoff, check_can_start, is_loopback, ControllerAddress, CoreLogLine, IpAddress, LogBuffer, LogStream,
    MihomoConfig, SupervisorEvent, SupervisorMachine, SupervisorState,
};

fn config() -> MihomoConfig {
    MihomoConfig {
        binary: "/bin/sh".into(),
        working_dir: "/tmp".into(),
        controller: ControllerAddress { ip: IpAddress::V4(0x7f00_0001), port: 9090 },
        secret: "test-secret".into(),
        max_restarts: 0,
        restart_backoff_ms: 1,
        stop_timeout_ms: 200,
        log_capacity: 2,
    }
}

#[test]
fn bounded_buffer_drops_oldest_event() {
    let mut buffer = EventBuffer::new(2);
    for up in 1..=3 {
        buffer.push(RealtimeEvent::Traffic(TrafficEvent { up, down: 0 }));
    }
    assert_eq!(
        buffer.drain(),
        [
            RealtimeEvent::Traffic(TrafficEvent { up: 2, down: 0 }),
            RealtimeEvent::Traffic(TrafficEvent { up: 3, down: 0 }),
        ]
    );
    assert!(buffer.drain().is_empty());
}

#[test]
fn config_rejects_non_loopback_controller_and_header_injection() {
    let mut settings = config();
    assert!(settings.validate(true, true).is_ok());
    settings.controller = ControllerAddress { ip: IpAddress::V4(0xc000_0201), port: 9090 };
    assert_eq!(settings.validate(true, true).unwrap_err().code, ErrorCode::InvalidInput);

    settings.controller = ControllerAddress { ip: IpAddress::V4(0x7f00_0001), port: 9090 };
    settings.secret = "secret\r\nInjected: true".into();
    assert_eq!(settings.validate(true, true).unwrap_err().code, ErrorCode::InvalidInput);
}

#[test]
fn config_reports_missing_binary_and_directory_first() {
    let settings = config();
    let error = settings.validate(false, true).unwrap_err();
    assert_eq!(error.code, ErrorCode::CoreUnavailable);
    assert_eq!(error.message, "Mihomo binary does not exist: /bin/sh");
    let error = settings.validate(true, false).unwrap_err();
    assert_eq!(error.message, "Mihomo working directory does not exist: /tmp");
    let mut zero = config();
    zero.log_capacity = 0;
    assert_eq!(zero.validate(true, true).unwrap_err().code, ErrorCode::InvalidInput);
}

#[test]
fn loopback_addresses_are_recognized() {
    assert!(is_loopback(IpAddress::V4(0x7f00_0001)));
    assert!(is_loopback(IpAddress::V4(0x7fff_ffff)));
    assert!(!is_loopback(IpAddress::V4(0x0a00_0001)));
    assert!(is_loopback(IpAddress::V6(1)));
    assert!(!is_loopback(IpAddress::V6(2)));
}

#[test]
fn restart_backoff_doubles_up_to_a_bound() {
    assert_eq!(backoff(100, 1), 100);
    assert_eq!(backoff(100, 2), 200);
    assert_eq!(backoff(100, 4), 800);
    assert_eq!(backoff(100, 9), 25_600);
    assert_eq!(backoff(100, 50), 25_600);
    assert_eq!(backoff(u64::MAX, 3), u64::MAX);
}

#[test]
fn supervisor_schedules_restarts_then_gives_up() {
    let mut machine = SupervisorMachine::new(2, 100);
    machine.started(41);
    assert_eq!(machine.state(), &SupervisorState::Running { pid: 41 });
    machine.exited(Some(1), 1_000);
    assert_eq!(machine.state(), &SupervisorState::Backoff { attempt: 1, retry_at_ms: 1_100 });
    assert!(!machine.restart_due(1_099));
    assert!(machine.restart_due(1_100));
    machine.started(42);
    machine.exited(None, 2_000);
    assert_eq!(machine.state(), &SupervisorState::Backoff { attempt: 2, retry_at_ms: 2_200 });
    machine.exited(Some(9), 3_000);
    assert_eq!(machine.state(), &SupervisorState::Failed { attempts: 3, last_code: Some(9) });
    let events = machine.drain_events();
    assert_eq!(
        events,
        [
            SupervisorEvent::Started { pid: 41 },
            SupervisorEvent::Exited { code: Some(1) },
            SupervisorEvent::RestartScheduled { attempt: 1, delay_ms: 100 },
            SupervisorEvent::Started { pid: 42 },
            SupervisorEvent::Exited { code: None },
            SupervisorEvent::RestartScheduled { attempt: 2, delay_ms: 200 },
            SupervisorEvent::Exited { code: Some(9) },
            SupervisorEvent::Failed { attempts: 3, last_code: Some(9) },
        ]
    );
    assert!(machine.drain_events().is_empty());
}

#[test]
fn stopping_resets_the_restart_count() {
    let mut machine = SupervisorMachine::new(1, 50);
    machine.started(7);
    machine.exited(Some(1), 0);
    machine.stopped();
    assert_eq!(machine.state(), &SupervisorState::Stopped);
    machine.started(8);
    machine.exited(Some(1), 10);
    assert_eq!(machine.state(), &SupervisorState::Backoff { attempt: 1, retry_at_ms: 60 });
}

#[test]
fn a_running_core_cannot_be_started_twice() {
    assert!(check_can_start(false).is_ok());
    assert_eq!(check_can_start(true).unwrap_err().code, ErrorCode::Conflict);
}

#[test]
fn log_buffer_keeps_the_newest_lines() {
    let mut buffer = LogBuffer::new(2);
    for text in ["one", "two", "three"] {
        buffer.push(CoreLogLine { stream: LogStream::Stdout, message: text.into() });
    }
    let lines: Vec<String> = buffer.snapshot().into_iter().map(|line| line.message).collect();
    assert_eq!(lines, ["two", "three"]);
}

#[test]
fn realtime_options_and_topics() {
    let options = RealtimeOptions::default();
    assert!(options.validate().is_ok());
    let bad = RealtimeOptions { max_backoff_ms: 10, ..RealtimeOptions::default() };
    assert_eq!(bad.validate().unwrap_err().message, "invalid Mihomo realtime options");
    assert_eq!(topic_path(RealtimeTopic::Traffic), "/traffic");
    assert_eq!(topic_path(RealtimeTopic::Logs), "/logs?level=debug");
    assert!(check_subscription(IpAddress::V4(0x7f00_0001), "secret", &options).is_ok());
    assert_eq!(
        check_subscription(IpAddress::V4(0x0808_0808), "secret", &options).unwrap_err().code,
        ErrorCode::InvalidInput
    );
}

#[test]
fn reconnect_delay_grows_and_resets_after_an_event() {
    let options = RealtimeOptions::default();
    let (attempt, event) = next_reconnect(0, false, &options);
    assert_eq!(attempt, 1);
    assert_eq!(event, RealtimeEvent::Reconnecting { attempt: 1, delay_ms: 100 });
    let (attempt, event) = next_reconnect(6, false, &options);
    assert_eq!(attempt, 7);
    assert_eq!(event, RealtimeEvent::Reconnecting { attempt: 7, delay_ms: 5_000 });
    let (attempt, _) = next_reconnect(6, true, &options);
    assert_eq!(attempt, 1);
}

#[test]
fn endpoints_are_shown_with_brackets_for_ipv6() {
    assert_eq!(format_endpoint("", 80), "");
    assert_eq!(format_endpoint("example.com", 0), "example.com");
    assert_eq!(format_endpoint("10.0.0.1", 443), "10.0.0.1:443");
    assert_eq!(format_endpoint("::1", 8080), "[::1]:8080");
}

fn raw(id: &str) -> RawConnection {
    RawConnection {
        id: id.into(),
        metadata: RawMetadata {
            network: "tcp".into(),
            source_ip: "127.0.0.1".into(),
            source_port: 50000,
            destination_ip: "1.1.1.1".into(),
            destination_port: 443,
            host: "one.one.one.one".into(),
            process: "Safari".into(),
            process_path: "/Applications/Safari.app".into(),
        },
        upload: 10,
        download: 20,
        start: "2024-01-01T00:00:00Z".into(),
        chains: vec!["Proxy".into(), "Node".into()],
        rule: "DOMAIN".into(),
        rule_payload: "one.one.one.one".into(),
    }
}

#[test]
fn connection_rows_carry_endpoints_and_chains() {
    let row = connection_from_raw(raw("a"));
    assert_eq!(row.source, "127.0.0.1:50000");
    assert_eq!(row.destination, "1.1.1.1:443");
    assert_eq!(row.chains, ["Proxy", "Node"]);
    let snapshot = connections_snapshot(1, 2, Some(vec![raw("a"), raw("b")]));
    assert_eq!(snapshot.connection_count, 2);
    assert_eq!(snapshot.connections[1].id, "b");
    let empty = connections_snapshot(1, 2, None);
    assert_eq!(empty.connection_count, 0);
}

fn hex(bytes: &[u8]) -> String {
    format!("{:x}", Sha256::digest(bytes))
}

#[test]
fn verifies_digest_and_rejects_tampering() {
    let expected = hex(b"mihomo");
    assert!(verify_sha256("/tmp/mihomo", b"mihomo", &expected).is_ok());
    let error = verify_sha256("/tmp/mihomo", b"tampered", &expected).unwrap_err();
    assert_eq!(error.code, ErrorCode::CoreUnavailable);
    assert_eq!(
        error.message,
        format!("Mihomo SHA-256 mismatch for /tmp/mihomo: expected {expected}, got {}", hex(b"tampered"))
    );
    assert!(validate_sha256(&expected).is_ok());
    assert!(validate_sha256("xyz").is_err());
}

fn target() -> SidecarTarget {
    SidecarTarget {
        asset: "mihomo-darwin-arm64.gz".into(),
        download_url: "https://github.com/MetaCubeX/mihomo/releases/download/v1.19.0/mihomo-darwin-arm64.gz".into(),
        archive_sha256: hex(b"archive"),
        executable_sha256: hex(b"executable"),
    }
}

#[test]
fn manifest_checks_schema_digests_and_release_urls() {
    let manifest = SidecarManifest {
        schema_version: 1,
        version: "v1.19.0".into(),
        release_url: "https://github.com/MetaCubeX/mihomo/releases/tag/v1.19.0".into(),
        targets: vec![("darwin-arm64".into(), target())],
    };
    assert!(manifest.validate().is_ok());
    assert_eq!(manifest.target("darwin-arm64").unwrap().asset, "mihomo-darwin-arm64.gz");
    assert_eq!(
        manifest.target("linux").unwrap_err().message,
        "Mihomo manifest has no asset for target linux"
    );
    let t = manifest.target("darwin-arm64").unwrap();
    assert!(t.verify_archive("/tmp/a.gz", b"archive").is_ok());
    assert!(t.verify_executable("/tmp/mihomo", b"archive").is_err());

    let mut wrong = SidecarManifest { schema_version: 2, ..manifest };
    assert_eq!(wrong.validate().unwrap_err().code, ErrorCode::CoreUnavailable);
    wrong.schema_version = 1;
    wrong.targets[0].1.download_url = "https://example.com/mihomo.gz".into();
    assert!(wrong.validate().is_err());
}

#[test]
fn exits_can_be_recorded_until_the_counters_would_overflow() {
    let mut machine = SupervisorMachine::new(1, u64::MAX / 2);
    assert!(machine.can_record_exit(0));
    assert!(!machine.can_record_exit(u64::MAX));
    machine.exited(Some(1), 0);
    assert!(machine.can_record_exit(u64::MAX));
}

#[test]
fn parses_connection_details_for_ui_and_close_actions() {
    // The connection record of the controller's message, as serde decodes it.
    let record = RawConnection {
        id: "abc".into(),
        metadata: RawMetadata {
            network: "tcp".into(),
            source_ip: "127.0.0.1".into(),
            source_port: 50123,
            destination_ip: "1.1.1.1".into(),
            destination_port: 443,
            host: "example.com".into(),
            process: "Browser".into(),
            process_path: String::new(),
        },
        upload: 3,
        download: 4,
        start: "2026-08-29T12:00:00Z".into(),
        chains: vec!["Proxy".into(), "Node".into()],
        rule: "DomainSuffix".into(),
        rule_payload: "example.com".into(),
    };
    let snapshot = connections_snapshot(11, 22, Some(vec![record]));
    assert_eq!(snapshot.connection_count, 1);
    assert_eq!(snapshot.connections[0].id, "abc");
    assert_eq!(snapshot.connections[0].source, "127.0.0.1:50123");
    assert_eq!(snapshot.connections[0].destination, "1.1.1.1:443");
    assert_eq!(snapshot.connections[0].host, "example.com");
    assert_eq!(snapshot.connections[0].chains, ["Proxy", "Node"]);
}

#[test]
fn kth_retry_doubles_the_initial_backoff_up_to_the_cap() {
    let options = RealtimeOptions {
        connect_timeout_ms: 2000,
        read_timeout_ms: 200,
        initial_backoff_ms: 100,
        max_backoff_ms: 1_000_000,
        buffer_capacity: 128,
    };
    let mut attempt = 0;
    for k in 1..=12u32 {
        let (next, event) = next_reconnect(attempt, false, &options);
        let expected = (100u64 << (k - 1).min(8)).min(1_000_000);
        assert_eq!(next, k);
        assert_eq!(event, RealtimeEvent::Reconnecting { attempt: k, delay_ms: expected });
        attempt = next;
    }
    assert_eq!(next_reconnect(attempt, false, &options).1, RealtimeEvent::Reconnecting { attempt: 13, delay_ms: 25_600 });
    assert_eq!(next_reconnect(attempt, true, &options).1, RealtimeEvent::Reconnecting { attempt: 1, delay_ms: 100 });
}

#[test]
fn manifest_targets_are_a_map_where_a_later_entry_wins() {
    let mut other = target();
    other.asset = "mihomo-darwin-amd64.gz".into();
    let manifest = SidecarManifest::from_targets(
        1,
        "v1.19.0".into(),
        "https://github.com/MetaCubeX/mihomo/releases/tag/v1.19.0".into(),
        vec![
            ("darwin-arm64".into(), other.clone()),
            ("darwin-amd64".into(), other.clone()),
            ("darwin-arm64".into(), target()),
        ],
    );
    assert_eq!(manifest.targets.len(), 2);
    assert_eq!(manifest.target("darwin-arm64").unwrap(), &target());
    assert_eq!(manifest.target("darwin-amd64").unwrap(), &other);
    assert!(manifest.validate().is_ok());
}
