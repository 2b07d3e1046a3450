use verge::domain::{
    AppError, AutoProxyState, ErrorCode, ProxyEndpoint, ProxyProtocolState, SystemProxyServiceState,
    SystemProxyState, SystemProxyTarget,
};
use verge::platform::proxy_ops::{precheck, restore_ops, ProxyKind, ProxyOp};
use verge::platform::proxy_state::{
    bypass_list, legacy_protocol_output_matches, lines, normalize_record, normalize_recorded_url, parse_port,
    protocol_read, restored_protocol_matches, validate_services,
};
use verge::platform::system_proxy::{MacSystemProxy, ProxyAction, ProxyEvent};

fn endpoint(host: &str, port: u16) -> ProxyEndpoint {
    ProxyEndpoint { host: host.into(), port }
}

fn protocol(enabled: bool, host: &str, port: u16) -> ProxyProtocolState {
    ProxyProtocolState { enabled, endpoint: endpoint(host, port) }
}

fn service(name: &str) -> SystemProxyServiceState {
    SystemProxyServiceState {
        service: name.into(),
        web: protocol(false, "", 0),
        secure_web: protocol(false, "", 0),
        socks: protocol(false, "", 0),
        auto_proxy: AutoProxyState { enabled: false, url: None },
        bypass: Vec::new(),
    }
}

/// The network services and the recovery record, as the system keeps them.
#[derive(Default)]
struct FakeSystem {
    services: Vec<SystemProxyServiceState>,
    record: Option<SystemProxyState>,
    writes: Vec<ProxyOp>,
    /// Write numbers (counting from zero) that fail.
    failing: Vec<usize>,
    /// Write numbers that report success but change nothing.
    ignored: Vec<usize>,
    record_write_fails: bool,
    record_read_fails: bool,
    /// The message of a failing write, where one is set.
    failure_message: Option<String>,
    /// What reading a service back reports, where it differs from the settings.
    read_override: Option<SystemProxyServiceState>,
    /// How many times a single service was read back.
    service_reads: usize,
}

impl FakeSystem {
    fn with(names: &[&str]) -> Self {
        FakeSystem { services: names.iter().map(|n| service(n)).collect(), ..Default::default() }
    }

    fn find(&mut self, name: &str) -> &mut SystemProxyServiceState {
        self.services.iter_mut().find(|s| s.service == name).expect("known service")
    }

    fn state(&self, names: &[String]) -> SystemProxyState {
        SystemProxyState {
            services: names
                .iter()
                .map(|n| self.services.iter().find(|s| &s.service == n).expect("known service").clone())
                .collect(),
            recovery_pending: self.record.is_some(),
        }
    }

    fn run(&mut self, op: ProxyOp) -> Result<(), AppError> {
        let index = self.writes.len();
        self.writes.push(op.clone());
        if self.failing.contains(&index) {
            let message = self.failure_message.clone().unwrap_or_else(|| format!("write {index} failed"));
            return Err(AppError::new(ErrorCode::PlatformFailed, &message));
        }
        if self.ignored.contains(&index) {
            return Ok(());
        }
        match op {
            ProxyOp::SetProtocol { kind, service, state } => *slot(self.find(&service), kind) = state,
            ProxyOp::SetProtocolEnabled { kind, service, enabled } => slot(self.find(&service), kind).enabled = enabled,
            ProxyOp::SetAutoProxyEnabled { service, enabled } => self.find(&service).auto_proxy.enabled = enabled,
            ProxyOp::SetAutoProxy { service, state } => self.find(&service).auto_proxy = state,
            ProxyOp::SetBypass { service, domains } => self.find(&service).bypass = domains,
        }
        Ok(())
    }
}

fn slot(s: &mut SystemProxyServiceState, kind: ProxyKind) -> &mut ProxyProtocolState {
    match kind {
        ProxyKind::Http => &mut s.web,
        ProxyKind::Https => &mut s.secure_web,
        ProxyKind::Socks => &mut s.socks,
    }
}

/// Performs every action until the transaction finishes.
fn drive(proxy: &mut MacSystemProxy, mut action: ProxyAction, system: &mut FakeSystem) -> Result<Option<SystemProxyState>, AppError> {
    loop {
        let event = match action {
            ProxyAction::ReadState(names) => ProxyEvent::State(Ok(system.state(&names))),
            ProxyAction::ReadRecord => ProxyEvent::Record(if system.record_read_fails {
                Err(AppError::new(ErrorCode::StorageFailed, "unreadable record"))
            } else {
                system.record.clone().ok_or_else(|| AppError::new(ErrorCode::NotFound, "no pending system proxy recovery record"))
            }),
            ProxyAction::WriteRecord(state) => {
                if system.record_write_fails {
                    ProxyEvent::Written(Err(AppError::new(ErrorCode::StorageFailed, "disk full")))
                } else {
                    system.record = Some(state);
                    ProxyEvent::Written(Ok(()))
                }
            }
            ProxyAction::RemoveRecord => {
                system.record = None;
                ProxyEvent::Removed(Ok(()))
            }
            ProxyAction::Run(op) => ProxyEvent::Ran(system.run(op)),
            ProxyAction::ReadService(expected) => {
                system.service_reads += 1;
                let current = system.services.iter().find(|s| s.service == expected.service).unwrap().clone();
                ProxyEvent::Service(Ok(system.read_override.clone().unwrap_or(current)))
            }
            ProxyAction::Unchanged => return Ok(None),
            ProxyAction::Finish(result) => return result.map(Some),
        };
        action = proxy.resume(event);
    }
}

fn names(list: &[&str]) -> Vec<String> {
    list.iter().map(|s| s.to_string()).collect()
}

#[test]
fn enable_persists_snapshot_before_mutation_and_recovers_it() {
    let mut system = FakeSystem::with(&["Wi-Fi"]);
    system.find("Wi-Fi").auto_proxy = AutoProxyState { enabled: true, url: Some("http://pac".into()) };
    let before = system.services.clone();
    let mut proxy = MacSystemProxy::new();
    let first = proxy.enable(&names(&["Wi-Fi"]), &endpoint("127.0.0.1", 7890));
    assert!(matches!(first, ProxyAction::ReadState(_)));
    let state = drive(&mut proxy, first, &mut system).unwrap().unwrap();
    assert_eq!(system.record.as_ref().unwrap().services, before);
    assert_eq!(state.services[0].web, protocol(true, "127.0.0.1", 7890));
    assert_eq!(state.services[0].secure_web, protocol(true, "127.0.0.1", 7890));
    assert!(!state.services[0].auto_proxy.enabled);
    assert!(matches!(system.writes[0], ProxyOp::SetAutoProxyEnabled { enabled: false, .. }));

    let first = proxy.disable(&names(&["Wi-Fi"]), true);
    let restored = drive(&mut proxy, first, &mut system).unwrap().unwrap();
    assert_eq!(restored.services, before);
    assert!(!restored.recovery_pending);
    assert!(system.record.is_none());
    assert_eq!(system.services, before);
}

#[test]
fn partial_failure_rolls_back_and_removes_recovery_record() {
    let mut system = FakeSystem::with(&["Wi-Fi", "Ethernet"]);
    system.failing = vec![4];
    let before = system.services.clone();
    let mut proxy = MacSystemProxy::new();
    let first = proxy.enable(&names(&["Wi-Fi", "Ethernet"]), &endpoint("127.0.0.1", 7890));
    let error = drive(&mut proxy, first, &mut system).unwrap_err();
    assert_eq!(error.message, "write 4 failed");
    assert_eq!(system.services, before);
    assert!(system.record.is_none());
}

#[test]
fn rollback_failure_reports_both_errors_and_keeps_record() {
    let mut system = FakeSystem::with(&["Wi-Fi"]);
    system.failing = vec![1, 3];
    let mut proxy = MacSystemProxy::new();
    let first = proxy.enable(&names(&["Wi-Fi"]), &endpoint("127.0.0.1", 7890));
    let error = drive(&mut proxy, first, &mut system).unwrap_err();
    assert_eq!(error.code, ErrorCode::PlatformFailed);
    assert_eq!(
        error.message,
        "system proxy apply failed: write 1 failed; rollback failed: system proxy recovery was incomplete: Wi-Fi secure web: write 3 failed"
    );
    assert!(system.record.is_some());
}

#[test]
fn later_mutations_do_not_clobber_the_original_recovery_record() {
    let mut system = FakeSystem::with(&["Wi-Fi"]);
    let before = system.services.clone();
    let mut proxy = MacSystemProxy::new();
    let first = proxy.enable(&names(&["Wi-Fi"]), &endpoint("127.0.0.1", 7890));
    drive(&mut proxy, first, &mut system).unwrap();
    let first = proxy.set_socks(&names(&["Wi-Fi"]), true, &endpoint("127.0.0.1", 7891));
    let state = drive(&mut proxy, first, &mut system).unwrap().unwrap();
    assert_eq!(state.services[0].socks, protocol(true, "127.0.0.1", 7891));
    assert_eq!(system.record.as_ref().unwrap().services, before);
}

#[test]
fn failed_change_keeps_an_existing_record() {
    let mut system = FakeSystem::with(&["Wi-Fi"]);
    let before = system.services.clone();
    let mut proxy = MacSystemProxy::new();
    let first = proxy.enable(&names(&["Wi-Fi"]), &endpoint("127.0.0.1", 7890));
    drive(&mut proxy, first, &mut system).unwrap();
    let enabled = system.services.clone();
    system.failing = vec![system.writes.len()];
    let first = proxy.set_bypass(&names(&["Wi-Fi"]), &names(&["*.local"]));
    assert!(drive(&mut proxy, first, &mut system).is_err());
    assert_eq!(system.services, enabled);
    assert_eq!(system.record.as_ref().unwrap().services, before);
}

#[test]
fn disable_external_proxy_without_recovery_clears_all_protocols() {
    let mut system = FakeSystem::with(&["Wi-Fi"]);
    {
        let wifi = system.find("Wi-Fi");
        wifi.web = protocol(true, "10.0.0.2", 3128);
        wifi.socks = protocol(true, "10.0.0.2", 1080);
        wifi.auto_proxy = AutoProxyState { enabled: true, url: Some("http://pac".into()) };
    }
    let mut proxy = MacSystemProxy::new();
    let first = proxy.disable(&names(&["Wi-Fi"]), false);
    let state = drive(&mut proxy, first, &mut system).unwrap().unwrap();
    let wifi = &state.services[0];
    assert!(!wifi.web.enabled && !wifi.secure_web.enabled && !wifi.socks.enabled && !wifi.auto_proxy.enabled);
    assert_eq!(wifi.web.endpoint, endpoint("10.0.0.2", 3128));
    assert!(system.record.is_none());
    assert!(!state.recovery_pending);
}

#[test]
fn invalid_proxy_snapshot_prevents_mutation_and_recovery_record() {
    let mut system = FakeSystem::with(&["Wi-Fi"]);
    let mut proxy = MacSystemProxy::new();
    let first = proxy.enable(&names(&["bad\nservice"]), &endpoint("127.0.0.1", 7890));
    let error = drive(&mut proxy, first, &mut system).unwrap_err();
    assert_eq!(error.code, ErrorCode::InvalidInput);
    assert!(system.writes.is_empty());
    assert!(system.record.is_none());
    let first = proxy.enable(&names(&["Wi-Fi"]), &endpoint("127.0.0.1", 0));
    assert_eq!(drive(&mut proxy, first, &mut system).unwrap_err().code, ErrorCode::InvalidInput);
    let first = proxy.state(&Vec::new());
    assert_eq!(drive(&mut proxy, first, &mut system).unwrap_err().code, ErrorCode::InvalidInput);
}

#[test]
fn record_write_failure_stops_before_any_write() {
    let mut system = FakeSystem::with(&["Wi-Fi"]);
    system.record_write_fails = true;
    let mut proxy = MacSystemProxy::new();
    let first = proxy.enable(&names(&["Wi-Fi"]), &endpoint("127.0.0.1", 7890));
    assert_eq!(drive(&mut proxy, first, &mut system).unwrap_err().message, "disk full");
    assert!(system.writes.is_empty());
}

#[test]
fn unified_proxy_switches_modes_and_checks_the_result() {
    let mut system = FakeSystem::with(&["Wi-Fi"]);
    let mut proxy = MacSystemProxy::new();
    let manual = SystemProxyTarget::Manual { endpoint: endpoint("127.0.0.1", 7890), bypass: names(&["localhost"]) };
    let first = proxy.configure(&names(&["Wi-Fi"]), manual);
    let state = drive(&mut proxy, first, &mut system).unwrap().unwrap();
    assert_eq!(state.services[0].socks, protocol(true, "127.0.0.1", 7890));
    assert_eq!(state.services[0].bypass, ["localhost"]);
    let pac = SystemProxyTarget::Pac { url: "http://127.0.0.1:33331/pac".into() };
    let first = proxy.configure(&names(&["Wi-Fi"]), pac);
    let state = drive(&mut proxy, first, &mut system).unwrap().unwrap();
    assert!(!state.services[0].web.enabled);
    assert_eq!(state.services[0].auto_proxy, AutoProxyState { enabled: true, url: Some("http://127.0.0.1:33331/pac".into()) });
}

#[test]
fn unified_proxy_rolls_back_when_successful_commands_do_not_change_state() {
    let mut system = FakeSystem::with(&["Wi-Fi"]);
    system.ignored = vec![3];
    let before = system.services.clone();
    let mut proxy = MacSystemProxy::new();
    let manual = SystemProxyTarget::Manual { endpoint: endpoint("127.0.0.1", 7890), bypass: Vec::new() };
    let first = proxy.configure(&names(&["Wi-Fi"]), manual);
    let error = drive(&mut proxy, first, &mut system).unwrap_err();
    assert_eq!(error.message, "system proxy did not match the requested configuration after applying it");
    assert_eq!(system.services, before);
    assert!(system.record.is_none());
}

#[test]
fn configure_refuses_invalid_targets_before_reading() {
    let mut system = FakeSystem::with(&["Wi-Fi"]);
    let mut proxy = MacSystemProxy::new();
    let bad = SystemProxyTarget::Pac { url: "http://pac\n".into() };
    let first = proxy.configure(&names(&["Wi-Fi"]), bad);
    let error = drive(&mut proxy, first, &mut system).unwrap_err();
    assert_eq!(error.message, "PAC URL must be non-empty and contain no control characters");
    let bad = SystemProxyTarget::Manual { endpoint: endpoint("127.0.0.1", 7890), bypass: names(&[""]) };
    let first = proxy.configure(&names(&["Wi-Fi"]), bad);
    assert_eq!(drive(&mut proxy, first, &mut system).unwrap_err().code, ErrorCode::InvalidInput);
    assert!(system.writes.is_empty());
}

#[test]
fn set_auto_proxy_enables_with_url_and_disables_without() {
    let mut system = FakeSystem::with(&["Wi-Fi"]);
    let mut proxy = MacSystemProxy::new();
    let first = proxy.set_auto_proxy(&names(&["Wi-Fi"]), Some("http://pac"));
    let state = drive(&mut proxy, first, &mut system).unwrap().unwrap();
    assert_eq!(state.services[0].auto_proxy, AutoProxyState { enabled: true, url: Some("http://pac".into()) });
    let first = proxy.set_auto_proxy(&names(&["Wi-Fi"]), None);
    let state = drive(&mut proxy, first, &mut system).unwrap().unwrap();
    assert_eq!(state.services[0].auto_proxy, AutoProxyState { enabled: false, url: Some("http://pac".into()) });
    let writes = system.writes.len();
    let first = proxy.set_auto_proxy(&names(&["Wi-Fi"]), Some("http://bad\nurl"));
    assert_eq!(drive(&mut proxy, first, &mut system).unwrap_err().code, ErrorCode::InvalidInput);
    assert_eq!(system.writes.len(), writes);
}

#[test]
fn network_port_remap_preserves_unrelated_protocols_and_recovery_record() {
    let mut system = FakeSystem::with(&["Wi-Fi"]);
    {
        let wifi = system.find("Wi-Fi");
        wifi.web = protocol(true, "127.0.0.1", 7890);
        wifi.secure_web = protocol(true, "10.0.0.1", 3128);
        wifi.socks = protocol(true, "127.0.0.1", 7891);
    }
    let mut proxy = MacSystemProxy::new();
    let first = proxy.remap_endpoints(&names(&["Wi-Fi"]), false, endpoint("127.0.0.1", 7890), None, endpoint("127.0.0.1", 8890));
    assert!(drive(&mut proxy, first, &mut system).unwrap().is_none());
    assert!(system.writes.is_empty());

    system.record = Some(SystemProxyState { services: vec![service("Wi-Fi")], recovery_pending: true });
    let first = proxy.remap_endpoints(
        &names(&["Wi-Fi"]),
        true,
        endpoint("127.0.0.1", 7890),
        Some(endpoint("127.0.0.1", 7891)),
        endpoint("127.0.0.1", 8890),
    );
    drive(&mut proxy, first, &mut system).unwrap();
    let wifi = &system.services[0];
    assert_eq!(wifi.web, protocol(true, "127.0.0.1", 8890));
    assert_eq!(wifi.secure_web, protocol(true, "10.0.0.1", 3128));
    assert_eq!(wifi.socks, protocol(true, "127.0.0.1", 8890));
    assert_eq!(system.record.as_ref().unwrap().services, vec![service("Wi-Fi")]);
}

#[test]
fn failed_recovery_keeps_record_for_next_start() {
    let mut system = FakeSystem::with(&["Wi-Fi"]);
    let mut saved = service("Wi-Fi");
    saved.web = protocol(true, "10.0.0.1", 3128);
    system.record = Some(SystemProxyState { services: vec![saved.clone()], recovery_pending: true });
    system.failing = vec![0];
    let mut proxy = MacSystemProxy::new();
    let first = proxy.recover_pending();
    let error = drive(&mut proxy, first, &mut system).unwrap_err();
    assert_eq!(error.message, "system proxy recovery was incomplete: Wi-Fi web: write 0 failed");
    assert!(system.record.is_some());

    system.failing.clear();
    let first = proxy.recover_pending();
    let restored = drive(&mut proxy, first, &mut system).unwrap().unwrap();
    assert_eq!(restored.services[0].web, saved.web);
    assert!(system.record.is_none());
}

#[test]
fn recovery_read_failure_retains_record_and_can_retry() {
    let mut system = FakeSystem::with(&["Wi-Fi"]);
    system.record = Some(SystemProxyState { services: vec![service("Wi-Fi")], recovery_pending: true });
    system.record_read_fails = true;
    let mut proxy = MacSystemProxy::new();
    let first = proxy.recover_pending();
    assert_eq!(drive(&mut proxy, first, &mut system).unwrap_err().code, ErrorCode::StorageFailed);
    assert!(system.record.is_some());
    system.record_read_fails = false;
    let first = proxy.recover_pending();
    assert!(drive(&mut proxy, first, &mut system).is_ok());
    assert!(system.record.is_none());
}

#[test]
fn recovery_mismatch_retains_record_for_all_proxy_fields() {
    let mut system = FakeSystem::with(&["Wi-Fi"]);
    let mut saved = service("Wi-Fi");
    saved.bypass = names(&["*.local"]);
    system.record = Some(SystemProxyState { services: vec![saved], recovery_pending: true });
    system.ignored = vec![4];
    let mut proxy = MacSystemProxy::new();
    let first = proxy.recover_pending();
    let error = drive(&mut proxy, first, &mut system).unwrap_err();
    assert_eq!(error.message, "system proxy did not match the recovery snapshot for Wi-Fi");
    assert!(system.record.is_some());
}

#[test]
fn legacy_disabled_endpoints_recover_by_switching_off() {
    for kind in [ProxyKind::Http, ProxyKind::Https, ProxyKind::Socks] {
        for (host, port) in [("old.local", 0), ("", 8080)] {
            let mut saved = snapshot_service("Wi-Fi");
            *slot(&mut saved, kind) = protocol(false, host, port);
            // The protocol is on at another endpoint when recovery starts.
            let mut current = snapshot_service("Wi-Fi");
            *slot(&mut current, kind) = protocol(true, "127.0.0.1", 7897);
            let mut system = FakeSystem { services: vec![current], ..Default::default() };
            system.record = Some(SystemProxyState { services: vec![saved], recovery_pending: true });
            let mut proxy = MacSystemProxy::new();
            let first = proxy.recover_pending();
            let restored = drive(&mut proxy, first, &mut system).unwrap().unwrap();
            assert!(!restored.recovery_pending);
            assert!(system.record.is_none());
            // The incomplete endpoint is not written, but its switch is restored.
            assert!(!system.writes.iter().any(|op| matches!(op, ProxyOp::SetProtocol { kind: k, .. } if *k == kind)));
            assert!(system.writes.iter().any(|op| matches!(
                op,
                ProxyOp::SetProtocolEnabled { kind: k, enabled: false, .. } if *k == kind
            )));
            assert!(!slot(&mut system.services[0], kind).enabled);
        }
    }
}

#[test]
fn legacy_pac_quotes_are_normalized_before_restoring() {
    let mut saved = service("Wi-Fi");
    saved.auto_proxy = AutoProxyState { enabled: false, url: Some("\"http://pac\"".into()) };
    let mut empty = service("Ethernet");
    empty.auto_proxy = AutoProxyState { enabled: false, url: Some("(null)".into()) };
    let state = normalize_record(SystemProxyState { services: vec![saved, empty], recovery_pending: true });
    assert_eq!(state.services[0].auto_proxy.url.as_deref(), Some("http://pac"));
    assert_eq!(state.services[1].auto_proxy.url, None);
    assert_eq!(normalize_recorded_url(Some("\"".into())).as_deref(), Some("\""));
    assert_eq!(normalize_recorded_url(Some("\"\"".into())), None);
    assert_eq!(normalize_recorded_url(None), None);
}

#[test]
fn recovery_of_empty_disabled_endpoint_allows_saved_values() {
    assert!(restored_protocol_matches(&protocol(false, "", 0), &protocol(false, "10.0.0.1", 3128)));
    assert!(!restored_protocol_matches(&protocol(false, "10.0.0.1", 3128), &protocol(false, "10.0.0.2", 3128)));
    assert!(!restored_protocol_matches(&protocol(true, "", 0), &protocol(false, "", 0)));
}

fn output(enabled: bool, host: &str, port: u16) -> String {
    format!(
        "Enabled: {}\nServer: {host}\nPort: {port}\nAuthenticated Proxy Enabled: 0\n",
        if enabled { "Yes" } else { "No" }
    )
}

#[test]
fn legacy_recovery_accepts_only_the_saved_disabled_endpoint() {
    let saved = protocol(false, "", 8080);
    assert!(legacy_protocol_output_matches(&output(false, "", 8080), &saved));
    assert!(!legacy_protocol_output_matches(&output(true, "", 8080), &saved));
    assert!(!legacy_protocol_output_matches(&output(false, "", 8081), &saved));
    assert!(legacy_protocol_output_matches("Enabled: No\r\nServer:  \r\nPort: +8080\r\n", &saved));
    let parse_error = Err(AppError::new(ErrorCode::PlatformFailed, "invalid port"));
    assert_eq!(protocol_read(parse_error.clone(), Some(output(false, "", 8080)), Some(&saved)).unwrap(), saved);
    assert!(protocol_read(parse_error.clone(), Some(output(false, "", 9090)), Some(&saved)).is_err());
    assert!(protocol_read(parse_error, None, Some(&saved)).is_err());
    let parsed = protocol(true, "127.0.0.1", 7890);
    assert_eq!(protocol_read(Ok(parsed.clone()), None, None).unwrap(), parsed);
}

#[test]
fn legacy_recovery_does_not_accept_invalid_enabled_endpoints() {
    for (host, port) in [("old.local", 0), ("", 8080)] {
        let mut saved = snapshot_service("Wi-Fi");
        saved.web = protocol(true, host, port);
        let mut system = snapshot_system(&["Wi-Fi"]);
        system.record = Some(SystemProxyState { services: vec![saved], recovery_pending: true });
        let mut proxy = MacSystemProxy::new();
        let first = proxy.recover_pending();
        assert!(drive(&mut proxy, first, &mut system).is_err());
        assert!(system.record.is_some());
        assert!(!system.writes.iter().any(|op| matches!(
            op,
            ProxyOp::SetProtocol { kind: ProxyKind::Http, .. } | ProxyOp::SetProtocolEnabled { kind: ProxyKind::Http, .. }
        )));
    }
    let enabled = protocol(true, "", 8080);
    let parse_error = Err(AppError::new(ErrorCode::PlatformFailed, "invalid"));
    assert!(protocol_read(parse_error, Some(output(true, "", 8080)), Some(&enabled)).is_err());
    assert!(!legacy_protocol_output_matches(&output(false, "bad\u{1}host", 8080), &protocol(false, "bad\u{1}host", 0)));
}

#[test]
fn networksetup_output_helpers() {
    assert_eq!(lines("a\r\nb\n\nc"), ["a", "b", "", "c"]);
    assert_eq!(lines("a\n"), ["a"]);
    assert!(lines("").is_empty());
    assert_eq!(parse_port("8080"), Some(8080));
    assert_eq!(parse_port("+1"), Some(1));
    assert_eq!(parse_port("0065535"), Some(65535));
    assert_eq!(parse_port("65536"), None);
    assert_eq!(parse_port(""), None);
    assert_eq!(parse_port("-1"), None);
    assert_eq!(bypass_list("a.com,,b.com,"), ["a.com", "b.com"]);
    assert!(bypass_list("").is_empty());
    assert!(validate_services(&names(&["Wi-Fi"])).is_ok());
    assert_eq!(
        validate_services(&names(&["  "])).unwrap_err().message,
        "at least one valid network service is required"
    );
}

/// The settings of a service in the scenarios below: HTTP off at
/// old.local:8080, HTTPS on at secure.local:8443, SOCKS off at socks.local:1080,
/// no automatic proxy and no bypass domains.
fn snapshot_service(name: &str) -> SystemProxyServiceState {
    SystemProxyServiceState {
        service: name.into(),
        web: protocol(false, "old.local", 8080),
        secure_web: protocol(true, "secure.local", 8443),
        socks: protocol(false, "socks.local", 1080),
        auto_proxy: AutoProxyState { enabled: false, url: None },
        bypass: Vec::new(),
    }
}

fn snapshot_system(names: &[&str]) -> FakeSystem {
    FakeSystem { services: names.iter().map(|n| snapshot_service(n)).collect(), ..Default::default() }
}

/// Which protocol or setting of which service a write touches.
fn touches(op: &ProxyOp) -> (&str, &'static str) {
    match op {
        ProxyOp::SetProtocol { kind, service, .. } | ProxyOp::SetProtocolEnabled { kind, service, .. } => (
            service.as_str(),
            match kind {
                ProxyKind::Http => "web",
                ProxyKind::Https => "secure web",
                ProxyKind::Socks => "socks",
            },
        ),
        ProxyOp::SetAutoProxyEnabled { service, .. } | ProxyOp::SetAutoProxy { service, .. } => {
            (service.as_str(), "automatic proxy")
        }
        ProxyOp::SetBypass { service, .. } => (service.as_str(), "bypass domains"),
    }
}

#[test]
fn disabled_unconfigured_proxy_is_readable_and_restores_without_endpoint() {
    // A switched-off protocol without an endpoint is written back as it was
    // read; only an enabled protocol needs a valid endpoint, so the write
    // passes its check (networksetup then only switches the protocol off).
    let state = service("Wi-Fi");
    assert!(!state.web.enabled);
    assert_eq!(state.web.endpoint.port, 0);
    assert!(state.web.endpoint.host.is_empty());
    let (ops, labels) = restore_ops(&vec![state]);
    assert_eq!(ops[0], ProxyOp::SetProtocol { kind: ProxyKind::Http, service: "Wi-Fi".into(), state: protocol(false, "", 0) });
    assert_eq!(labels[0], "Wi-Fi web");
    assert!(precheck(&ops[0]).is_ok());
    let enabled = ProxyOp::SetProtocol { kind: ProxyKind::Http, service: "Wi-Fi".into(), state: protocol(true, "", 0) };
    assert_eq!(precheck(&enabled).unwrap_err().code, ErrorCode::InvalidInput);
}

#[test]
fn rollback_mismatch_retains_record() {
    let mut system = snapshot_system(&["Wi-Fi"]);
    system.failing = vec![0];
    system.failure_message = Some("apply failed".into());
    system.read_override = Some(SystemProxyServiceState { web: protocol(true, "127.0.0.1", 7897), ..snapshot_service("Wi-Fi") });
    let mut proxy = MacSystemProxy::new();
    let first = proxy.enable(&names(&["Wi-Fi"]), &endpoint("127.0.0.1", 7897));
    let error = drive(&mut proxy, first, &mut system).unwrap_err();
    assert!(error.message.contains("rollback failed"));
    assert!(system.record.is_some());
}

#[test]
fn unified_failure_on_second_service_restores_every_protocol() {
    let mut system = snapshot_system(&["Wi-Fi", "Ethernet"]);
    // The first write to the second service fails.
    system.failing = vec![5];
    system.failure_message = Some("permission denied".into());
    let before = system.services.clone();
    let mut proxy = MacSystemProxy::new();
    let target = SystemProxyTarget::Manual { endpoint: endpoint("127.0.0.1", 7897), bypass: vec![] };
    let first = proxy.configure(&names(&["Wi-Fi", "Ethernet"]), target);
    let error = drive(&mut proxy, first, &mut system).unwrap_err();
    assert_eq!(touches(&system.writes[5]).0, "Ethernet");
    assert!(error.message.contains("permission denied"));
    assert!(system.record.is_none());
    for service in ["Wi-Fi", "Ethernet"] {
        for setting in ["web", "secure web", "socks", "automatic proxy", "bypass domains"] {
            assert!(system.writes.iter().skip(6).any(|op| touches(op) == (service, setting)));
        }
    }
    assert_eq!(system.services, before);
}

#[test]
fn set_socks_partial_failure_rolls_back_and_removes_recovery_record() {
    let mut system = snapshot_system(&["Wi-Fi"]);
    system.failing = vec![0];
    system.failure_message = Some("socks proxy failed".into());
    let before = system.services.clone();
    let mut proxy = MacSystemProxy::new();
    let first = proxy.set_socks(&names(&["Wi-Fi"]), true, &endpoint("127.0.0.1", 7891));
    let error = drive(&mut proxy, first, &mut system).unwrap_err();
    assert!(error.message.contains("socks proxy failed"));
    assert!(system.record.is_none());
    // The failed write, then every setting of the service written back, then
    // one read that checks the result.
    assert_eq!(system.writes.len(), 6);
    let restored: Vec<_> = system.writes.iter().skip(1).map(touches).collect();
    assert_eq!(
        restored,
        [
            ("Wi-Fi", "web"),
            ("Wi-Fi", "secure web"),
            ("Wi-Fi", "socks"),
            ("Wi-Fi", "automatic proxy"),
            ("Wi-Fi", "bypass domains"),
        ]
    );
    assert_eq!(system.service_reads, 1);
    assert_eq!(system.services, before);
}
