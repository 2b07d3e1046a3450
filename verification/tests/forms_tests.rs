use verge::domain::{
    AppError, ApplicationSettings, AutoProxyState, ErrorCode, ProfileId, ProfileSource, ProxyEndpoint, ProxyProtocolState,
    SettingsImportPreview, SystemProxyServiceState, SystemProxyState, UpdatePolicy,
};
use verge::forms::{
    import_profile, import_remote_profile, preview_settings_import, profile_details, proxy_draft, proxy_host,
    proxy_status, set_update_interval, split_bypass, ProfileDetails, ProxyDraft, ProxyStatus,
};
use verge::text::parse_u64;
use verge::ui::{UiAction, UiState};

fn id(value: &str) -> ProfileId {
    ProfileId::parse(value).unwrap()
}

fn protocol(enabled: bool, host: &str, port: u16) -> ProxyProtocolState {
    ProxyProtocolState { enabled, endpoint: ProxyEndpoint { host: host.into(), port } }
}

fn service(name: &str) -> SystemProxyServiceState {
    SystemProxyServiceState {
        service: name.into(),
        web: protocol(false, "", 0),
        secure_web: protocol(false, "", 0),
        socks: protocol(false, "", 0),
        auto_proxy: AutoProxyState { enabled: false, url: None },
        bypass: Vec::new(),
    }
}

#[test]
fn local_import_dispatches_a_manual_local_profile() {
    let mut state = UiState::default();
    let action = import_profile(&mut state, "home", "Home", "mode: rule\n").unwrap();
    assert_eq!(
        action,
        UiAction::ImportProfile {
            id: id("home"),
            name: "Home".into(),
            yaml: "mode: rule\n".into(),
            source: ProfileSource::Local,
            update_policy: UpdatePolicy::Manual,
        }
    );
    assert!(state.last_error.is_none());
}

#[test]
fn malformed_profile_id_is_shown_and_returned() {
    let mut state = UiState::default();
    let error = import_profile(&mut state, "", "Home", "").unwrap_err();
    assert_eq!(error.code, ErrorCode::InvalidInput);
    assert_eq!(error.message, "profile id must be non-empty and contain no control characters");
    assert_eq!(state.last_error, Some(error));
    let mut state = UiState::default();
    assert!(import_profile(&mut state, "bad\tid", "Home", "").is_err());
}

#[test]
fn remote_import_reads_interval_and_optional_user_agent() {
    let mut state = UiState::default();
    let action =
        import_remote_profile(&mut state, "remote", "Remote", "https://example.com/sub", "+3600", "  clash  ")
            .unwrap();
    assert_eq!(
        action,
        UiAction::ImportRemoteProfile {
            id: id("remote"),
            name: "Remote".into(),
            url: "https://example.com/sub".into(),
            update_policy: UpdatePolicy::Interval { seconds: 3600 },
            user_agent: Some("clash".into()),
        }
    );
    let action = import_remote_profile(&mut state, "remote", "Remote", "u", "60", " \t ").unwrap();
    assert!(matches!(action, UiAction::ImportRemoteProfile { user_agent: None, .. }));
    assert!(state.last_error.is_none());
}

#[test]
fn remote_import_rejects_intervals_that_are_not_positive_integers() {
    for interval in ["0", "", " 60", "-1", "1.5", "18446744073709551616"] {
        let mut state = UiState::default();
        let error = import_remote_profile(&mut state, "remote", "Remote", "u", interval, "").unwrap_err();
        assert_eq!(error, AppError::new(ErrorCode::InvalidInput, "update interval must be a positive integer"));
        assert_eq!(state.last_error, Some(error));
    }
    // The identifier is checked first.
    let mut state = UiState::default();
    let error = import_remote_profile(&mut state, "", "Remote", "u", "0", "").unwrap_err();
    assert_eq!(error.message, "profile id must be non-empty and contain no control characters");
}

#[test]
fn update_interval_dialog_sets_the_policy_of_its_profile() {
    let mut state = UiState::default();
    let action = set_update_interval(&mut state, id("home"), "86400").unwrap();
    assert_eq!(
        action,
        UiAction::SetProfileUpdatePolicy { id: id("home"), update_policy: UpdatePolicy::Interval { seconds: 86400 } }
    );
    let error = set_update_interval(&mut state, id("home"), "0").unwrap_err();
    assert_eq!(error.message, "update interval must be a positive integer");
    assert_eq!(state.last_error, Some(error));
}

#[test]
fn settings_import_preview_needs_a_path_and_drops_the_old_preview() {
    let mut state = UiState::default();
    state.settings_import_preview =
        Some(SettingsImportPreview { settings: ApplicationSettings::default_settings(), changes: Vec::new() });
    let action = preview_settings_import(&mut state, "  /tmp/settings.json \n").unwrap();
    assert_eq!(action, UiAction::PreviewSettingsImport { source: "/tmp/settings.json".into() });
    assert!(state.settings_import_preview.is_none());
    let error = preview_settings_import(&mut state, " \t").unwrap_err();
    assert_eq!(error.code, ErrorCode::InvalidInput);
    assert_eq!(error.message, "settings_import.empty_path");
    assert_eq!(state.last_error, Some(error));
}

#[test]
fn unsigned_numbers_read_as_the_standard_parser_reads_them() {
    assert_eq!(parse_u64("0"), Some(0));
    assert_eq!(parse_u64("+42"), Some(42));
    assert_eq!(parse_u64("18446744073709551615"), Some(u64::MAX));
    assert_eq!(parse_u64("18446744073709551616"), None);
    for text in ["", "+", "-1", " 1", "1 ", "1_000", "0x10"] {
        assert_eq!(parse_u64(text), None, "{text:?}");
        assert_eq!(parse_u64(text), text.parse::<u64>().ok());
    }
}

#[test]
fn proxy_dialog_strips_brackets_and_splits_bypass_entries() {
    assert_eq!(proxy_host("  [::1]  "), "::1");
    assert_eq!(proxy_host("[[host]]"), "host");
    assert_eq!(proxy_host("127.0.0.1"), "127.0.0.1");
    assert_eq!(proxy_host(" [ "), "");
    assert_eq!(split_bypass("localhost, *.local;\n 10.0.0.0/8\r\n,,  "), ["localhost", "*.local", "10.0.0.0/8"]);
    assert!(split_bypass("").is_empty());
    let draft = proxy_draft(" [fe80::1] ", " 30 ", "a;b", "function FindProxyForURL() {}").unwrap();
    assert_eq!(
        draft,
        ProxyDraft {
            host: "fe80::1".into(),
            guard_interval_secs: 30,
            bypass: vec!["a".into(), "b".into()],
            pac_script: "function FindProxyForURL() {}".into(),
        }
    );
    assert_eq!(proxy_draft("h", " 0 ", "", "").unwrap().guard_interval_secs, 0);
    assert!(proxy_draft("h", "thirty", "", "").is_none());
}

#[test]
fn proxy_status_sums_up_the_services() {
    assert_eq!(proxy_status(&None), ProxyStatus::NotLoaded);
    let empty = SystemProxyState { services: Vec::new(), recovery_pending: false };
    assert_eq!(proxy_status(&Some(empty)), ProxyStatus::NotSet);

    let mut on = service("Wi-Fi");
    on.web = protocol(true, "127.0.0.1", 7897);
    on.secure_web = protocol(true, "127.0.0.1", 7897);
    let state = SystemProxyState { services: vec![on.clone()], recovery_pending: false };
    assert_eq!(proxy_status(&Some(state)), ProxyStatus::Enabled { host: "127.0.0.1".into(), port: 7897 });

    let mut pac = on.clone();
    pac.auto_proxy = AutoProxyState { enabled: true, url: Some("http://127.0.0.1:33331/pac".into()) };
    let state = SystemProxyState { services: vec![pac], recovery_pending: false };
    assert_eq!(proxy_status(&Some(state)), ProxyStatus::Pac { url: "http://127.0.0.1:33331/pac".into() });

    let mut socks = service("Ethernet");
    socks.socks = protocol(true, "127.0.0.1", 7891);
    let state = SystemProxyState { services: vec![on, socks], recovery_pending: false };
    assert_eq!(proxy_status(&Some(state)), ProxyStatus::Partial);

    let state = SystemProxyState { services: vec![service("Wi-Fi")], recovery_pending: false };
    assert_eq!(proxy_status(&Some(state)), ProxyStatus::Disabled);
}

#[test]
fn profile_details_form_checks_interval_then_name() {
    let remote = profile_details(id("r"), true, "Remote", " https://example.com/sub ", " 3600 ", " clash ").unwrap();
    assert_eq!(
        remote,
        ProfileDetails {
            id: id("r"),
            name: "Remote".into(),
            source: ProfileSource::Remote,
            url: Some("https://example.com/sub".into()),
            update_policy: UpdatePolicy::Interval { seconds: 3600 },
            user_agent: Some("clash".into()),
        }
    );
    let blank = profile_details(id("r"), true, "Remote", "u", "  ", " ").unwrap();
    assert_eq!(blank.update_policy, UpdatePolicy::Manual);
    assert_eq!(blank.user_agent, None);
    let local = profile_details(id("l"), false, "Local", "ignored", "0", "agent").unwrap();
    assert_eq!((local.url, local.update_policy, local.user_agent), (None, UpdatePolicy::Manual, None));
    let error = profile_details(id("r"), true, "", "u", "0", "").unwrap_err();
    assert_eq!((error.code, error.message.as_str()), (ErrorCode::InvalidInput, "profile.interval_optional"));
    let error = profile_details(id("r"), true, "", "u", "60", "").unwrap_err();
    assert_eq!(error.message, "profile name must be non-empty and contain no control characters");
}
