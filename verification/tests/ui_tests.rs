use verge::domain::{
    AppCommand, AppCommandOutput, AppCommandResult, AppError, AppUpdateStatus, ApplicationSettings,
    AutoProxyState, CommandActor, CommandContext, ConnectionSnapshot, ErrorCode, LogEvent, Profile,
    ProfileId, ProfileSource, ProxyEndpoint, ProxyGroup, ProxyProtocolState, RealtimeEvent, RealtimeTopic,
    RunMode, RuntimeCommand, RuntimeCommandOutput, RuntimeCommandResult, SettingsFieldChange,
    SettingsImportPreview, SettingsScope, SystemProxyCommand, SystemProxyCommandResult,
    SystemProxyServiceState, SystemProxyState, TrafficEvent, UpdatePolicy,
};
use verge::ui::{
    is_write_request, request_key, CoreStatus, Page, RequestKey, UiAction, UiRequest, UiRequestEnvelope,
    UiResponse, UiResponseEnvelope, UiState,
};

fn envelope(request_id: u64) -> UiRequestEnvelope {
    UiRequestEnvelope {
        request_id,
        operation_id: request_id,
        operation_index: 0,
        operation_len: 1,
        context: CommandContext { actor: CommandActor::UserInterface, approval: None },
        request: UiRequest::Runtime(RuntimeCommand::GetMode),
    }
}

fn mode_response(request_id: u64, mode: RunMode) -> UiResponseEnvelope {
    UiResponseEnvelope {
        request_id: Some(request_id),
        operation_id: Some(request_id),
        response: UiResponse::Runtime {
            request: RuntimeCommand::GetMode,
            result: Ok(RuntimeCommandResult { output: RuntimeCommandOutput::Mode(mode), summary: "loaded".into() }),
        },
    }
}

#[test]
fn duplicate_pending_requests_remain_pending_until_all_finish() {
    let mut state = UiState::default();
    state.begin_envelope(&envelope(1));
    state.begin_envelope(&envelope(2));

    state.apply_response_envelope(mode_response(1, RunMode::Rule));
    assert!(state.is_pending(RequestKey::Mode));
    assert_eq!(state.mode, None, "stale read must not overwrite newer intent");

    state.apply_response_envelope(mode_response(2, RunMode::Global));
    assert!(!state.is_pending(RequestKey::Mode));
    assert_eq!(state.mode, Some(RunMode::Global));
}

#[test]
fn home_refresh_only_dispatches_typed_application_commands() {
    assert_eq!(
        UiAction::RefreshHome.requests(),
        [
            UiRequest::Profile(AppCommand::GetRuntimeSettings),
            UiRequest::Runtime(RuntimeCommand::GetMode),
            UiRequest::SystemProxy(SystemProxyCommand::GetState),
            UiRequest::Runtime(RuntimeCommand::StartRealtime {
                topics: vec![
                    RealtimeTopic::Traffic,
                    RealtimeTopic::Memory,
                    RealtimeTopic::Connections,
                    RealtimeTopic::Logs,
                ]
            })
        ]
    );
}

#[test]
fn runtime_results_update_stable_ui_state() {
    let mut state = UiState::default();
    let request = RuntimeCommand::GetMode;
    state.begin(&UiRequest::Runtime(request.clone()));
    state.apply_runtime(
        &request,
        RuntimeCommandResult { output: RuntimeCommandOutput::Mode(RunMode::Global), summary: "loaded".into() },
    );
    state.apply_realtime(RealtimeEvent::Traffic(TrafficEvent { up: 10, down: 20 }));
    assert_eq!(state.mode, Some(RunMode::Global));
    assert_eq!(state.traffic, Some(TrafficEvent { up: 10, down: 20 }));
    assert_eq!(state.core_status, CoreStatus::Running);
    assert!(!state.is_pending(RequestKey::Mode));
}

#[test]
fn profile_results_update_list_selection_and_editor() {
    let id = ProfileId::parse("daily").unwrap();
    let profile = Profile::new(id.clone(), "Daily", ProfileSource::Local, UpdatePolicy::Manual, 100, None).unwrap();
    let mut state = UiState::default();
    state.apply_profile(
        &AppCommand::ListProfiles,
        AppCommandResult {
            output: AppCommandOutput::Profiles { profiles: vec![profile], selected: Some(id.clone()) },
            summary: "loaded".into(),
        },
    );
    state.apply_profile(
        &AppCommand::GetProfileYaml { id: id.clone() },
        AppCommandResult {
            output: AppCommandOutput::ProfileYaml { id: id.clone(), yaml: "mode: rule\n".into() },
            summary: "loaded".into(),
        },
    );
    assert_eq!(state.selected_profile, Some(id.clone()));
    assert_eq!(state.profiles.len(), 1);
    assert_eq!(state.profile_yaml, Some((id, "mode: rule\n".into())));
}

#[test]
fn realtime_connections_and_logs_are_bounded_in_ui_state() {
    let mut state = UiState::default();
    state.apply_realtime(RealtimeEvent::Connections(ConnectionSnapshot {
        upload_total: 10,
        download_total: 20,
        connection_count: 2,
        connections: Vec::new(),
    }));
    for index in 0..501 {
        state.apply_realtime(RealtimeEvent::Log(LogEvent { level: "info".into(), payload: index.to_string() }));
    }
    assert_eq!(state.connections.as_ref().unwrap().connection_count, 2);
    assert_eq!(state.logs.len(), 500);
    assert_eq!(state.logs.first().unwrap().payload, "1");
    assert_eq!(state.logs.last().unwrap().payload, "500");
}

#[test]
fn selected_proxy_and_delay_are_merged_without_reloading_the_page() {
    let mut state = UiState::default();
    state.proxy_groups = vec![ProxyGroup {
        name: "Select".into(),
        kind: "Selector".into(),
        selected: Some("A".into()),
        members: vec!["A".into(), "B".into()],
    }];
    let selection = RuntimeCommand::SelectProxy { group: "Select".into(), proxy: "B".into() };
    state.apply_runtime(
        &selection,
        RuntimeCommandResult { output: RuntimeCommandOutput::Empty, summary: "selected".into() },
    );
    let delay = RuntimeCommand::TestProxyDelay {
        proxy: "B".into(),
        url: "https://example.com".into(),
        timeout_ms: 5_000,
    };
    state.apply_runtime(&delay, RuntimeCommandResult { output: RuntimeCommandOutput::Delay(42), summary: "tested".into() });
    assert_eq!(state.proxy_groups[0].selected.as_deref(), Some("B"));
    assert_eq!(state.delay("B"), Some(42));
}

#[test]
fn successful_profile_selection_updates_ui_before_follow_up_reads() {
    let id = ProfileId::parse("daily").unwrap();
    let mut state = UiState::default();
    state.apply_profile(
        &AppCommand::SelectProfile { id: id.clone() },
        AppCommandResult { output: AppCommandOutput::Empty, summary: "selected".into() },
    );
    assert_eq!(state.selected_profile, Some(id));
}

#[test]
fn profile_selection_requests_runtime_confirmation() {
    let id = ProfileId::parse("daily").unwrap();
    let requests = UiAction::SelectProfile(id).requests();
    assert!(matches!(requests.last(), Some(UiRequest::Runtime(RuntimeCommand::GetMode))));
}

#[test]
fn settings_transfer_actions_map_to_profile_commands() {
    let export = UiAction::ExportApplicationSettings { destination: "/tmp/settings.json".into() }.requests();
    assert_eq!(
        export,
        [UiRequest::Profile(AppCommand::ExportApplicationSettings { destination: "/tmp/settings.json".into() })]
    );

    let preview = UiAction::PreviewSettingsImport { source: "/tmp/settings.json".into() }.requests();
    assert!(matches!(
        preview.as_slice(),
        [UiRequest::Profile(AppCommand::PreviewApplicationSettingsImport { .. })]
    ));
    assert!(!is_write_request(&preview[0]));

    for action in [
        UiAction::ImportApplicationSettings { source: "/tmp/settings.json".into() },
        UiAction::ResetSettingsScope(SettingsScope::Network),
    ] {
        let requests = action.requests();
        assert_eq!(requests.len(), 1);
        assert!(is_write_request(&requests[0]));
    }
}

#[test]
fn settings_import_preview_is_stored_for_confirmation_dialog() {
    let mut state = UiState::default();
    let preview = SettingsImportPreview {
        settings: ApplicationSettings::default_settings(),
        changes: vec![SettingsFieldChange { field: "theme".into(), old: "system".into(), new: "dark".into() }],
    };
    state.apply_profile(
        &AppCommand::PreviewApplicationSettingsImport { source: "/tmp/settings.json".into() },
        AppCommandResult {
            output: AppCommandOutput::ApplicationSettingsImportPreview(preview.clone()),
            summary: "preview".into(),
        },
    );
    assert_eq!(state.settings_import_preview, Some(preview));
}

#[test]
fn settings_refresh_loads_system_proxy_state() {
    let requests = UiAction::RefreshSettings.requests();
    assert!(requests.contains(&UiRequest::SystemProxy(SystemProxyCommand::GetState)));
    assert!(requests.contains(&UiRequest::Profile(AppCommand::GetRuntimeSettings)));
}

#[test]
fn app_update_actions_map_to_typed_commands_and_update_state() {
    assert_eq!(UiAction::CheckAppUpdate.requests(), [UiRequest::Profile(AppCommand::CheckAppUpdate)]);
    assert!(!is_write_request(&UiAction::CheckAppUpdate.requests()[0]));
    for action in [UiAction::UpdateApplication, UiAction::RestartApplication] {
        let requests = action.requests();
        assert_eq!(requests.len(), 1);
        assert_eq!(request_key(&requests[0]).name(), "app_update_write");
        assert!(is_write_request(&requests[0]));
    }

    let mut state = UiState::default();
    state.apply_profile(
        &AppCommand::CheckAppUpdate,
        AppCommandResult {
            output: AppCommandOutput::AppUpdateStatus(AppUpdateStatus {
                current_version: Some("0.1.0".into()),
                latest_version: "0.2.0".into(),
                update_available: true,
                asset_url: "https://github.com/zzzgydi/verge/releases/download/v0.2.0/Verge-macos-arm64.zip".into(),
            }),
            summary: "checked".into(),
        },
    );
    assert!(state.app_update.as_ref().unwrap().update_available);
    state.apply_profile(
        &AppCommand::UpdateApplication,
        AppCommandResult {
            output: AppCommandOutput::ApplicationUpdated { version: "0.2.0".into(), restart_required: true },
            summary: "updated".into(),
        },
    );
    assert_eq!(state.app_update_installed.as_deref(), Some("0.2.0"));
    assert!(state.app_update.is_none());
}

#[test]
fn helper_install_and_uninstall_actions_refresh_status_afterwards() {
    for (action, command) in [
        (UiAction::InstallHelper, AppCommand::InstallHelper),
        (UiAction::UninstallHelper, AppCommand::UninstallHelper),
    ] {
        let requests = action.requests();
        assert_eq!(requests, [UiRequest::Profile(command), UiRequest::Profile(AppCommand::GetHelperStatus)]);
        assert_eq!(request_key(&requests[0]).name(), "helper_write");
    }
}

#[test]
fn socks_pac_and_bypass_actions_map_to_privileged_system_proxy_writes() {
    let endpoint = ProxyEndpoint::new("127.0.0.1", 7891).unwrap();
    let socks = UiAction::SetSocksProxy { enabled: true, endpoint: endpoint.clone() }.requests();
    assert_eq!(socks, [UiRequest::SystemProxy(SystemProxyCommand::SetSocks { enabled: true, endpoint })]);
    assert!(is_write_request(&socks[0]));

    let pac = UiAction::SetAutoProxy { url: Some("http://127.0.0.1/proxy.pac".into()) }.requests();
    assert!(matches!(
        pac.as_slice(),
        [UiRequest::SystemProxy(SystemProxyCommand::SetAutoProxy { url: Some(_) })]
    ));
    assert!(is_write_request(&pac[0]));

    let bypass = UiAction::SetProxyBypass { domains: vec!["*.local".into()] }.requests();
    assert!(matches!(
        bypass.as_slice(),
        [UiRequest::SystemProxy(SystemProxyCommand::SetProxyBypass { .. })]
    ));
    assert!(is_write_request(&bypass[0]));
}

#[test]
fn system_proxy_requires_all_managed_protocols_to_match() {
    let endpoint = ProxyEndpoint::new("127.0.0.1", 7890).unwrap();
    let mut state = UiState::default();
    state.apply_system_proxy(
        &SystemProxyCommand::GetState,
        SystemProxyCommandResult {
            state: SystemProxyState {
                services: vec![SystemProxyServiceState {
                    service: "Wi-Fi".into(),
                    web: ProxyProtocolState { enabled: true, endpoint: endpoint.clone() },
                    secure_web: ProxyProtocolState { enabled: true, endpoint },
                    socks: ProxyProtocolState {
                        enabled: false,
                        endpoint: ProxyEndpoint::new("127.0.0.1", 7891).unwrap(),
                    },
                    auto_proxy: AutoProxyState { enabled: false, url: None },
                    bypass: Vec::new(),
                }],
                recovery_pending: true,
            },
            summary: "loaded".into(),
        },
    );
    assert!(state.system_proxy_enabled());
}

#[test]
fn failed_runtime_request_marks_core_offline_and_keeps_error_code() {
    let mut state = UiState::default();
    let request = UiRequest::Runtime(RuntimeCommand::ListProxyGroups);
    state.begin(&request);
    state.fail(&request, AppError::new(ErrorCode::CoreUnavailable, "offline"));
    assert_eq!(state.core_status, CoreStatus::Offline);
    assert_eq!(state.last_error.unwrap().code, ErrorCode::CoreUnavailable);
}

#[test]
fn delay_pending_is_tracked_per_proxy() {
    let mut state = UiState::default();
    let test_a = UiRequest::Runtime(RuntimeCommand::TestProxyDelay {
        proxy: "A".into(),
        url: "https://example.com".into(),
        timeout_ms: 5_000,
    });
    let test_b = UiRequest::Runtime(RuntimeCommand::TestProxyDelay {
        proxy: "B".into(),
        url: "https://example.com".into(),
        timeout_ms: 5_000,
    });
    state.begin(&test_a);
    state.begin(&test_b);
    assert!(state.is_delay_pending("A"));
    assert!(state.is_delay_pending("B"));

    state.apply_response(UiResponse::Runtime {
        request: RuntimeCommand::TestProxyDelay {
            proxy: "A".into(),
            url: "https://example.com".into(),
            timeout_ms: 5_000,
        },
        result: Ok(RuntimeCommandResult { output: RuntimeCommandOutput::Delay(42), summary: "tested".into() }),
    });
    assert!(!state.is_delay_pending("A"));
    assert_eq!(state.delay("A"), Some(42));
    assert!(state.is_delay_pending("B"));

    state.fail(&test_b, AppError::new(ErrorCode::CoreUnavailable, "offline"));
    assert!(!state.is_delay_pending("B"));
    assert_eq!(state.delay("B"), None);
}

#[test]
fn read_failure_does_not_mask_earlier_write_failure() {
    let id = ProfileId::parse("daily").unwrap();
    let write = UiRequest::Profile(AppCommand::SelectProfile { id });
    let follow_up = UiRequest::Profile(AppCommand::GetRuntimeSettings);
    let mut state = UiState::default();
    state.begin(&write);
    state.begin(&follow_up);
    state.fail(&write, AppError::new(ErrorCode::ValidationFailed, "sidecar missing"));
    state.fail(&follow_up, AppError::new(ErrorCode::NotFound, "no active profile"));
    assert_eq!(
        state.last_error.as_ref().unwrap().message,
        "sidecar missing",
        "secondary read failure must not overwrite the write failure"
    );

    state.clear_error();
    state.fail(&follow_up, AppError::new(ErrorCode::NotFound, "no active profile"));
    assert_eq!(
        state.last_error.unwrap().message,
        "no active profile",
        "read failure is shown when no write failure is pending"
    );
}

#[test]
fn background_responses_share_one_reducer_path() {
    let mut state = UiState::default();
    let request = RuntimeCommand::GetMode;
    state.begin(&UiRequest::Runtime(request.clone()));
    state.apply_response(UiResponse::Runtime {
        request,
        result: Ok(RuntimeCommandResult { output: RuntimeCommandOutput::Mode(RunMode::Direct), summary: "loaded".into() }),
    });
    assert_eq!(state.mode, Some(RunMode::Direct));
    assert_eq!(state.core_status, CoreStatus::Running);
}

#[test]
fn merge_actions_map_to_typed_commands_and_update_state() {
    let save = UiAction::SaveMergeConfig { yaml: "rules: []\n".into() }.requests();
    assert!(matches!(
        save.as_slice(),
        [
            UiRequest::Profile(AppCommand::UpdateMergeConfig { .. }),
            UiRequest::Profile(AppCommand::GetMergeConfig)
        ]
    ));
    assert!(is_write_request(&save[0]));

    let id = ProfileId::parse("daily").unwrap();
    let preview = UiAction::LoadMergedYaml(id.clone()).requests();
    assert!(matches!(preview.as_slice(), [UiRequest::Profile(AppCommand::GetMergedProfileYaml { id: _ })]));

    let mut state = UiState::default();
    state.apply_profile(
        &AppCommand::GetMergeConfig,
        AppCommandResult { output: AppCommandOutput::MergeConfigYaml { yaml: "rules: []\n".into() }, summary: "loaded".into() },
    );
    state.apply_profile(
        &AppCommand::GetMergedProfileYaml { id: id.clone() },
        AppCommandResult {
            output: AppCommandOutput::MergedProfileYaml { id: id.clone(), yaml: "mode: global\n".into() },
            summary: "loaded".into(),
        },
    );
    assert_eq!(state.merge_yaml.as_deref(), Some("rules: []\n"));
    assert_eq!(state.merged_yaml, Some((id, "mode: global\n".into())));
}

#[test]
fn navigation_changes_only_the_page() {
    let mut state = UiState::default();
    state.navigate(Page::Logs);
    assert_eq!(state.page, Page::Logs);
    assert_eq!(state.mode, None);
    assert_eq!(UiAction::Navigate(Page::Rules).requests(), Vec::<UiRequest>::new());
}
