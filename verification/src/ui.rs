//! The UI state reducer: user actions become typed requests, and responses
//! (including realtime events) are folded into the state the views render.
use vstd::prelude::*;

use crate::domain::{
    AppCommand, AppCommandOutput, AppCommandResult, AppError, AppUpdateStatus,
    ApplicationSettingsSnapshot, CommandContext, ConnectionSnapshot, HelperStatus, LogEvent,
    MemoryEvent, NetworkSettings, Profile, ProfileId, ProviderSummary, ProxyEndpoint, ProxyGroup,
    RealtimeEvent, RealtimeTopic, RuleEntry, RunMode, RuntimeCommand, RuntimeCommandOutput,
    RuntimeCommandResult, RuntimeSettings, SettingsImportPreview, SystemProxyCommand,
    SystemProxyCommandResult, SystemProxyState, TrafficEvent, ApplicationSettings, ProfileSource,
    UpdatePolicy, SettingsScope, ProviderKind, unified_on,
};

pub mod tables;
pub mod laws;

use tables::{
    id_map, id_map_has_value, id_map_insert, id_map_remove, ids_unique, key_map, key_map_get,
    key_map_insert, key_map_remove, key_set, key_set_contains, key_set_insert, key_set_remove,
    keys_unique, name_map, name_map_get, name_map_insert, name_set, name_set_contains,
    name_set_insert, name_set_remove, names_unique, pair_names_unique,
};

verus! {

#[derive(Clone, Copy, Debug, PartialEq, Eq)]
pub enum Page {
    Home,
    Proxies,
    Profiles,
    Connections,
    Rules,
    Logs,
    Settings,
}

impl Default for Page {
    fn default() -> (p: Self)
        ensures
            p == Page::Home,
    {
        Page::Home
    }
}

#[derive(Clone, Copy, Debug, PartialEq, Eq)]
pub enum CoreStatus {
    Unknown,
    Running,
    Offline,
}

impl Default for CoreStatus {
    fn default() -> (s: Self)
        ensures
            s == CoreStatus::Unknown,
    {
        CoreStatus::Unknown
    }
}

#[derive(Clone, Debug, PartialEq, Eq)]
pub enum UiRequest {
    Profile(AppCommand),
    Runtime(RuntimeCommand),
    SystemProxy(SystemProxyCommand),
}

#[derive(Clone, Debug, PartialEq, Eq)]
pub struct UiRequestEnvelope {
    pub request_id: u64,
    pub operation_id: u64,
    pub operation_index: usize,
    pub operation_len: usize,
    pub context: CommandContext,
    pub request: UiRequest,
}

#[derive(Debug, PartialEq, Eq)]
pub enum UiResponse {
    Profile { request: AppCommand, result: Result<AppCommandResult, AppError> },
    Runtime { request: RuntimeCommand, result: Result<RuntimeCommandResult, AppError> },
    SystemProxy { request: SystemProxyCommand, result: Result<SystemProxyCommandResult, AppError> },
    Realtime(RealtimeEvent),
}

#[derive(Debug, PartialEq, Eq)]
pub struct UiResponseEnvelope {
    pub request_id: Option<u64>,
    pub operation_id: Option<u64>,
    pub response: UiResponse,
}

impl UiResponseEnvelope {
    pub fn for_request(request: &UiRequestEnvelope, response: UiResponse) -> (r: Self)
        ensures
            r.request_id == Some(request.request_id),
            r.operation_id == Some(request.operation_id),
            r.response == response,
    {
        UiResponseEnvelope {
            request_id: Some(request.request_id),
            operation_id: Some(request.operation_id),
            response,
        }
    }

    pub fn realtime(response: UiResponse) -> (r: Self)
        ensures
            r.request_id is None,
            r.operation_id is None,
            r.response == response,
    {
        UiResponseEnvelope { request_id: None, operation_id: None, response }
    }
}

/// The class of a request: requests of one class read or write the same state.
#[derive(Clone, Copy, Debug, PartialEq, Eq, Structural)]
pub enum RequestKey {
    RuntimeSettings,
    ApplicationSettings,
    HelperStatus,
    AppUpdate,
    AppUpdateWrite,
    ApplicationLifecycleWrite,
    HelperWrite,
    ApplicationSettingsWrite,
    SettingsImportPreview,
    Profiles,
    ProfileYaml,
    MergeConfig,
    MergedYaml,
    ProfileWrite,
    Mode,
    ProxyGroups,
    Rules,
    Providers,
    ProviderWrite,
    NetworkSettings,
    NetworkSettingsWrite,
    SelectProxy,
    Delay,
    ConnectionsWrite,
    Realtime,
    SystemProxy,
}

impl RequestKey {
    pub open spec fn key_name(self) -> Seq<char> {
        match self {
            RequestKey::RuntimeSettings => "runtime_settings"@,
            RequestKey::ApplicationSettings => "application_settings"@,
            RequestKey::HelperStatus => "helper_status"@,
            RequestKey::AppUpdate => "app_update"@,
            RequestKey::AppUpdateWrite => "app_update_write"@,
            RequestKey::ApplicationLifecycleWrite => "application_lifecycle_write"@,
            RequestKey::HelperWrite => "helper_write"@,
            RequestKey::ApplicationSettingsWrite => "application_settings_write"@,
            RequestKey::SettingsImportPreview => "settings_import_preview"@,
            RequestKey::Profiles => "profiles"@,
            RequestKey::ProfileYaml => "profile_yaml"@,
            RequestKey::MergeConfig => "merge_config"@,
            RequestKey::MergedYaml => "merged_yaml"@,
            RequestKey::ProfileWrite => "profile_write"@,
            RequestKey::Mode => "mode"@,
            RequestKey::ProxyGroups => "proxy_groups"@,
            RequestKey::Rules => "rules"@,
            RequestKey::Providers => "providers"@,
            RequestKey::ProviderWrite => "provider_write"@,
            RequestKey::NetworkSettings => "network_settings"@,
            RequestKey::NetworkSettingsWrite => "network_settings_write"@,
            RequestKey::SelectProxy => "select_proxy"@,
            RequestKey::Delay => "delay"@,
            RequestKey::ConnectionsWrite => "connections_write"@,
            RequestKey::Realtime => "realtime"@,
            RequestKey::SystemProxy => "system_proxy"@,
        }
    }

    /// The classes whose name ends in `_write`.
    pub open spec fn is_write_key(self) -> bool {
        match self {
            RequestKey::AppUpdateWrite | RequestKey::ApplicationLifecycleWrite
            | RequestKey::HelperWrite | RequestKey::ApplicationSettingsWrite
            | RequestKey::ProfileWrite | RequestKey::ProviderWrite
            | RequestKey::NetworkSettingsWrite | RequestKey::ConnectionsWrite => true,
            _ => false,
        }
    }

    pub fn name(&self) -> (s: &'static str)
        ensures
            s@ == self.key_name(),
    {
        match self {
            RequestKey::RuntimeSettings => "runtime_settings",
            RequestKey::ApplicationSettings => "application_settings",
            RequestKey::HelperStatus => "helper_status",
            RequestKey::AppUpdate => "app_update",
            RequestKey::AppUpdateWrite => "app_update_write",
            RequestKey::ApplicationLifecycleWrite => "application_lifecycle_write",
            RequestKey::HelperWrite => "helper_write",
            RequestKey::ApplicationSettingsWrite => "application_settings_write",
            RequestKey::SettingsImportPreview => "settings_import_preview",
            RequestKey::Profiles => "profiles",
            RequestKey::ProfileYaml => "profile_yaml",
            RequestKey::MergeConfig => "merge_config",
            RequestKey::MergedYaml => "merged_yaml",
            RequestKey::ProfileWrite => "profile_write",
            RequestKey::Mode => "mode",
            RequestKey::ProxyGroups => "proxy_groups",
            RequestKey::Rules => "rules",
            RequestKey::Providers => "providers",
            RequestKey::ProviderWrite => "provider_write",
            RequestKey::NetworkSettings => "network_settings",
            RequestKey::NetworkSettingsWrite => "network_settings_write",
            RequestKey::SelectProxy => "select_proxy",
            RequestKey::Delay => "delay",
            RequestKey::ConnectionsWrite => "connections_write",
            RequestKey::Realtime => "realtime",
            RequestKey::SystemProxy => "system_proxy",
        }
    }
}

pub open spec fn profile_key(c: AppCommand) -> RequestKey {
    match c {
        AppCommand::GetRuntimeSettings => RequestKey::RuntimeSettings,
        AppCommand::GetApplicationSettings => RequestKey::ApplicationSettings,
        AppCommand::GetHelperStatus => RequestKey::HelperStatus,
        AppCommand::CheckAppUpdate => RequestKey::AppUpdate,
        AppCommand::UpdateApplication | AppCommand::RestartApplication => RequestKey::AppUpdateWrite,
        AppCommand::QuitApplication => RequestKey::ApplicationLifecycleWrite,
        AppCommand::InstallHelper | AppCommand::UninstallHelper => RequestKey::HelperWrite,
        AppCommand::UpdateApplicationSettings { .. } | AppCommand::ExportApplicationSettings { .. }
        | AppCommand::ImportApplicationSettings { .. }
        | AppCommand::ResetApplicationSettingsScope { .. } | AppCommand::ExportDiagnostics { .. }
        | AppCommand::ExportEncryptedBackup { .. } | AppCommand::RestoreEncryptedBackup { .. }
        | AppCommand::UpdateMihomo => RequestKey::ApplicationSettingsWrite,
        AppCommand::PreviewApplicationSettingsImport { .. } => RequestKey::SettingsImportPreview,
        AppCommand::ListProfiles => RequestKey::Profiles,
        AppCommand::GetProfileYaml { .. } => RequestKey::ProfileYaml,
        AppCommand::GetMergeConfig => RequestKey::MergeConfig,
        AppCommand::GetMergedProfileYaml { .. } => RequestKey::MergedYaml,
        AppCommand::ImportProfile { .. } | AppCommand::ImportRemoteProfile { .. }
        | AppCommand::SelectProfile { .. } | AppCommand::UpdateProfileYaml { .. }
        | AppCommand::UpdateMergeConfig { .. } | AppCommand::UpdateRemoteProfile { .. }
        | AppCommand::SetProfileUpdatePolicy { .. } | AppCommand::DeleteProfile { .. } => RequestKey::ProfileWrite,
    }
}

pub open spec fn runtime_key(c: RuntimeCommand) -> RequestKey {
    match c {
        RuntimeCommand::GetMode | RuntimeCommand::SetMode { .. } => RequestKey::Mode,
        RuntimeCommand::ListProxyGroups => RequestKey::ProxyGroups,
        RuntimeCommand::ListRules => RequestKey::Rules,
        RuntimeCommand::ListProviders => RequestKey::Providers,
        RuntimeCommand::UpdateProvider { .. } => RequestKey::ProviderWrite,
        RuntimeCommand::GetNetworkSettings => RequestKey::NetworkSettings,
        RuntimeCommand::SetNetworkSettings { .. } => RequestKey::NetworkSettingsWrite,
        RuntimeCommand::SelectProxy { .. } => RequestKey::SelectProxy,
        RuntimeCommand::TestProxyDelay { .. } => RequestKey::Delay,
        RuntimeCommand::CloseConnection { .. } => RequestKey::ConnectionsWrite,
        RuntimeCommand::StartRealtime { .. } | RuntimeCommand::StopRealtime
        | RuntimeCommand::DrainRealtime => RequestKey::Realtime,
    }
}

pub open spec fn key_of(r: UiRequest) -> RequestKey {
    match r {
        UiRequest::Profile(c) => profile_key(c),
        UiRequest::Runtime(c) => runtime_key(c),
        UiRequest::SystemProxy(_) => RequestKey::SystemProxy,
    }
}

/// Requests whose failure is reported in preference to read failures: every
/// system proxy change, proxy selection, and each class named `*_write`.
pub open spec fn is_write(r: UiRequest) -> bool {
    match r {
        UiRequest::SystemProxy(c) => !(c is GetState),
        UiRequest::Runtime(RuntimeCommand::SelectProxy { .. }) => true,
        _ => key_of(r).is_write_key(),
    }
}

fn profile_request_key(c: &AppCommand) -> (k: RequestKey)
    ensures
        k == profile_key(*c),
{
    match c {
        AppCommand::GetRuntimeSettings => RequestKey::RuntimeSettings,
        AppCommand::GetApplicationSettings => RequestKey::ApplicationSettings,
        AppCommand::GetHelperStatus => RequestKey::HelperStatus,
        AppCommand::CheckAppUpdate => RequestKey::AppUpdate,
        AppCommand::UpdateApplication | AppCommand::RestartApplication => RequestKey::AppUpdateWrite,
        AppCommand::QuitApplication => RequestKey::ApplicationLifecycleWrite,
        AppCommand::InstallHelper | AppCommand::UninstallHelper => RequestKey::HelperWrite,
        AppCommand::UpdateApplicationSettings { .. } | AppCommand::ExportApplicationSettings { .. }
        | AppCommand::ImportApplicationSettings { .. }
        | AppCommand::ResetApplicationSettingsScope { .. } | AppCommand::ExportDiagnostics { .. }
        | AppCommand::ExportEncryptedBackup { .. } | AppCommand::RestoreEncryptedBackup { .. }
        | AppCommand::UpdateMihomo => RequestKey::ApplicationSettingsWrite,
        AppCommand::PreviewApplicationSettingsImport { .. } => RequestKey::SettingsImportPreview,
        AppCommand::ListProfiles => RequestKey::Profiles,
        AppCommand::GetProfileYaml { .. } => RequestKey::ProfileYaml,
        AppCommand::GetMergeConfig => RequestKey::MergeConfig,
        AppCommand::GetMergedProfileYaml { .. } => RequestKey::MergedYaml,
        AppCommand::ImportProfile { .. } | AppCommand::ImportRemoteProfile { .. }
        | AppCommand::SelectProfile { .. } | AppCommand::UpdateProfileYaml { .. }
        | AppCommand::UpdateMergeConfig { .. } | AppCommand::UpdateRemoteProfile { .. }
        | AppCommand::SetProfileUpdatePolicy { .. } | AppCommand::DeleteProfile { .. } => RequestKey::ProfileWrite,
    }
}

fn runtime_request_key(c: &RuntimeCommand) -> (k: RequestKey)
    ensures
        k == runtime_key(*c),
{
    match c {
        RuntimeCommand::GetMode | RuntimeCommand::SetMode { .. } => RequestKey::Mode,
        RuntimeCommand::ListProxyGroups => RequestKey::ProxyGroups,
        RuntimeCommand::ListRules => RequestKey::Rules,
        RuntimeCommand::ListProviders => RequestKey::Providers,
        RuntimeCommand::UpdateProvider { .. } => RequestKey::ProviderWrite,
        RuntimeCommand::GetNetworkSettings => RequestKey::NetworkSettings,
        RuntimeCommand::SetNetworkSettings { .. } => RequestKey::NetworkSettingsWrite,
        RuntimeCommand::SelectProxy { .. } => RequestKey::SelectProxy,
        RuntimeCommand::TestProxyDelay { .. } => RequestKey::Delay,
        RuntimeCommand::CloseConnection { .. } => RequestKey::ConnectionsWrite,
        RuntimeCommand::StartRealtime { .. } | RuntimeCommand::StopRealtime
        | RuntimeCommand::DrainRealtime => RequestKey::Realtime,
    }
}

/// The class of a request.
pub fn request_key(request: &UiRequest) -> (k: RequestKey)
    ensures
        k == key_of(*request),
{
    match request {
        UiRequest::Profile(c) => profile_request_key(c),
        UiRequest::Runtime(c) => runtime_request_key(c),
        UiRequest::SystemProxy(_) => RequestKey::SystemProxy,
    }
}

fn is_write_key(k: RequestKey) -> (r: bool)
    ensures
        r == k.is_write_key(),
{
    match k {
        RequestKey::AppUpdateWrite | RequestKey::ApplicationLifecycleWrite
        | RequestKey::HelperWrite | RequestKey::ApplicationSettingsWrite
        | RequestKey::ProfileWrite | RequestKey::ProviderWrite
        | RequestKey::NetworkSettingsWrite | RequestKey::ConnectionsWrite => true,
        _ => false,
    }
}

/// Whether a request changes state (see `is_write`).
pub fn is_write_request(request: &UiRequest) -> (r: bool)
    ensures
        r == is_write(*request),
{
    match request {
        UiRequest::SystemProxy(SystemProxyCommand::GetState) => false,
        UiRequest::SystemProxy(_) => true,
        UiRequest::Runtime(RuntimeCommand::SelectProxy { .. }) => true,
        _ => is_write_key(request_key(request)),
    }
}

} // verus!

verus! {

#[derive(Clone, Debug, PartialEq, Eq)]
pub enum UiAction {
    Navigate(Page),
    RefreshHome,
    RefreshProxies,
    RefreshRules,
    RefreshProfiles,
    RefreshSettings,
    UpdateSettings(ApplicationSettings),
    UpdateNetworkSettings(NetworkSettings),
    ExportApplicationSettings { destination: String },
    PreviewSettingsImport { source: String },
    ImportApplicationSettings { source: String },
    ResetSettingsScope(SettingsScope),
    ExportDiagnostics { destination: String },
    ExportEncryptedBackup { passphrase: String },
    RestoreEncryptedBackup { passphrase: String },
    UpdateMihomo,
    /// Checks for an update of the application itself (read only).
    CheckAppUpdate,
    /// Downloads and replaces the application bundle (privileged write).
    UpdateApplication,
    /// Restarts the application so that an update takes effect.
    RestartApplication,
    /// Installs or repairs the privileged helper.
    InstallHelper,
    /// Removes the privileged helper.
    UninstallHelper,
    LoadProfileYaml(ProfileId),
    ImportProfile {
        id: ProfileId,
        name: String,
        yaml: String,
        source: ProfileSource,
        update_policy: UpdatePolicy,
    },
    ImportRemoteProfile {
        id: ProfileId,
        name: String,
        url: String,
        update_policy: UpdatePolicy,
        user_agent: Option<String>,
    },
    SelectProfile(ProfileId),
    UpdateProfileYaml { id: ProfileId, yaml: String },
    LoadMergeConfig,
    SaveMergeConfig { yaml: String },
    LoadMergedYaml(ProfileId),
    DeleteProfile(ProfileId),
    UpdateRemoteProfile(ProfileId),
    SetProfileUpdatePolicy { id: ProfileId, update_policy: UpdatePolicy },
    SetMode(RunMode),
    SetSystemProxy { enabled: bool, services: Vec<String>, endpoint: ProxyEndpoint },
    SetSocksProxy { enabled: bool, endpoint: ProxyEndpoint },
    SetAutoProxy { url: Option<String> },
    SetProxyBypass { domains: Vec<String> },
    SelectProxy { group: String, proxy: String },
    TestDelay { proxy: String, url: String, timeout_ms: u32 },
    CloseConnection(String),
    UpdateProvider { kind: ProviderKind, name: String },
}

pub open spec fn p(c: AppCommand) -> UiRequest {
    UiRequest::Profile(c)
}

pub open spec fn rt(c: RuntimeCommand) -> UiRequest {
    UiRequest::Runtime(c)
}

/// The typed requests that an action dispatches, in order (for the home page
/// refresh, those before its realtime subscription; see `dispatches`).
pub open spec fn action_requests(a: UiAction) -> Seq<UiRequest> {
    match a {
        UiAction::Navigate(_) => seq![],
        UiAction::RefreshHome => seq![
            p(AppCommand::GetRuntimeSettings),
            rt(RuntimeCommand::GetMode),
            UiRequest::SystemProxy(SystemProxyCommand::GetState),
        ],
        UiAction::RefreshProxies => seq![rt(RuntimeCommand::ListProxyGroups)],
        UiAction::RefreshRules => seq![rt(RuntimeCommand::ListRules), rt(RuntimeCommand::ListProviders)],
        UiAction::RefreshProfiles => seq![p(AppCommand::ListProfiles)],
        UiAction::RefreshSettings => seq![
            p(AppCommand::GetApplicationSettings),
            p(AppCommand::GetHelperStatus),
            p(AppCommand::GetRuntimeSettings),
            rt(RuntimeCommand::GetNetworkSettings),
            UiRequest::SystemProxy(SystemProxyCommand::GetState),
        ],
        UiAction::UpdateSettings(settings) => seq![
            p(AppCommand::UpdateApplicationSettings { settings }),
            p(AppCommand::GetApplicationSettings),
        ],
        UiAction::UpdateNetworkSettings(settings) => seq![rt(RuntimeCommand::SetNetworkSettings { settings })],
        UiAction::ExportDiagnostics { destination } => seq![p(AppCommand::ExportDiagnostics { destination })],
        UiAction::ExportApplicationSettings { destination } => seq![p(AppCommand::ExportApplicationSettings { destination })],
        UiAction::PreviewSettingsImport { source } => seq![p(AppCommand::PreviewApplicationSettingsImport { source })],
        UiAction::ImportApplicationSettings { source } => seq![p(AppCommand::ImportApplicationSettings { source })],
        UiAction::ResetSettingsScope(scope) => seq![p(AppCommand::ResetApplicationSettingsScope { scope })],
        UiAction::ExportEncryptedBackup { passphrase } => seq![p(AppCommand::ExportEncryptedBackup { passphrase })],
        UiAction::RestoreEncryptedBackup { passphrase } => seq![
            p(AppCommand::RestoreEncryptedBackup { passphrase }),
            p(AppCommand::ListProfiles),
            p(AppCommand::GetApplicationSettings),
        ],
        UiAction::UpdateMihomo => seq![p(AppCommand::UpdateMihomo)],
        UiAction::CheckAppUpdate => seq![p(AppCommand::CheckAppUpdate)],
        UiAction::UpdateApplication => seq![p(AppCommand::UpdateApplication)],
        UiAction::RestartApplication => seq![p(AppCommand::RestartApplication)],
        UiAction::InstallHelper => seq![p(AppCommand::InstallHelper), p(AppCommand::GetHelperStatus)],
        UiAction::UninstallHelper => seq![p(AppCommand::UninstallHelper), p(AppCommand::GetHelperStatus)],
        UiAction::LoadProfileYaml(id) => seq![p(AppCommand::GetProfileYaml { id })],
        UiAction::ImportProfile { id, name, yaml, source, update_policy } => seq![
            p(AppCommand::ImportProfile { id, name, yaml, source, update_policy }),
            p(AppCommand::ListProfiles),
        ],
        UiAction::ImportRemoteProfile { id, name, url, update_policy, user_agent } => seq![
            p(AppCommand::ImportRemoteProfile { id, name, url, update_policy, user_agent }),
            p(AppCommand::ListProfiles),
        ],
        UiAction::SelectProfile(id) => seq![
            p(AppCommand::SelectProfile { id }),
            p(AppCommand::ListProfiles),
            p(AppCommand::GetRuntimeSettings),
            rt(RuntimeCommand::GetMode),
        ],
        UiAction::UpdateProfileYaml { id, yaml } => seq![
            p(AppCommand::UpdateProfileYaml { id, yaml }),
            p(AppCommand::ListProfiles),
        ],
        UiAction::LoadMergeConfig => seq![p(AppCommand::GetMergeConfig)],
        UiAction::SaveMergeConfig { yaml } => seq![
            p(AppCommand::UpdateMergeConfig { yaml }),
            p(AppCommand::GetMergeConfig),
        ],
        UiAction::LoadMergedYaml(id) => seq![p(AppCommand::GetMergedProfileYaml { id })],
        UiAction::DeleteProfile(id) => seq![p(AppCommand::DeleteProfile { id }), p(AppCommand::ListProfiles)],
        UiAction::UpdateRemoteProfile(id) => seq![
            p(AppCommand::UpdateRemoteProfile { id }),
            p(AppCommand::ListProfiles),
        ],
        UiAction::SetProfileUpdatePolicy { id, update_policy } => seq![
            p(AppCommand::SetProfileUpdatePolicy { id, update_policy }),
            p(AppCommand::ListProfiles),
        ],
        UiAction::SetMode(mode) => seq![rt(RuntimeCommand::SetMode { mode })],
        UiAction::SetSystemProxy { enabled, services, endpoint } => seq![
            UiRequest::SystemProxy(
                if enabled {
                    SystemProxyCommand::Enable { services, endpoint }
                } else {
                    SystemProxyCommand::Disable
                },
            ),
        ],
        UiAction::SetSocksProxy { enabled, endpoint } => seq![UiRequest::SystemProxy(SystemProxyCommand::SetSocks { enabled, endpoint })],
        UiAction::SetAutoProxy { url } => seq![UiRequest::SystemProxy(SystemProxyCommand::SetAutoProxy { url })],
        UiAction::SetProxyBypass { domains } => seq![UiRequest::SystemProxy(SystemProxyCommand::SetProxyBypass { domains })],
        UiAction::SelectProxy { group, proxy } => seq![rt(RuntimeCommand::SelectProxy { group, proxy })],
        UiAction::TestDelay { proxy, url, timeout_ms } => seq![rt(RuntimeCommand::TestProxyDelay { proxy, url, timeout_ms })],
        UiAction::CloseConnection(id) => seq![rt(RuntimeCommand::CloseConnection { id })],
        UiAction::UpdateProvider { kind, name } => seq![
            rt(RuntimeCommand::UpdateProvider { kind, name }),
            rt(RuntimeCommand::ListProviders),
        ],
    }
}

pub open spec fn home_topics_seq() -> Seq<RealtimeTopic> {
    seq![RealtimeTopic::Traffic, RealtimeTopic::Memory, RealtimeTopic::Connections, RealtimeTopic::Logs]
}

/// `r` is what `a` dispatches: the requests of `action_requests(a)`, and for
/// the home page refresh, after them a realtime subscription to every topic.
pub open spec fn dispatches(a: UiAction, r: Seq<UiRequest>) -> bool {
    match a {
        UiAction::RefreshHome => {
            &&& r.len() == 4
            &&& r.subrange(0, 3) == action_requests(a)
            &&& r[3] matches UiRequest::Runtime(RuntimeCommand::StartRealtime { topics })
                && topics@ == home_topics_seq()
        },
        _ => r == action_requests(a),
    }
}

} // verus!

verus! {

fn vec1(a: UiRequest) -> (v: Vec<UiRequest>)
    ensures
        v@ == seq![a],
{
    let mut v = Vec::new();
    v.push(a);
    v
}

fn vec2(a: UiRequest, b: UiRequest) -> (v: Vec<UiRequest>)
    ensures
        v@ == seq![a, b],
{
    let mut v = vec1(a);
    v.push(b);
    v
}

fn vec3(a: UiRequest, b: UiRequest, c: UiRequest) -> (v: Vec<UiRequest>)
    ensures
        v@ == seq![a, b, c],
{
    let mut v = vec2(a, b);
    v.push(c);
    v
}

fn vec4(a: UiRequest, b: UiRequest, c: UiRequest, d: UiRequest) -> (v: Vec<UiRequest>)
    ensures
        v@ == seq![a, b, c, d],
{
    let mut v = vec3(a, b, c);
    v.push(d);
    v
}

fn vec5(a: UiRequest, b: UiRequest, c: UiRequest, d: UiRequest, e: UiRequest) -> (v: Vec<UiRequest>)
    ensures
        v@ == seq![a, b, c, d, e],
{
    let mut v = vec4(a, b, c, d);
    v.push(e);
    v
}

impl UiAction {
    /// The typed requests that this action dispatches.
    pub fn requests(self) -> (r: Vec<UiRequest>)
        ensures
            dispatches(self, r@),
    {
        match self {
            UiAction::Navigate(_) => Vec::new(),
            UiAction::RefreshHome => {
                let mut topics = Vec::new();
                topics.push(RealtimeTopic::Traffic);
                topics.push(RealtimeTopic::Memory);
                topics.push(RealtimeTopic::Connections);
                topics.push(RealtimeTopic::Logs);
                let r = vec4(
                    UiRequest::Profile(AppCommand::GetRuntimeSettings),
                    UiRequest::Runtime(RuntimeCommand::GetMode),
                    UiRequest::SystemProxy(SystemProxyCommand::GetState),
                    UiRequest::Runtime(RuntimeCommand::StartRealtime { topics }),
                );
                assert(r@.subrange(0, 3) =~= action_requests(UiAction::RefreshHome));
                assert(topics@ =~= home_topics_seq());
                r
            },
            UiAction::RefreshProxies => vec1(UiRequest::Runtime(RuntimeCommand::ListProxyGroups)),
            UiAction::RefreshRules => vec2(
                UiRequest::Runtime(RuntimeCommand::ListRules),
                UiRequest::Runtime(RuntimeCommand::ListProviders),
            ),
            UiAction::RefreshProfiles => vec1(UiRequest::Profile(AppCommand::ListProfiles)),
            UiAction::RefreshSettings => vec5(
                UiRequest::Profile(AppCommand::GetApplicationSettings),
                UiRequest::Profile(AppCommand::GetHelperStatus),
                UiRequest::Profile(AppCommand::GetRuntimeSettings),
                UiRequest::Runtime(RuntimeCommand::GetNetworkSettings),
                UiRequest::SystemProxy(SystemProxyCommand::GetState),
            ),
            UiAction::UpdateSettings(settings) => vec2(
                UiRequest::Profile(AppCommand::UpdateApplicationSettings { settings }),
                UiRequest::Profile(AppCommand::GetApplicationSettings),
            ),
            UiAction::UpdateNetworkSettings(settings) => vec1(
                UiRequest::Runtime(RuntimeCommand::SetNetworkSettings { settings }),
            ),
            UiAction::ExportDiagnostics { destination } => vec1(
                UiRequest::Profile(AppCommand::ExportDiagnostics { destination }),
            ),
            UiAction::ExportApplicationSettings { destination } => vec1(
                UiRequest::Profile(AppCommand::ExportApplicationSettings { destination }),
            ),
            // Importing first previews the differences; the user confirms before importing.
            UiAction::PreviewSettingsImport { source } => vec1(
                UiRequest::Profile(AppCommand::PreviewApplicationSettingsImport { source }),
            ),
            UiAction::ImportApplicationSettings { source } => vec1(
                UiRequest::Profile(AppCommand::ImportApplicationSettings { source }),
            ),
            UiAction::ResetSettingsScope(scope) => vec1(
                UiRequest::Profile(AppCommand::ResetApplicationSettingsScope { scope }),
            ),
            UiAction::ExportEncryptedBackup { passphrase } => vec1(
                UiRequest::Profile(AppCommand::ExportEncryptedBackup { passphrase }),
            ),
            UiAction::RestoreEncryptedBackup { passphrase } => vec3(
                UiRequest::Profile(AppCommand::RestoreEncryptedBackup { passphrase }),
                UiRequest::Profile(AppCommand::ListProfiles),
                UiRequest::Profile(AppCommand::GetApplicationSettings),
            ),
            UiAction::UpdateMihomo => vec1(UiRequest::Profile(AppCommand::UpdateMihomo)),
            UiAction::CheckAppUpdate => vec1(UiRequest::Profile(AppCommand::CheckAppUpdate)),
            // Updating and restarting are single-command transactions without follow-up reads.
            UiAction::UpdateApplication => vec1(UiRequest::Profile(AppCommand::UpdateApplication)),
            UiAction::RestartApplication => vec1(UiRequest::Profile(AppCommand::RestartApplication)),
            // The helper status row is refreshed right after installing or removing it.
            UiAction::InstallHelper => vec2(
                UiRequest::Profile(AppCommand::InstallHelper),
                UiRequest::Profile(AppCommand::GetHelperStatus),
            ),
            UiAction::UninstallHelper => vec2(
                UiRequest::Profile(AppCommand::UninstallHelper),
                UiRequest::Profile(AppCommand::GetHelperStatus),
            ),
            UiAction::LoadProfileYaml(id) => vec1(UiRequest::Profile(AppCommand::GetProfileYaml { id })),
            UiAction::ImportProfile { id, name, yaml, source, update_policy } => vec2(
                UiRequest::Profile(AppCommand::ImportProfile { id, name, yaml, source, update_policy }),
                UiRequest::Profile(AppCommand::ListProfiles),
            ),
            UiAction::ImportRemoteProfile { id, name, url, update_policy, user_agent } => vec2(
                UiRequest::Profile(
                    AppCommand::ImportRemoteProfile { id, name, url, update_policy, user_agent },
                ),
                UiRequest::Profile(AppCommand::ListProfiles),
            ),
            // After a selection the controller link is confirmed by reading the run mode.
            UiAction::SelectProfile(id) => vec4(
                UiRequest::Profile(AppCommand::SelectProfile { id }),
                UiRequest::Profile(AppCommand::ListProfiles),
                UiRequest::Profile(AppCommand::GetRuntimeSettings),
                UiRequest::Runtime(RuntimeCommand::GetMode),
            ),
            UiAction::UpdateProfileYaml { id, yaml } => vec2(
                UiRequest::Profile(AppCommand::UpdateProfileYaml { id, yaml }),
                UiRequest::Profile(AppCommand::ListProfiles),
            ),
            UiAction::LoadMergeConfig => vec1(UiRequest::Profile(AppCommand::GetMergeConfig)),
            UiAction::SaveMergeConfig { yaml } => vec2(
                UiRequest::Profile(AppCommand::UpdateMergeConfig { yaml }),
                UiRequest::Profile(AppCommand::GetMergeConfig),
            ),
            UiAction::LoadMergedYaml(id) => vec1(
                UiRequest::Profile(AppCommand::GetMergedProfileYaml { id }),
            ),
            UiAction::DeleteProfile(id) => vec2(
                UiRequest::Profile(AppCommand::DeleteProfile { id }),
                UiRequest::Profile(AppCommand::ListProfiles),
            ),
            UiAction::UpdateRemoteProfile(id) => vec2(
                UiRequest::Profile(AppCommand::UpdateRemoteProfile { id }),
                UiRequest::Profile(AppCommand::ListProfiles),
            ),
            UiAction::SetProfileUpdatePolicy { id, update_policy } => vec2(
                UiRequest::Profile(AppCommand::SetProfileUpdatePolicy { id, update_policy }),
                UiRequest::Profile(AppCommand::ListProfiles),
            ),
            UiAction::SetMode(mode) => vec1(UiRequest::Runtime(RuntimeCommand::SetMode { mode })),
            UiAction::SetSystemProxy { enabled, services, endpoint } => vec1(
                UiRequest::SystemProxy(
                    if enabled {
                        SystemProxyCommand::Enable { services, endpoint }
                    } else {
                        SystemProxyCommand::Disable
                    },
                ),
            ),
            UiAction::SetSocksProxy { enabled, endpoint } => vec1(
                UiRequest::SystemProxy(SystemProxyCommand::SetSocks { enabled, endpoint }),
            ),
            UiAction::SetAutoProxy { url } => vec1(
                UiRequest::SystemProxy(SystemProxyCommand::SetAutoProxy { url }),
            ),
            UiAction::SetProxyBypass { domains } => vec1(
                UiRequest::SystemProxy(SystemProxyCommand::SetProxyBypass { domains }),
            ),
            UiAction::SelectProxy { group, proxy } => vec1(
                UiRequest::Runtime(RuntimeCommand::SelectProxy { group, proxy }),
            ),
            UiAction::TestDelay { proxy, url, timeout_ms } => vec1(
                UiRequest::Runtime(RuntimeCommand::TestProxyDelay { proxy, url, timeout_ms }),
            ),
            UiAction::CloseConnection(id) => vec1(
                UiRequest::Runtime(RuntimeCommand::CloseConnection { id }),
            ),
            UiAction::UpdateProvider { kind, name } => vec2(
                UiRequest::Runtime(RuntimeCommand::UpdateProvider { kind, name }),
                UiRequest::Runtime(RuntimeCommand::ListProviders),
            ),
        }
    }
}

} // verus!

verus! {

/// The abstract state of the UI: every field of `UiState`, with its keyed
/// tables seen as sets and maps.
pub struct UiModel {
    pub page: Page,
    pub core_status: CoreStatus,
    pub mode: Option<RunMode>,
    pub traffic: Option<TrafficEvent>,
    pub memory: Option<MemoryEvent>,
    pub system_proxy: Option<SystemProxyState>,
    pub proxy_groups: Seq<ProxyGroup>,
    pub rules: Seq<RuleEntry>,
    pub providers: Seq<ProviderSummary>,
    pub profiles: Seq<Profile>,
    pub selected_profile: Option<ProfileId>,
    pub profile_yaml: Option<(ProfileId, String)>,
    pub merge_yaml: Option<String>,
    pub merged_yaml: Option<(ProfileId, String)>,
    pub runtime_settings: Option<RuntimeSettings>,
    pub application_settings: Option<ApplicationSettingsSnapshot>,
    pub network_settings: Option<NetworkSettings>,
    pub helper_status: Option<HelperStatus>,
    pub mihomo_version: Option<String>,
    pub app_update: Option<AppUpdateStatus>,
    pub app_update_installed: Option<String>,
    pub last_diagnostic_path: Option<String>,
    pub settings_import_preview: Option<SettingsImportPreview>,
    pub connections: Option<ConnectionSnapshot>,
    pub logs: Seq<LogEvent>,
    pub delays: Map<Seq<char>, u32>,
    pub delay_pending: Set<Seq<char>>,
    pub pending: Set<RequestKey>,
    pub pending_requests: Map<u64, RequestKey>,
    pub latest_requests: Map<RequestKey, u64>,
    pub last_error: Option<AppError>,
    pub last_error_from_write: bool,
}

/// `i` is the first group named `name`.
pub open spec fn first_group_at(groups: Seq<ProxyGroup>, name: Seq<char>, i: int) -> bool {
    0 <= i < groups.len() && groups[i].name@ == name && forall|j: int|
        0 <= j < i ==> groups[j].name@ != name
}

pub open spec fn has_group(groups: Seq<ProxyGroup>, name: Seq<char>) -> bool {
    exists|i: int| 0 <= i < groups.len() && #[trigger] groups[i].name@ == name
}

pub open spec fn first_group(groups: Seq<ProxyGroup>, name: Seq<char>) -> int {
    choose|i: int| first_group_at(groups, name, i)
}

/// The request that a response answers, if it answers one.
pub open spec fn response_request(r: UiResponse) -> Option<UiRequest> {
    match r {
        UiResponse::Profile { request, .. } => Some(UiRequest::Profile(request)),
        UiResponse::Runtime { request, .. } => Some(UiRequest::Runtime(request)),
        UiResponse::SystemProxy { request, .. } => Some(UiRequest::SystemProxy(request)),
        UiResponse::Realtime(_) => None,
    }
}

/// The unified system proxy is on (see `unified_on`); unknown state counts as off.
pub open spec fn unified_proxy_enabled(s: Option<SystemProxyState>) -> bool {
    match s {
        None => false,
        Some(state) => unified_on(state),
    }
}

pub open spec fn has_log(events: Seq<RealtimeEvent>) -> bool {
    exists|i: int| 0 <= i < events.len() && #[trigger] events[i] is Log
}

impl UiModel {
    pub open spec fn initial() -> UiModel {
        UiModel {
            page: Page::Home,
            core_status: CoreStatus::Unknown,
            mode: None,
            traffic: None,
            memory: None,
            system_proxy: None,
            proxy_groups: seq![],
            rules: seq![],
            providers: seq![],
            profiles: seq![],
            selected_profile: None,
            profile_yaml: None,
            merge_yaml: None,
            merged_yaml: None,
            runtime_settings: None,
            application_settings: None,
            network_settings: None,
            helper_status: None,
            mihomo_version: None,
            app_update: None,
            app_update_installed: None,
            last_diagnostic_path: None,
            settings_import_preview: None,
            connections: None,
            logs: seq![],
            delays: Map::empty(),
            delay_pending: Set::empty(),
            pending: Set::empty(),
            pending_requests: Map::empty(),
            latest_requests: Map::empty(),
            last_error: None,
            last_error_from_write: false,
        }
    }

    /// At most this many log events are retained (500 until settings are loaded).
    pub open spec fn log_limit(self) -> nat {
        match self.application_settings {
            Some(snapshot) => snapshot.settings.log_limit as nat,
            None => 500,
        }
    }

    /// Recording a log event is defined: a zero limit needs an event to drop.
    pub open spec fn can_log(self) -> bool {
        self.log_limit() > 0 || self.logs.len() > 0
    }

    pub open spec fn event_ok(self, e: RealtimeEvent) -> bool {
        e is Log ==> self.can_log()
    }

    pub open spec fn events_ok(self, es: Seq<RealtimeEvent>) -> bool {
        has_log(es) ==> self.can_log()
    }

    pub open spec fn runtime_ok(self, result: RuntimeCommandResult) -> bool {
        match result.output {
            RuntimeCommandOutput::Realtime(events) => self.events_ok(events@),
            _ => true,
        }
    }

    pub open spec fn response_ok(self, r: UiResponse) -> bool {
        match r {
            UiResponse::Runtime { result: Ok(result), .. } => self.runtime_ok(result),
            UiResponse::Realtime(e) => self.event_ok(e),
            _ => true,
        }
    }

    pub open spec fn began(self, r: UiRequest) -> UiModel {
        UiModel {
            pending: self.pending.insert(key_of(r)),
            delay_pending: match r {
                UiRequest::Runtime(RuntimeCommand::TestProxyDelay { proxy, .. }) => self.delay_pending.insert(proxy@),
                _ => self.delay_pending,
            },
            last_error: None,
            last_error_from_write: false,
            ..self
        }
    }

    pub open spec fn began_envelope(self, e: UiRequestEnvelope) -> UiModel {
        let k = key_of(e.request);
        UiModel {
            pending_requests: self.pending_requests.insert(e.request_id, k),
            latest_requests: self.latest_requests.insert(k, e.request_id),
            ..self
        }.began(e.request)
    }

    pub open spec fn with_error(self, error: AppError) -> UiModel {
        UiModel { last_error: Some(error), last_error_from_write: true, ..self }
    }

    pub open spec fn failed(self, r: UiRequest, error: AppError) -> UiModel {
        let m = UiModel {
            pending: self.pending.remove(key_of(r)),
            delay_pending: match r {
                UiRequest::Runtime(RuntimeCommand::TestProxyDelay { proxy, .. }) => self.delay_pending.remove(proxy@),
                _ => self.delay_pending,
            },
            core_status: if r is Runtime {
                CoreStatus::Offline
            } else {
                self.core_status
            },
            ..self
        };
        if is_write(r) {
            m.with_error(error)
        } else if !self.last_error_from_write {
            UiModel { last_error: Some(error), ..m }
        } else {
            m
        }
    }

    pub open spec fn after_realtime(self, e: RealtimeEvent) -> UiModel {
        match e {
            RealtimeEvent::Traffic(t) => UiModel { traffic: Some(t), ..self },
            RealtimeEvent::Memory(m) => UiModel { memory: Some(m), ..self },
            RealtimeEvent::Connections(c) => UiModel { connections: Some(c), ..self },
            RealtimeEvent::Log(log) => UiModel {
                logs: if self.logs.len() >= self.log_limit() {
                    self.logs.drop_first().push(log)
                } else {
                    self.logs.push(log)
                },
                ..self
            },
            RealtimeEvent::Reconnecting { .. } => UiModel { core_status: CoreStatus::Offline, ..self },
        }
    }

    pub open spec fn after_events(self, es: Seq<RealtimeEvent>) -> UiModel
        decreases es.len(),
    {
        if es.len() == 0 {
            self
        } else {
            self.after_events(es.drop_last()).after_realtime(es.last())
        }
    }

    pub open spec fn after_runtime(self, request: RuntimeCommand, result: RuntimeCommandResult) -> UiModel {
        let m = UiModel {
            pending: self.pending.remove(runtime_key(request)),
            core_status: CoreStatus::Running,
            ..self
        };
        match result.output {
            RuntimeCommandOutput::Empty => match request {
                RuntimeCommand::SelectProxy { group, proxy } => if has_group(m.proxy_groups, group@) {
                    let i = first_group(m.proxy_groups, group@);
                    UiModel {
                        proxy_groups: m.proxy_groups.update(
                            i,
                            ProxyGroup { selected: Some(proxy), ..m.proxy_groups[i] },
                        ),
                        ..m
                    }
                } else {
                    m
                },
                _ => m,
            },
            RuntimeCommandOutput::Mode(mode) => UiModel { mode: Some(mode), ..m },
            RuntimeCommandOutput::ProxyGroups(groups) => UiModel { proxy_groups: groups@, ..m },
            RuntimeCommandOutput::Rules(rules) => UiModel { rules: rules@, ..m },
            RuntimeCommandOutput::Providers(providers) => UiModel { providers: providers@, ..m },
            RuntimeCommandOutput::NetworkSettings(settings) => UiModel {
                network_settings: Some(settings),
                ..m
            },
            RuntimeCommandOutput::Delay(delay) => match request {
                RuntimeCommand::TestProxyDelay { proxy, .. } => UiModel {
                    delay_pending: m.delay_pending.remove(proxy@),
                    delays: m.delays.insert(proxy@, delay),
                    ..m
                },
                _ => m,
            },
            RuntimeCommandOutput::Realtime(events) => m.after_events(events@),
        }
    }

    pub open spec fn after_profile(self, request: AppCommand, result: AppCommandResult) -> UiModel {
        let m = UiModel { pending: self.pending.remove(profile_key(request)), ..self };
        match result.output {
            AppCommandOutput::RuntimeSettings(s) => UiModel { runtime_settings: Some(s), ..m },
            AppCommandOutput::ApplicationSettings(s) => UiModel { application_settings: Some(s), ..m },
            AppCommandOutput::HelperStatus(s) => UiModel { helper_status: Some(s), ..m },
            AppCommandOutput::DiagnosticsExported { path } => UiModel { last_diagnostic_path: Some(path), ..m },
            AppCommandOutput::ApplicationSettingsExported { path } => UiModel {
                last_diagnostic_path: Some(path),
                ..m
            },
            AppCommandOutput::ApplicationSettingsImportPreview(preview) => UiModel {
                settings_import_preview: Some(preview),
                ..m
            },
            AppCommandOutput::EncryptedBackupExported { path } => UiModel {
                last_diagnostic_path: Some(path),
                ..m
            },
            AppCommandOutput::MihomoUpdated { version } => UiModel { mihomo_version: Some(version), ..m },
            AppCommandOutput::AppUpdateStatus(s) => UiModel { app_update: Some(s), ..m },
            AppCommandOutput::ApplicationUpdated { version, .. } => UiModel {
                app_update_installed: Some(version),
                app_update: None,
                ..m
            },
            AppCommandOutput::Profiles { profiles, selected } => UiModel {
                profiles: profiles@,
                selected_profile: selected,
                ..m
            },
            AppCommandOutput::ProfileYaml { id, yaml } => UiModel { profile_yaml: Some((id, yaml)), ..m },
            AppCommandOutput::MergeConfigYaml { yaml } => UiModel { merge_yaml: Some(yaml), ..m },
            AppCommandOutput::MergedProfileYaml { id, yaml } => UiModel {
                merged_yaml: Some((id, yaml)),
                ..m
            },
            AppCommandOutput::Empty => match request {
                AppCommand::SelectProfile { id } => UiModel { selected_profile: Some(id), ..m },
                _ => m,
            },
        }
    }

    pub open spec fn after_system_proxy(self, request: SystemProxyCommand, result: SystemProxyCommandResult) -> UiModel {
        UiModel {
            pending: self.pending.remove(RequestKey::SystemProxy),
            system_proxy: Some(result.state),
            ..self
        }
    }

    pub open spec fn after_response(self, r: UiResponse) -> UiModel {
        match r {
            UiResponse::Profile { request, result } => match result {
                Ok(result) => self.after_profile(request, result),
                Err(error) => self.failed(UiRequest::Profile(request), error),
            },
            UiResponse::Runtime { request, result } => match result {
                Ok(result) => self.after_runtime(request, result),
                Err(error) => self.failed(UiRequest::Runtime(request), error),
            },
            UiResponse::SystemProxy { request, result } => match result {
                Ok(result) => self.after_system_proxy(request, result),
                Err(error) => self.failed(UiRequest::SystemProxy(request), error),
            },
            UiResponse::Realtime(e) => self.after_realtime(e),
        }
    }

    /// A response to request `id` of class `k` is stale when a newer request of
    /// the same class was begun after it.
    pub open spec fn is_stale(self, k: RequestKey, id: u64) -> bool {
        self.latest_requests.dom().contains(k) && self.latest_requests[k] != id
    }

    pub open spec fn has_pending_of(self, k: RequestKey) -> bool {
        exists|id: u64| #[trigger] self.pending_requests.dom().contains(id) && self.pending_requests[id] == k
    }

    /// Whether an envelope's response is folded into the state.
    pub open spec fn envelope_applies(self, e: UiResponseEnvelope) -> bool {
        match (e.request_id, response_request(e.response)) {
            (Some(id), Some(request)) => !self.is_stale(key_of(request), id) || is_write(request),
            _ => true,
        }
    }

    pub open spec fn envelope_ok(self, e: UiResponseEnvelope) -> bool {
        self.envelope_applies(e) ==> self.response_ok(e.response)
    }

    pub open spec fn after_envelope(self, e: UiResponseEnvelope) -> UiModel {
        match (e.request_id, response_request(e.response)) {
            (Some(id), Some(request)) => {
                let k = key_of(request);
                let m1 = UiModel { pending_requests: self.pending_requests.remove(id), ..self };
                let m2 = if self.envelope_applies(e) {
                    m1.after_response(e.response)
                } else {
                    m1
                };
                if m2.has_pending_of(k) {
                    UiModel { pending: m2.pending.insert(k), ..m2 }
                } else {
                    UiModel {
                        pending: m2.pending.remove(k),
                        latest_requests: m2.latest_requests.remove(k),
                        ..m2
                    }
                }
            },
            _ => self.after_response(e.response),
        }
    }
}

} // verus!

verus! {

/// What the views render: the latest data of each kind, the requests in
/// flight, and the error to show.
#[derive(Debug)]
pub struct UiState {
    pub page: Page,
    pub core_status: CoreStatus,
    pub mode: Option<RunMode>,
    pub traffic: Option<TrafficEvent>,
    pub memory: Option<MemoryEvent>,
    pub system_proxy: Option<SystemProxyState>,
    pub proxy_groups: Vec<ProxyGroup>,
    pub rules: Vec<RuleEntry>,
    pub providers: Vec<ProviderSummary>,
    pub profiles: Vec<Profile>,
    pub selected_profile: Option<ProfileId>,
    pub profile_yaml: Option<(ProfileId, String)>,
    /// The YAML text of the global merge configuration, for editing.
    pub merge_yaml: Option<String>,
    /// The merged result preview (without the private controller settings).
    pub merged_yaml: Option<(ProfileId, String)>,
    pub runtime_settings: Option<RuntimeSettings>,
    pub application_settings: Option<ApplicationSettingsSnapshot>,
    pub network_settings: Option<NetworkSettings>,
    pub helper_status: Option<HelperStatus>,
    pub mihomo_version: Option<String>,
    /// The latest application update check.
    pub app_update: Option<AppUpdateStatus>,
    /// The downloaded application version that takes effect after a restart.
    pub app_update_installed: Option<String>,
    pub last_diagnostic_path: Option<String>,
    /// The latest settings import preview, shown by the confirmation dialog.
    pub settings_import_preview: Option<SettingsImportPreview>,
    pub connections: Option<ConnectionSnapshot>,
    pub logs: Vec<LogEvent>,
    /// Latest measured delay per proxy name (names are distinct).
    pub delays: Vec<(String, u32)>,
    /// Proxies whose delay test is in flight (names are distinct).
    pub delay_pending: Vec<String>,
    /// Request classes in flight (distinct).
    pub pending: Vec<RequestKey>,
    pending_requests: Vec<(u64, RequestKey)>,
    latest_requests: Vec<(RequestKey, u64)>,
    pub last_error: Option<AppError>,
    last_error_from_write: bool,
}

impl View for UiState {
    type V = UiModel;

    closed spec fn view(&self) -> UiModel {
        UiModel {
            page: self.page,
            core_status: self.core_status,
            mode: self.mode,
            traffic: self.traffic,
            memory: self.memory,
            system_proxy: self.system_proxy,
            proxy_groups: self.proxy_groups@,
            rules: self.rules@,
            providers: self.providers@,
            profiles: self.profiles@,
            selected_profile: self.selected_profile,
            profile_yaml: self.profile_yaml,
            merge_yaml: self.merge_yaml,
            merged_yaml: self.merged_yaml,
            runtime_settings: self.runtime_settings,
            application_settings: self.application_settings,
            network_settings: self.network_settings,
            helper_status: self.helper_status,
            mihomo_version: self.mihomo_version,
            app_update: self.app_update,
            app_update_installed: self.app_update_installed,
            last_diagnostic_path: self.last_diagnostic_path,
            settings_import_preview: self.settings_import_preview,
            connections: self.connections,
            logs: self.logs@,
            delays: name_map(self.delays@),
            delay_pending: name_set(self.delay_pending@),
            pending: key_set(self.pending@),
            pending_requests: id_map(self.pending_requests@),
            latest_requests: key_map(self.latest_requests@),
            last_error: self.last_error,
            last_error_from_write: self.last_error_from_write,
        }
    }
}

impl Default for UiState {
    fn default() -> (s: Self)
        ensures
            s.wf(),
            s@ == UiModel::initial(),
    {
        let s = UiState {
            page: Page::Home,
            core_status: CoreStatus::Unknown,
            mode: None,
            traffic: None,
            memory: None,
            system_proxy: None,
            proxy_groups: Vec::new(),
            rules: Vec::new(),
            providers: Vec::new(),
            profiles: Vec::new(),
            selected_profile: None,
            profile_yaml: None,
            merge_yaml: None,
            merged_yaml: None,
            runtime_settings: None,
            application_settings: None,
            network_settings: None,
            helper_status: None,
            mihomo_version: None,
            app_update: None,
            app_update_installed: None,
            last_diagnostic_path: None,
            settings_import_preview: None,
            connections: None,
            logs: Vec::new(),
            delays: Vec::new(),
            delay_pending: Vec::new(),
            pending: Vec::new(),
            pending_requests: Vec::new(),
            latest_requests: Vec::new(),
            last_error: None,
            last_error_from_write: false,
        };
        assert(s@ =~= UiModel::initial()) by {
            assert(name_map(s.delays@) =~= Map::empty());
            assert(name_set(s.delay_pending@) =~= Set::empty());
            assert(key_set(s.pending@) =~= Set::empty());
            assert(id_map(s.pending_requests@) =~= Map::empty());
            assert(key_map(s.latest_requests@) =~= Map::empty());
        }
        s
    }
}

fn first_group_index(groups: &Vec<ProxyGroup>, name: &String) -> (r: Option<usize>)
    ensures
        r is Some <==> has_group(groups@, name@),
        r matches Some(i) ==> first_group_at(groups@, name@, i as int),
{
    let mut i: usize = 0;
    while i < groups.len()
        invariant
            i <= groups.len(),
            forall|j: int| 0 <= j < i ==> groups@[j].name@ != name@,
        decreases groups.len() - i,
    {
        if groups[i].name == *name {
            return Some(i);
        }
        i = i + 1;
    }
    None
}

proof fn lemma_first_group_unique(groups: Seq<ProxyGroup>, name: Seq<char>, i: int)
    requires
        first_group_at(groups, name, i),
    ensures
        first_group(groups, name) == i,
{
    let c = first_group(groups, name);
    assert(first_group_at(groups, name, c));
    if c < i {
        assert(groups[c].name@ != name);
    } else if c > i {
        assert(groups[i].name@ != name);
    }
}

fn response_key(r: &UiResponse) -> (k: Option<RequestKey>)
    ensures
        match response_request(*r) {
            Some(q) => k == Some(key_of(q)),
            None => k is None,
        },
{
    match r {
        UiResponse::Profile { request, .. } => Some(profile_request_key(request)),
        UiResponse::Runtime { request, .. } => Some(runtime_request_key(request)),
        UiResponse::SystemProxy { .. } => Some(RequestKey::SystemProxy),
        UiResponse::Realtime(_) => None,
    }
}

fn response_is_write(r: &UiResponse) -> (w: bool)
    ensures
        match response_request(*r) {
            Some(q) => w == is_write(q),
            None => !w,
        },
{
    match r {
        UiResponse::Profile { request, .. } => is_write_key(profile_request_key(request)),
        UiResponse::Runtime { request, .. } => match request {
            RuntimeCommand::SelectProxy { .. } => true,
            _ => is_write_key(runtime_request_key(request)),
        },
        UiResponse::SystemProxy { request, .. } => match request {
            SystemProxyCommand::GetState => false,
            _ => true,
        },
        UiResponse::Realtime(_) => false,
    }
}

proof fn lemma_after_events_step(m: UiModel, es: Seq<RealtimeEvent>, i: int)
    requires
        0 <= i < es.len(),
    ensures
        m.after_events(es.take(i + 1)) == m.after_events(es.take(i)).after_realtime(es[i]),
{
    assert(es.take(i + 1).drop_last() =~= es.take(i));
}

impl UiState {
    /// The keyed tables hold distinct keys.
    pub closed spec fn wf(&self) -> bool {
        &&& self.pending@.no_duplicates()
        &&& names_unique(self.delay_pending@)
        &&& pair_names_unique(self.delays@)
        &&& ids_unique(self.pending_requests@)
        &&& keys_unique(self.latest_requests@)
    }

    pub fn is_pending(&self, key: RequestKey) -> (r: bool)
        ensures
            r == self@.pending.contains(key),
    {
        key_set_contains(&self.pending, key)
    }

    pub fn is_delay_pending(&self, proxy: &str) -> (r: bool)
        ensures
            r == self@.delay_pending.contains(proxy@),
    {
        name_set_contains(&self.delay_pending, proxy)
    }

    /// The latest measured delay of a proxy.
    pub fn delay(&self, proxy: &str) -> (r: Option<u32>)
        requires
            self.wf(),
        ensures
            r is Some <==> self@.delays.dom().contains(proxy@),
            r matches Some(d) ==> d == self@.delays[proxy@],
    {
        name_map_get(&self.delays, proxy)
    }

    /// Tracks a request envelope so that a stale answer cannot overwrite a newer one.
    pub fn begin_envelope(&mut self, envelope: &UiRequestEnvelope)
        requires
            old(self).wf(),
        ensures
            final(self).wf(),
            final(self)@ == old(self)@.began_envelope(*envelope),
    {
        let key = request_key(&envelope.request);
        id_map_insert(&mut self.pending_requests, envelope.request_id, key);
        key_map_insert(&mut self.latest_requests, key, envelope.request_id);
        self.begin(&envelope.request);
    }

    pub fn navigate(&mut self, page: Page)
        ensures
            final(self)@ == (UiModel { page, ..old(self)@ }),
            final(self).wf() == old(self).wf(),
    {
        self.page = page;
    }

    pub fn begin(&mut self, request: &UiRequest)
        requires
            old(self).wf(),
        ensures
            final(self).wf(),
            final(self)@ == old(self)@.began(*request),
    {
        key_set_insert(&mut self.pending, request_key(request));
        if let UiRequest::Runtime(RuntimeCommand::TestProxyDelay { proxy, .. }) = request {
            name_set_insert(&mut self.delay_pending, proxy.clone());
        }
        self.last_error = None;
        self.last_error_from_write = false;
    }

    pub fn set_error(&mut self, error: AppError)
        ensures
            final(self)@ == old(self)@.with_error(error),
            final(self).wf() == old(self).wf(),
    {
        self.last_error = Some(error);
        self.last_error_from_write = true;
    }

    /// Drops the settings import preview, before a new one is asked for.
    pub fn discard_import_preview(&mut self)
        ensures
            final(self)@ == (UiModel { settings_import_preview: None, ..old(self)@ }),
            final(self).wf() == old(self).wf(),
    {
        self.settings_import_preview = None;
    }

    pub fn clear_error(&mut self)
        ensures
            final(self)@ == (UiModel { last_error: None, last_error_from_write: false, ..old(self)@ }),
            final(self).wf() == old(self).wf(),
    {
        self.last_error = None;
        self.last_error_from_write = false;
    }

    pub fn fail(&mut self, request: &UiRequest, error: AppError)
        requires
            old(self).wf(),
        ensures
            final(self).wf(),
            final(self)@ == old(self)@.failed(*request, error),
    {
        let from_write = self.last_error_from_write;
        key_set_remove(&mut self.pending, request_key(request));
        if let UiRequest::Runtime(RuntimeCommand::TestProxyDelay { proxy, .. }) = request {
            name_set_remove(&mut self.delay_pending, proxy.as_str());
        }
        if let UiRequest::Runtime(_) = request {
            self.core_status = CoreStatus::Offline;
        }
        if is_write_request(request) {
            self.set_error(error);
        } else if !from_write {
            self.last_error = Some(error);
        }
    }

    pub fn apply_realtime(&mut self, event: RealtimeEvent)
        requires
            old(self).wf(),
            old(self)@.event_ok(event),
        ensures
            final(self).wf(),
            final(self)@ == old(self)@.after_realtime(event),
    {
        match event {
            RealtimeEvent::Traffic(traffic) => self.traffic = Some(traffic),
            RealtimeEvent::Memory(memory) => self.memory = Some(memory),
            RealtimeEvent::Connections(connections) => self.connections = Some(connections),
            RealtimeEvent::Log(log) => {
                let limit: usize = match &self.application_settings {
                    Some(snapshot) => snapshot.settings.log_limit as usize,
                    None => 500,
                };
                if self.logs.len() >= limit {
                    self.logs.remove(0);
                }
                self.logs.push(log);
                assert(self@.logs =~= old(self)@.after_realtime(event).logs);
            },
            RealtimeEvent::Reconnecting { .. } => self.core_status = CoreStatus::Offline,
        }
    }

    fn apply_events(&mut self, events: Vec<RealtimeEvent>)
        requires
            old(self).wf(),
            old(self)@.events_ok(events@),
        ensures
            final(self).wf(),
            final(self)@ == old(self)@.after_events(events@),
    {
        let ghost start = self@;
        let ghost all = events@;
        let n = events.len();
        let mut rest = events;
        let mut k: usize = 0;
        assert(all.take(0) =~= seq![]);
        while rest.len() > 0
            invariant
                self.wf(),
                k <= all.len(),
                all.len() == n,
                rest@ == all.skip(k as int),
                rest@.len() == all.len() - k,
                self@ == start.after_events(all.take(k as int)),
                start.events_ok(all),
                self@.application_settings == start.application_settings,
                start.can_log() ==> self@.can_log(),
            decreases rest.len(),
        {
            let event = rest.remove(0);
            assert(event == all[k as int]);
            proof {
                if event is Log {
                    assert(has_log(all));
                }
                lemma_after_events_step(start, all, k as int);
            }
            self.apply_realtime(event);
            k = k + 1;
            assert(rest@ =~= all.skip(k as int));
        }
        assert(all.take(k as int) =~= all);
    }

    pub fn apply_runtime(&mut self, request: &RuntimeCommand, result: RuntimeCommandResult)
        requires
            old(self).wf(),
            old(self)@.runtime_ok(result),
        ensures
            final(self).wf(),
            final(self)@ == old(self)@.after_runtime(*request, result),
    {
        key_set_remove(&mut self.pending, runtime_request_key(request));
        self.core_status = CoreStatus::Running;
        match result.output {
            RuntimeCommandOutput::Empty => {
                if let RuntimeCommand::SelectProxy { group, proxy } = request {
                    if let Some(i) = first_group_index(&self.proxy_groups, group) {
                        proof {
                            lemma_first_group_unique(self.proxy_groups@, group@, i as int);
                        }
                        let ghost before = self.proxy_groups@;
                        let mut g = self.proxy_groups.remove(i);
                        g.selected = Some(proxy.clone());
                        self.proxy_groups.insert(i, g);
                        assert(self.proxy_groups@ =~= before.update(
                            i as int,
                            ProxyGroup { selected: Some(*proxy), ..before[i as int] },
                        ));
                    }
                }
            },
            RuntimeCommandOutput::Mode(mode) => self.mode = Some(mode),
            RuntimeCommandOutput::ProxyGroups(groups) => self.proxy_groups = groups,
            RuntimeCommandOutput::Rules(rules) => self.rules = rules,
            RuntimeCommandOutput::Providers(providers) => self.providers = providers,
            RuntimeCommandOutput::NetworkSettings(settings) => {
                self.network_settings = Some(settings);
            },
            RuntimeCommandOutput::Delay(delay) => {
                if let RuntimeCommand::TestProxyDelay { proxy, .. } = request {
                    name_set_remove(&mut self.delay_pending, proxy.as_str());
                    name_map_insert(&mut self.delays, proxy.clone(), delay);
                }
            },
            RuntimeCommandOutput::Realtime(events) => {
                self.apply_events(events);
            },
        }
    }

    pub fn apply_profile(&mut self, request: &AppCommand, result: AppCommandResult)
        requires
            old(self).wf(),
        ensures
            final(self).wf(),
            final(self)@ == old(self)@.after_profile(*request, result),
    {
        key_set_remove(&mut self.pending, profile_request_key(request));
        match result.output {
            AppCommandOutput::RuntimeSettings(settings) => {
                self.runtime_settings = Some(settings);
            },
            AppCommandOutput::ApplicationSettings(settings) => {
                self.application_settings = Some(settings);
            },
            AppCommandOutput::HelperStatus(status) => {
                self.helper_status = Some(status);
            },
            AppCommandOutput::DiagnosticsExported { path } => {
                self.last_diagnostic_path = Some(path);
            },
            AppCommandOutput::ApplicationSettingsExported { path } => {
                self.last_diagnostic_path = Some(path);
            },
            AppCommandOutput::ApplicationSettingsImportPreview(preview) => {
                self.settings_import_preview = Some(preview);
            },
            AppCommandOutput::EncryptedBackupExported { path } => {
                self.last_diagnostic_path = Some(path);
            },
            AppCommandOutput::MihomoUpdated { version } => {
                self.mihomo_version = Some(version);
            },
            AppCommandOutput::AppUpdateStatus(status) => {
                self.app_update = Some(status);
            },
            AppCommandOutput::ApplicationUpdated { version, .. } => {
                // The update is in place: the check result gives way to "restart to apply".
                self.app_update_installed = Some(version);
                self.app_update = None;
            },
            AppCommandOutput::Profiles { profiles, selected } => {
                self.profiles = profiles;
                self.selected_profile = selected;
            },
            AppCommandOutput::ProfileYaml { id, yaml } => {
                self.profile_yaml = Some((id, yaml));
            },
            AppCommandOutput::MergeConfigYaml { yaml } => {
                self.merge_yaml = Some(yaml);
            },
            AppCommandOutput::MergedProfileYaml { id, yaml } => {
                self.merged_yaml = Some((id, yaml));
            },
            AppCommandOutput::Empty => {
                // Selecting a profile is itself the commit point; the selection must not
                // wait for the follow-up profile list, which may fail independently.
                if let AppCommand::SelectProfile { id } = request {
                    self.selected_profile = Some(id.clone());
                }
            },
        }
    }

    pub fn apply_system_proxy(&mut self, request: &SystemProxyCommand, result: SystemProxyCommandResult)
        requires
            old(self).wf(),
        ensures
            final(self).wf(),
            final(self)@ == old(self)@.after_system_proxy(*request, result),
    {
        key_set_remove(&mut self.pending, RequestKey::SystemProxy);
        self.system_proxy = Some(result.state);
    }

    pub fn apply_response(&mut self, response: UiResponse)
        requires
            old(self).wf(),
            old(self)@.response_ok(response),
        ensures
            final(self).wf(),
            final(self)@ == old(self)@.after_response(response),
    {
        match response {
            UiResponse::Profile { request, result } => match result {
                Ok(result) => self.apply_profile(&request, result),
                Err(error) => self.fail(&UiRequest::Profile(request), error),
            },
            UiResponse::Runtime { request, result } => match result {
                Ok(result) => self.apply_runtime(&request, result),
                Err(error) => self.fail(&UiRequest::Runtime(request), error),
            },
            UiResponse::SystemProxy { request, result } => match result {
                Ok(result) => self.apply_system_proxy(&request, result),
                Err(error) => self.fail(&UiRequest::SystemProxy(request), error),
            },
            UiResponse::Realtime(event) => self.apply_realtime(event),
        }
    }

    pub fn apply_response_envelope(&mut self, envelope: UiResponseEnvelope)
        requires
            old(self).wf(),
            old(self)@.envelope_ok(envelope),
        ensures
            final(self).wf(),
            final(self)@ == old(self)@.after_envelope(envelope),
    {
        let ghost e = envelope;
        let request_id = match envelope.request_id {
            None => {
                self.apply_response(envelope.response);
                return;
            },
            Some(id) => id,
        };
        let key = match response_key(&envelope.response) {
            None => {
                self.apply_response(envelope.response);
                return;
            },
            Some(k) => k,
        };
        let write = response_is_write(&envelope.response);
        let stale = match key_map_get(&self.latest_requests, key) {
            Some(latest) => latest != request_id,
            None => false,
        };
        let ghost m0 = self@;
        assert(stale == m0.is_stale(key, request_id));
        assert(m0.envelope_applies(e) == (!stale || write));
        id_map_remove(&mut self.pending_requests, request_id);
        if !stale || write {
            self.apply_response(envelope.response);
        }
        if id_map_has_value(&self.pending_requests, key) {
            key_set_insert(&mut self.pending, key);
        } else {
            key_set_remove(&mut self.pending, key);
            key_map_remove(&mut self.latest_requests, key);
        }
    }

    /// Whether the unified system proxy is on (see `unified_proxy_enabled`).
    pub fn system_proxy_enabled(&self) -> (r: bool)
        ensures
            r == unified_proxy_enabled(self@.system_proxy),
    {
        match &self.system_proxy {
            None => false,
            Some(state) => state.unified_enabled(),
        }
    }
}

} // verus!
