//! Typed application vocabulary: errors, commands, their results and the
//! snapshots of runtime state that flow between the back end and the UI.
use vstd::prelude::*;

use crate::text::{contains_control, has_control};

verus! {

#[derive(Clone, Copy, Debug, PartialEq, Eq)]
pub enum ErrorCode {
    InvalidInput,
    NotFound,
    Conflict,
    PermissionDenied,
    ValidationFailed,
    CoreUnavailable,
    CoreRejectedConfig,
    PlatformFailed,
    StorageFailed,
    RequestTimeout,
}

#[derive(Debug, PartialEq, Eq)]
pub struct AppError {
    pub code: ErrorCode,
    pub message: String,
}

impl Clone for AppError {
    fn clone(&self) -> (r: Self)
        ensures
            r == *self,
    {
        AppError { code: self.code, message: self.message.clone() }
    }
}

impl AppError {
    pub fn new(code: ErrorCode, message: &str) -> (e: AppError)
        ensures
            e.code == code,
            e.message@ == message@,
    {
        AppError { code, message: String::from_str(message) }
    }

    pub fn with_message(code: ErrorCode, message: String) -> (e: AppError)
        ensures
            e.code == code,
            e.message == message,
    {
        AppError { code, message }
    }
}

#[derive(Clone, Copy, Debug, PartialEq, Eq)]
pub enum RunMode {
    Rule,
    Global,
    Direct,
}

/// Identifier of a stored profile.
#[derive(Debug, PartialEq, Eq)]
pub struct ProfileId {
    pub value: String,
}

impl Clone for ProfileId {
    fn clone(&self) -> (r: Self)
        ensures
            r == *self,
    {
        ProfileId { value: self.value.clone() }
    }
}

/// The message of a rejected profile name.
pub open spec fn profile_name_message() -> Seq<char> {
    "profile name must be non-empty and contain no control characters"@
}

/// The message of a rejected profile identifier.
pub open spec fn profile_id_message() -> Seq<char> {
    "profile id must be non-empty and contain no control characters"@
}

impl ProfileId {
    /// An identifier is a non-empty string without control characters.
    pub fn parse(value: &str) -> (r: Result<ProfileId, AppError>)
        ensures
            r is Ok <==> (value@.len() > 0 && !has_control(value@)),
            r matches Ok(id) ==> id.value@ == value@,
            r matches Err(e) ==> e.code == ErrorCode::InvalidInput && e.message@ == profile_id_message(),
    {
        if value.unicode_len() == 0 || contains_control(value) {
            return Err(AppError::new(ErrorCode::InvalidInput, "profile id must be non-empty and contain no control characters"));
        }
        Ok(ProfileId { value: String::from_str(value) })
    }

    pub fn as_str(&self) -> (r: &str)
        ensures
            r@ == self.value@,
    {
        self.value.as_str()
    }

    pub fn same_as(&self, other: &ProfileId) -> (r: bool)
        ensures
            r == (self.value@ == other.value@),
    {
        self.value == other.value
    }
}

#[derive(Clone, Copy, Debug, PartialEq, Eq)]
pub enum ProfileSource {
    Local,
    Remote,
}

#[derive(Clone, Copy, Debug, PartialEq, Eq)]
pub enum UpdatePolicy {
    Manual,
    Interval { seconds: u64 },
}

#[derive(Clone, Debug, PartialEq, Eq)]
pub struct Profile {
    pub id: ProfileId,
    pub name: String,
    pub source: ProfileSource,
    pub update_policy: UpdatePolicy,
    pub updated_at: u64,
    pub user_agent: Option<String>,
}

impl Profile {
    pub fn new(
        id: ProfileId,
        name: &str,
        source: ProfileSource,
        update_policy: UpdatePolicy,
        updated_at: u64,
        user_agent: Option<String>,
    ) -> (r: Result<Profile, AppError>)
        ensures
            r matches Ok(p) ==> p.id == id && p.name@ == name@ && p.source == source
                && p.update_policy == update_policy && p.updated_at == updated_at && p.user_agent
                == user_agent,
            r is Ok <==> (name@.len() > 0 && !has_control(name@)),
            r matches Err(e) ==> e.code == ErrorCode::InvalidInput && e.message@ == profile_name_message(),
    {
        if name.unicode_len() == 0 || contains_control(name) {
            return Err(AppError::new(ErrorCode::InvalidInput, "profile name must be non-empty and contain no control characters"));
        }
        Ok(Profile { id, name: String::from_str(name), source, update_policy, updated_at, user_agent })
    }
}

#[derive(Clone, Copy, Debug, PartialEq, Eq)]
pub enum ProviderKind {
    Proxy,
    Rule,
}

#[derive(Clone, Copy, Debug, PartialEq, Eq)]
pub enum SettingsScope {
    Appearance,
    Network,
    SystemProxy,
}

#[derive(Clone, Copy, Debug, PartialEq, Eq)]
pub enum CommandActor {
    UserInterface,
    Tray,
    Automation,
}

#[derive(Clone, Debug, PartialEq, Eq)]
pub struct CommandContext {
    pub actor: CommandActor,
    pub approval: Option<String>,
}

#[derive(Clone, Debug, PartialEq, Eq)]
pub struct ApplicationSettings {
    pub log_limit: u16,
    pub theme: String,
    pub language: String,
}

impl ApplicationSettings {
    pub fn default_settings() -> (s: ApplicationSettings)
        ensures
            s.log_limit == 500,
            s.theme@ == "system"@,
            s.language@ == "en"@,
    {
        ApplicationSettings {
            log_limit: 500,
            theme: String::from_str("system"),
            language: String::from_str("en"),
        }
    }
}

#[derive(Clone, Debug, PartialEq, Eq)]
pub struct ApplicationSettingsSnapshot {
    pub settings: ApplicationSettings,
}

#[derive(Clone, Debug, PartialEq, Eq)]
pub struct SettingsFieldChange {
    pub field: String,
    pub old: String,
    pub new: String,
}

#[derive(Clone, Debug, PartialEq, Eq)]
pub struct SettingsImportPreview {
    pub settings: ApplicationSettings,
    pub changes: Vec<SettingsFieldChange>,
}

#[derive(Clone, Debug, PartialEq, Eq)]
pub struct NetworkSettings {
    pub mixed_port: u16,
    pub socks_port: u16,
    pub allow_lan: bool,
}

#[derive(Clone, Debug, PartialEq, Eq)]
pub struct RuntimeSettings {
    pub controller: String,
    pub mixed_port: u16,
}

#[derive(Clone, Debug, PartialEq, Eq)]
pub enum HelperStatus {
    NotInstalled,
    Ready { protocol_version: u32 },
    Incompatible { message: String },
}

#[derive(Clone, Debug, PartialEq, Eq)]
pub struct AppUpdateStatus {
    pub current_version: Option<String>,
    pub latest_version: String,
    pub update_available: bool,
    pub asset_url: String,
}

#[derive(Clone, Debug, PartialEq, Eq)]
pub struct RuleEntry {
    pub kind: String,
    pub payload: String,
    pub proxy: String,
    pub size: u64,
}

#[derive(Clone, Debug, PartialEq, Eq)]
pub struct ProviderSummary {
    pub name: String,
    pub kind: ProviderKind,
    pub vehicle: String,
    pub updated_at: String,
    pub item_count: u64,
}

/// A host and port pair that a proxy protocol points to.
#[derive(Debug, PartialEq, Eq)]
pub struct ProxyEndpoint {
    pub host: String,
    pub port: u16,
}

impl Clone for ProxyEndpoint {
    fn clone(&self) -> (r: Self)
        ensures
            r == *self,
    {
        ProxyEndpoint { host: self.host.clone(), port: self.port }
    }
}

pub open spec fn endpoint_message() -> Seq<char> {
    "proxy endpoint needs a host without control characters and a non-zero port"@
}

pub open spec fn valid_endpoint(host: Seq<char>, port: u16) -> bool {
    host.len() > 0 && !has_control(host) && port > 0
}

impl ProxyEndpoint {
    /// An endpoint has a non-empty host without control characters and a non-zero port.
    pub fn new(host: &str, port: u16) -> (r: Result<ProxyEndpoint, AppError>)
        ensures
            r is Ok <==> valid_endpoint(host@, port),
            r matches Ok(e) ==> e.host@ == host@ && e.port == port,
            r matches Err(e) ==> e.code == ErrorCode::InvalidInput && e.message@ == endpoint_message(),
    {
        if host.unicode_len() == 0 || contains_control(host) || port == 0 {
            return Err(AppError::new(ErrorCode::InvalidInput, "proxy endpoint needs a host without control characters and a non-zero port"));
        }
        Ok(ProxyEndpoint { host: String::from_str(host), port })
    }

    pub fn same_as(&self, other: &ProxyEndpoint) -> (r: bool)
        ensures
            r == (self.host@ == other.host@ && self.port == other.port),
    {
        self.host == other.host && self.port == other.port
    }
}

#[derive(Debug, PartialEq, Eq)]
pub struct ProxyProtocolState {
    pub enabled: bool,
    pub endpoint: ProxyEndpoint,
}

impl Clone for ProxyProtocolState {
    fn clone(&self) -> (r: Self)
        ensures
            r == *self,
    {
        ProxyProtocolState { enabled: self.enabled, endpoint: self.endpoint.clone() }
    }
}

#[derive(Debug, PartialEq, Eq)]
pub struct AutoProxyState {
    pub enabled: bool,
    pub url: Option<String>,
}

impl Clone for AutoProxyState {
    fn clone(&self) -> (r: Self)
        ensures
            r == *self,
    {
        let url = match &self.url {
            Some(u) => Some(u.clone()),
            None => None,
        };
        AutoProxyState { enabled: self.enabled, url }
    }
}

#[derive(Debug, PartialEq, Eq)]
pub struct SystemProxyServiceState {
    pub service: String,
    pub web: ProxyProtocolState,
    pub secure_web: ProxyProtocolState,
    pub socks: ProxyProtocolState,
    pub auto_proxy: AutoProxyState,
    pub bypass: Vec<String>,
}

/// A protocol switch and its endpoint, as plain values.
pub struct ProtocolView {
    pub enabled: bool,
    pub host: Seq<char>,
    pub port: u16,
}

/// The automatic proxy switch and its URL, as plain values.
pub struct AutoView {
    pub enabled: bool,
    pub url: Option<Seq<char>>,
}

/// One network service's proxy settings, as plain values.
pub struct ServiceView {
    pub service: Seq<char>,
    pub web: ProtocolView,
    pub secure_web: ProtocolView,
    pub socks: ProtocolView,
    pub auto_proxy: AutoView,
    pub bypass: Seq<Seq<char>>,
}

pub open spec fn strings_view(v: Seq<String>) -> Seq<Seq<char>> {
    v.map_values(|s: String| s@)
}

pub open spec fn text_option(o: Option<String>) -> Option<Seq<char>> {
    match o {
        Some(s) => Some(s@),
        None => None,
    }
}

pub open spec fn protocol_view(p: ProxyProtocolState) -> ProtocolView {
    ProtocolView { enabled: p.enabled, host: p.endpoint.host@, port: p.endpoint.port }
}

pub open spec fn auto_view(a: AutoProxyState) -> AutoView {
    AutoView { enabled: a.enabled, url: text_option(a.url) }
}

pub open spec fn service_view(s: SystemProxyServiceState) -> ServiceView {
    ServiceView {
        service: s.service@,
        web: protocol_view(s.web),
        secure_web: protocol_view(s.secure_web),
        socks: protocol_view(s.socks),
        auto_proxy: auto_view(s.auto_proxy),
        bypass: strings_view(s.bypass@),
    }
}

pub open spec fn services_view(v: Seq<SystemProxyServiceState>) -> Seq<ServiceView> {
    v.map_values(|s: SystemProxyServiceState| service_view(s))
}

/// A copy of a list of strings.
pub fn copy_strings(v: &Vec<String>) -> (r: Vec<String>)
    ensures
        r@ == v@,
{
    let mut out: Vec<String> = Vec::new();
    let mut i: usize = 0;
    while i < v.len()
        invariant
            i <= v@.len(),
            out@ == v@.take(i as int),
        decreases v.len() - i,
    {
        out.push(v[i].clone());
        i = i + 1;
        assert(out@ =~= v@.take(i as int));
    }
    assert(v@.take(v@.len() as int) =~= v@);
    out
}

impl Clone for SystemProxyServiceState {
    fn clone(&self) -> (r: Self)
        ensures
            service_view(r) == service_view(*self),
            r.service == self.service,
            r.web == self.web,
            r.secure_web == self.secure_web,
            r.socks == self.socks,
            r.auto_proxy == self.auto_proxy,
            r.bypass@ == self.bypass@,
    {
        let r = SystemProxyServiceState {
            service: self.service.clone(),
            web: self.web.clone(),
            secure_web: self.secure_web.clone(),
            socks: self.socks.clone(),
            auto_proxy: self.auto_proxy.clone(),
            bypass: copy_strings(&self.bypass),
        };
        assert(strings_view(r.bypass@) =~= strings_view(self.bypass@));
        r
    }
}

/// A copy of a list of service states.
pub fn copy_services(v: &Vec<SystemProxyServiceState>) -> (r: Vec<SystemProxyServiceState>)
    ensures
        services_view(r@) == services_view(v@),
        r@.len() == v@.len(),
        forall|i: int| 0 <= i < v@.len() ==> (#[trigger] r@[i]).service == v@[i].service,
{
    let mut out: Vec<SystemProxyServiceState> = Vec::new();
    let mut i: usize = 0;
    while i < v.len()
        invariant
            i <= v@.len(),
            out@.len() == i,
            forall|j: int| 0 <= j < i ==> service_view(#[trigger] out@[j]) == service_view(v@[j]) && out@[j].service
                == v@[j].service,
        decreases v.len() - i,
    {
        out.push(v[i].clone());
        i = i + 1;
    }
    assert(services_view(out@) =~= services_view(v@));
    out
}

/// Two lists of strings with the same texts in the same order.
pub fn same_strings(a: &Vec<String>, b: &Vec<String>) -> (r: bool)
    ensures
        r == (strings_view(a@) == strings_view(b@)),
{
    if a.len() != b.len() {
        assert(strings_view(a@).len() != strings_view(b@).len());
        return false;
    }
    let mut i: usize = 0;
    while i < a.len()
        invariant
            a@.len() == b@.len(),
            i <= a@.len(),
            forall|j: int| 0 <= j < i ==> a@[j]@ == b@[j]@,
        decreases a.len() - i,
    {
        if !(a[i] == b[i]) {
            assert(strings_view(a@)[i as int] != strings_view(b@)[i as int]);
            return false;
        }
        i = i + 1;
    }
    assert(strings_view(a@) =~= strings_view(b@));
    true
}

/// The setting a system proxy change aims at.
#[derive(Debug, PartialEq, Eq)]
pub enum SystemProxyTarget {
    /// HTTP, HTTPS and SOCKS through one endpoint, with bypass domains.
    Manual { endpoint: ProxyEndpoint, bypass: Vec<String> },
    /// An automatic proxy configuration URL.
    Pac { url: String },
}

pub open spec fn points_to(p: ProxyProtocolState, e: ProxyEndpoint) -> bool {
    p.enabled && p.endpoint.host@ == e.host@ && p.endpoint.port == e.port
}

pub open spec fn service_holds(target: SystemProxyTarget, s: SystemProxyServiceState) -> bool {
    match target {
        SystemProxyTarget::Manual { endpoint, bypass } => {
            &&& points_to(s.web, endpoint)
            &&& points_to(s.secure_web, endpoint)
            &&& points_to(s.socks, endpoint)
            &&& !s.auto_proxy.enabled
            &&& strings_view(s.bypass@) == strings_view(bypass@)
        },
        SystemProxyTarget::Pac { url } => {
            &&& !s.web.enabled
            &&& !s.secure_web.enabled
            &&& !s.socks.enabled
            &&& s.auto_proxy.enabled
            &&& text_option(s.auto_proxy.url) == Some(url@)
        },
    }
}

pub open spec fn target_holds(target: SystemProxyTarget, state: SystemProxyState) -> bool {
    forall|i: int| 0 <= i < state.services@.len() ==> service_holds(target, #[trigger] state.services@[i])
}

fn protocol_points_to(p: &ProxyProtocolState, e: &ProxyEndpoint) -> (r: bool)
    ensures
        r == points_to(*p, *e),
{
    p.enabled && p.endpoint.same_as(e)
}

impl SystemProxyTarget {
    fn service_matches(&self, s: &SystemProxyServiceState) -> (r: bool)
        ensures
            r == service_holds(*self, *s),
    {
        match self {
            SystemProxyTarget::Manual { endpoint, bypass } => {
                protocol_points_to(&s.web, endpoint) && protocol_points_to(&s.secure_web, endpoint)
                    && protocol_points_to(&s.socks, endpoint) && !s.auto_proxy.enabled && same_strings(&s.bypass, bypass)
            },
            SystemProxyTarget::Pac { url } => {
                !s.web.enabled && !s.secure_web.enabled && !s.socks.enabled && s.auto_proxy.enabled && match &s.auto_proxy.url {
                    Some(u) => *u == *url,
                    None => false,
                }
            },
        }
    }

    /// Every service of `state` is set as the target asks.
    pub fn matches(&self, state: &SystemProxyState) -> (r: bool)
        ensures
            r == target_holds(*self, *state),
    {
        let mut i: usize = 0;
        while i < state.services.len()
            invariant
                i <= state.services@.len(),
                forall|j: int| 0 <= j < i ==> service_holds(*self, #[trigger] state.services@[j]),
            decreases state.services.len() - i,
        {
            if !self.service_matches(&state.services[i]) {
                return false;
            }
            i = i + 1;
        }
        true
    }
}

#[derive(Debug, PartialEq, Eq)]
pub struct SystemProxyState {
    pub services: Vec<SystemProxyServiceState>,
    pub recovery_pending: bool,
}

/// HTTP and HTTPS are enabled on the service and point to the same endpoint.
pub open spec fn service_enabled(s: SystemProxyServiceState) -> bool {
    s.web.enabled && s.secure_web.enabled && s.web.endpoint.host@ == s.secure_web.endpoint.host@
        && s.web.endpoint.port == s.secure_web.endpoint.port
}

/// The unified system proxy is on: at least one service, and every service
/// has HTTP and HTTPS enabled at the same endpoint.
pub open spec fn unified_on(state: SystemProxyState) -> bool {
    state.services@.len() > 0 && forall|i: int|
        0 <= i < state.services@.len() ==> service_enabled(#[trigger] state.services@[i])
}

impl SystemProxyState {
    /// Whether the unified system proxy is on (see `unified_on`).
    pub fn unified_enabled(&self) -> (r: bool)
        ensures
            r == unified_on(*self),
    {
        if self.services.len() == 0 {
            return false;
        }
        let mut i: usize = 0;
        while i < self.services.len()
            invariant
                i <= self.services@.len(),
                forall|j: int| 0 <= j < i ==> service_enabled(#[trigger] self.services@[j]),
            decreases self.services.len() - i,
        {
            let s = &self.services[i];
            if !(s.web.enabled && s.secure_web.enabled && s.web.endpoint.same_as(&s.secure_web.endpoint)) {
                assert(!service_enabled(self.services@[i as int]));
                return false;
            }
            i = i + 1;
        }
        true
    }
}

impl Clone for SystemProxyState {
    fn clone(&self) -> (r: Self)
        ensures
            services_view(r.services@) == services_view(self.services@),
            r.services@.len() == self.services@.len(),
            r.recovery_pending == self.recovery_pending,
    {
        SystemProxyState { services: copy_services(&self.services), recovery_pending: self.recovery_pending }
    }
}

#[derive(Clone, Copy, Debug, PartialEq, Eq)]
pub struct TrafficEvent {
    pub up: u64,
    pub down: u64,
}

#[derive(Clone, Copy, Debug, PartialEq, Eq)]
pub struct MemoryEvent {
    pub inuse: u64,
    pub oslimit: u64,
}

#[derive(Clone, Debug, PartialEq, Eq)]
pub struct LogEvent {
    pub level: String,
    pub payload: String,
}

#[derive(Clone, Debug, Default, PartialEq, Eq)]
pub struct Connection {
    pub id: String,
    pub network: String,
    pub source: String,
    pub destination: String,
    pub host: String,
    pub process: String,
    pub upload: u64,
    pub download: u64,
    pub start: String,
    pub rule: String,
    pub rule_payload: String,
    pub chains: Vec<String>,
}

#[derive(Clone, Debug, PartialEq, Eq)]
pub struct ConnectionSnapshot {
    pub upload_total: u64,
    pub download_total: u64,
    pub connection_count: usize,
    pub connections: Vec<Connection>,
}

#[derive(Clone, Debug, PartialEq, Eq)]
pub enum RealtimeEvent {
    Traffic(TrafficEvent),
    Memory(MemoryEvent),
    Connections(ConnectionSnapshot),
    Log(LogEvent),
    /// The subscription lost its stream and retries after `delay_ms` milliseconds.
    Reconnecting { attempt: u32, delay_ms: u64 },
}

#[derive(Clone, Copy, Debug, PartialEq, Eq)]
pub enum RealtimeTopic {
    Traffic,
    Memory,
    Connections,
    Logs,
}

#[derive(Clone, Debug, PartialEq, Eq)]
pub struct ProxyGroup {
    pub name: String,
    pub kind: String,
    pub selected: Option<String>,
    pub members: Vec<String>,
}

#[derive(Clone, Debug, PartialEq, Eq)]
pub struct ProxyInfo {
    pub kind: String,
    pub hidden: bool,
}

/// Proxy groups, and per proxy name the description of that proxy.
#[derive(Clone, Debug, Default, PartialEq, Eq)]
pub struct ProxySnapshot {
    pub groups: Vec<ProxyGroup>,
    pub proxies: Vec<(String, ProxyInfo)>,
}

#[derive(Clone, Debug, PartialEq, Eq)]
pub enum AppCommand {
    GetRuntimeSettings,
    GetApplicationSettings,
    UpdateApplicationSettings { settings: ApplicationSettings },
    ExportApplicationSettings { destination: String },
    PreviewApplicationSettingsImport { source: String },
    ImportApplicationSettings { source: String },
    ResetApplicationSettingsScope { scope: SettingsScope },
    ExportDiagnostics { destination: String },
    ExportEncryptedBackup { passphrase: String },
    RestoreEncryptedBackup { passphrase: String },
    GetHelperStatus,
    InstallHelper,
    UninstallHelper,
    UpdateMihomo,
    CheckAppUpdate,
    UpdateApplication,
    RestartApplication,
    QuitApplication,
    ListProfiles,
    GetProfileYaml { id: ProfileId },
    ImportProfile {
        id: ProfileId,
        name: String,
        yaml: String,
        source: ProfileSource,
        update_policy: UpdatePolicy,
    },
    ImportRemoteProfile {
        id: ProfileId,
        name: String,
        url: String,
        update_policy: UpdatePolicy,
        user_agent: Option<String>,
    },
    SelectProfile { id: ProfileId },
    UpdateProfileYaml { id: ProfileId, yaml: String },
    GetMergeConfig,
    UpdateMergeConfig { yaml: String },
    GetMergedProfileYaml { id: ProfileId },
    DeleteProfile { id: ProfileId },
    UpdateRemoteProfile { id: ProfileId },
    SetProfileUpdatePolicy { id: ProfileId, update_policy: UpdatePolicy },
}

#[derive(Clone, Debug, PartialEq, Eq)]
pub enum RuntimeCommand {
    GetMode,
    SetMode { mode: RunMode },
    ListProxyGroups,
    SelectProxy { group: String, proxy: String },
    TestProxyDelay { proxy: String, url: String, timeout_ms: u32 },
    ListRules,
    ListProviders,
    UpdateProvider { kind: ProviderKind, name: String },
    GetNetworkSettings,
    SetNetworkSettings { settings: NetworkSettings },
    CloseConnection { id: String },
    StartRealtime { topics: Vec<RealtimeTopic> },
    StopRealtime,
    DrainRealtime,
}

#[derive(Clone, Debug, PartialEq, Eq)]
pub enum SystemProxyCommand {
    GetState,
    Enable { services: Vec<String>, endpoint: ProxyEndpoint },
    Disable,
    SetSocks { enabled: bool, endpoint: ProxyEndpoint },
    SetAutoProxy { url: Option<String> },
    SetProxyBypass { domains: Vec<String> },
}

#[derive(Clone, Debug, PartialEq, Eq)]
pub enum AppCommandOutput {
    Empty,
    RuntimeSettings(RuntimeSettings),
    ApplicationSettings(ApplicationSettingsSnapshot),
    ApplicationSettingsExported { path: String },
    ApplicationSettingsImportPreview(SettingsImportPreview),
    DiagnosticsExported { path: String },
    EncryptedBackupExported { path: String },
    HelperStatus(HelperStatus),
    MihomoUpdated { version: String },
    AppUpdateStatus(AppUpdateStatus),
    ApplicationUpdated { version: String, restart_required: bool },
    Profiles { profiles: Vec<Profile>, selected: Option<ProfileId> },
    ProfileYaml { id: ProfileId, yaml: String },
    MergeConfigYaml { yaml: String },
    MergedProfileYaml { id: ProfileId, yaml: String },
}

#[derive(Clone, Debug, PartialEq, Eq)]
pub struct AppCommandResult {
    pub output: AppCommandOutput,
    pub summary: String,
}

#[derive(Clone, Debug, PartialEq, Eq)]
pub enum RuntimeCommandOutput {
    Empty,
    Mode(RunMode),
    ProxyGroups(Vec<ProxyGroup>),
    Rules(Vec<RuleEntry>),
    Providers(Vec<ProviderSummary>),
    NetworkSettings(NetworkSettings),
    Delay(u32),
    Realtime(Vec<RealtimeEvent>),
}

#[derive(Clone, Debug, PartialEq, Eq)]
pub struct RuntimeCommandResult {
    pub output: RuntimeCommandOutput,
    pub summary: String,
}

#[derive(Clone, Debug, PartialEq, Eq)]
pub struct SystemProxyCommandResult {
    pub state: SystemProxyState,
    pub summary: String,
}

} // verus!
