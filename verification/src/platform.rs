//! Platform services behind injectable command runners: keychain, notices,
//! login items, and the checks that guard every argument handed to a command.
use vstd::prelude::*;

use crate::domain::{AppError, ErrorCode, ProxyEndpoint, SystemProxyState, SystemProxyTarget};
use crate::text::{contains_char, contains_control, has_char, has_control, is_blank, all_whitespace};

pub mod helper_install;
pub mod proxy_ops;
pub mod pac;
pub mod proxy_state;
pub mod rotating_log;
pub mod system_proxy;
pub mod tray;
pub mod app_bundle;
pub mod login_item;

use login_item::{native_change, native_status, NativeLoginItem, Registration};

verus! {

/// One command run: the program, its arguments, and what it returned.
pub struct CommandCall {
    pub program: Seq<char>,
    pub args: Seq<Seq<char>>,
    pub result: Result<Seq<char>, AppError>,
}

pub open spec fn text_result(r: Result<String, AppError>) -> Result<Seq<char>, AppError> {
    match r {
        Ok(s) => Ok(s@),
        Err(e) => Err(e),
    }
}

pub open spec fn arg_views(args: Seq<String>) -> Seq<Seq<char>> {
    args.map_values(|a: String| a@)
}

/// Runs a program with arguments and returns its standard output. Each run
/// is recorded in `history`, so callers can state which commands they ran.
pub trait CommandRunner {
    spec fn history(&self) -> Seq<CommandCall>;

    fn run(&mut self, program: &str, args: &[String]) -> (r: Result<String, AppError>)
        ensures
            final(self).history() == old(self).history().push(
                CommandCall { program: program@, args: arg_views(args@), result: text_result(r) },
            ),
    ;
}

/// The system proxy as the application sees it. A platform keeps its native
/// commands and its recovery record behind this port; on macOS it is the
/// transaction of `system_proxy::MacSystemProxy`, driven through
/// `networksetup`.
pub trait SystemProxyPlatform {
    fn configure(&mut self, services: &[String], target: &SystemProxyTarget) -> Result<SystemProxyState, AppError>;

    fn restore_snapshot(&mut self, state: &SystemProxyState) -> Result<(), AppError>;

    fn state(&mut self, services: &[String]) -> Result<SystemProxyState, AppError>;

    fn recovery_pending(&self) -> bool;

    fn list_network_services(&mut self) -> Result<Vec<String>, AppError>;

    fn enable(&mut self, services: &[String], endpoint: &ProxyEndpoint) -> Result<SystemProxyState, AppError>;

    fn disable(&mut self, services: &[String]) -> Result<SystemProxyState, AppError>;

    fn recover_pending(&mut self) -> Result<SystemProxyState, AppError>;

    fn set_socks(&mut self, services: &[String], enabled: bool, endpoint: &ProxyEndpoint)
        -> Result<SystemProxyState, AppError>;

    fn set_auto_proxy(&mut self, services: &[String], url: Option<&str>) -> Result<SystemProxyState, AppError>;

    fn set_bypass(&mut self, services: &[String], domains: &[String]) -> Result<SystemProxyState, AppError>;
}

/// A runner that hands each command to a function: the process runner of an
/// application, or a scripted one. Its history records every call and what
/// the function returned.
pub struct CallbackRunner<F: Fn(&str, &[String]) -> Result<String, AppError>> {
    call: F,
    log: Ghost<Seq<CommandCall>>,
}

impl<F: Fn(&str, &[String]) -> Result<String, AppError>> CallbackRunner<F> {
    #[verifier::type_invariant]
    spec fn callable(self) -> bool {
        forall|p: &str, a: &[String]| self.call.requires((p, a))
    }

    /// A runner over a function that accepts every program and argument list.
    pub fn new(call: F) -> (r: Self)
        requires
            forall|p: &str, a: &[String]| call.requires((p, a)),
        ensures
            r.history() == Seq::<CommandCall>::empty(),
    {
        CallbackRunner { call, log: Ghost(Seq::empty()) }
    }
}

impl<F: Fn(&str, &[String]) -> Result<String, AppError>> CommandRunner for CallbackRunner<F> {
    closed spec fn history(&self) -> Seq<CommandCall> {
        self.log@
    }

    fn run(&mut self, program: &str, args: &[String]) -> (r: Result<String, AppError>) {
        proof {
            use_type_invariant(&*self);
        }
        let r = (self.call)(program, args);
        let ghost call = CommandCall { program: program@, args: arg_views(args@), result: text_result(r) };
        self.log = Ghost(self.log@.push(call));
        r
    }
}

pub open spec fn security_program() -> Seq<char> {
    "/usr/bin/security"@
}

pub open spec fn osascript_program() -> Seq<char> {
    "/usr/bin/osascript"@
}

pub open spec fn argument_ok(value: Seq<char>) -> bool {
    value.len() > 0 && !has_control(value)
}

/// Rejects an empty argument or one with control characters.
pub fn validate_argument(name: &str, value: &str) -> (r: Result<(), AppError>)
    ensures
        r is Ok <==> argument_ok(value@),
        r matches Err(e) ==> e.code == ErrorCode::InvalidInput && e.message@ == name@
            + " must be non-empty and contain no control characters"@,
{
    if value.unicode_len() == 0 || contains_control(value) {
        let message = String::from_str(name).concat(" must be non-empty and contain no control characters");
        return Err(AppError::with_message(ErrorCode::InvalidInput, message));
    }
    Ok(())
}

pub open spec fn secret_ok(secret: Seq<char>) -> bool {
    secret.len() > 0 && !has_char(secret, '\0')
}

/// Rejects an empty secret or one with a NUL character.
pub fn validate_secret(secret: &str) -> (r: Result<(), AppError>)
    ensures
        r is Ok <==> secret_ok(secret@),
        r matches Err(e) ==> e.code == ErrorCode::InvalidInput && e.message@
            == "keychain secret must be non-empty and contain no NUL byte"@,
{
    if secret.unicode_len() == 0 || contains_char(secret, '\0') {
        return Err(AppError::new(ErrorCode::InvalidInput, "keychain secret must be non-empty and contain no NUL byte"));
    }
    Ok(())
}

/// Owned copies of string slices.
pub fn strings(values: &[&str]) -> (r: Vec<String>)
    ensures
        r@.len() == values@.len(),
        forall|i: int| 0 <= i < values@.len() ==> #[trigger] r@[i]@ == values@[i]@,
{
    let mut out: Vec<String> = Vec::new();
    let mut i: usize = 0;
    while i < values.len()
        invariant
            i <= values@.len(),
            out@.len() == i,
            forall|j: int| 0 <= j < i ==> #[trigger] out@[j]@ == values@[j]@,
        decreases values.len() - i,
    {
        out.push(String::from_str(values[i]));
        i = i + 1;
    }
    out
}

pub open spec fn is_line_end(c: char) -> bool {
    c == '\r' || c == '\n'
}

/// `s` without its trailing carriage returns and line feeds.
pub open spec fn without_line_ends(s: Seq<char>, t: Seq<char>) -> bool {
    exists|k: int|
        0 <= k <= s.len() && t == s.subrange(0, k) && (forall|j: int| k <= j < s.len() ==> is_line_end(#[trigger] s[j]))
            && (k > 0 ==> !is_line_end(s[k - 1]))
}

pub fn trim_line_ends(s: &str) -> (r: String)
    ensures
        without_line_ends(s@, r@),
{
    let mut k = s.unicode_len();
    while k > 0 && (s.get_char(k - 1) == '\r' || s.get_char(k - 1) == '\n')
        invariant
            k <= s@.len(),
            forall|j: int| k <= j < s@.len() ==> is_line_end(#[trigger] s@[j]),
        decreases k,
    {
        k = k - 1;
    }
    crate::text::substring(s, 0, k)
}

/// Generic passwords of one keychain service, read and written through the
/// `security` tool with every value passed as its own argument.
pub struct MacKeychain<R> {
    runner: R,
    service: String,
}

impl<R: CommandRunner> MacKeychain<R> {
    pub closed spec fn service_name(&self) -> Seq<char> {
        self.service@
    }

    pub closed spec fn calls(&self) -> Seq<CommandCall> {
        self.runner.history()
    }

    pub fn runner(&self) -> (r: &R)
        ensures
            r.history() == self.calls(),
    {
        &self.runner
    }

    pub fn new(runner: R, service: &str) -> (r: Result<Self, AppError>)
        ensures
            r is Ok <==> argument_ok(service@),
            r matches Ok(k) ==> k.service_name() == service@ && k.calls() == runner.history(),
            r matches Err(e) ==> e.code == ErrorCode::InvalidInput,
    {
        validate_argument("keychain service", service)?;
        Ok(MacKeychain { runner, service: String::from_str(service) })
    }

    pub fn set(&mut self, account: &str, secret: &str) -> (r: Result<(), AppError>)
        ensures
            final(self).service_name() == old(self).service_name(),
            !(argument_ok(account@) && secret_ok(secret@)) ==> (r matches Err(e) && e.code
                == ErrorCode::InvalidInput && final(self).calls() == old(self).calls()),
            argument_ok(account@) && secret_ok(secret@) ==> ({
                let call = final(self).calls().last();
                &&& final(self).calls().len() == old(self).calls().len() + 1
                &&& final(self).calls().drop_last() == old(self).calls()
                &&& call.program == security_program()
                &&& call.args == seq![
                    "add-generic-password"@,
                    "-U"@,
                    "-a"@,
                    account@,
                    "-s"@,
                    old(self).service_name(),
                    "-w"@,
                    secret@,
                ]
                &&& (r is Ok <==> call.result is Ok)
                &&& (call.result matches Err(e) ==> r == Err::<(), AppError>(e))
            }),
    {
        validate_argument("keychain account", account)?;
        validate_secret(secret)?;
        let args = strings(&["add-generic-password", "-U", "-a", account, "-s", self.service.as_str(), "-w", secret]);
        let result = self.runner.run("/usr/bin/security", args.as_slice());
        assert(arg_views(args@) =~= seq![
            "add-generic-password"@,
            "-U"@,
            "-a"@,
            account@,
            "-s"@,
            old(self).service_name(),
            "-w"@,
            secret@,
        ]);
        match result {
            Ok(_) => Ok(()),
            Err(e) => Err(e),
        }
    }

    /// The stored secret, without trailing line ends.
    pub fn get(&mut self, account: &str) -> (r: Result<String, AppError>)
        ensures
            final(self).service_name() == old(self).service_name(),
            !argument_ok(account@) ==> (r matches Err(e) && e.code == ErrorCode::InvalidInput
                && final(self).calls() == old(self).calls()),
            argument_ok(account@) ==> ({
                let call = final(self).calls().last();
                &&& final(self).calls().len() == old(self).calls().len() + 1
                &&& final(self).calls().drop_last() == old(self).calls()
                &&& call.program == security_program()
                &&& call.args == seq![
                    "find-generic-password"@,
                    "-a"@,
                    account@,
                    "-s"@,
                    old(self).service_name(),
                    "-w"@,
                ]
                &&& (r is Ok <==> call.result is Ok)
                &&& (call.result matches Ok(out) ==> (r matches Ok(s) && without_line_ends(out, s@)))
                &&& (call.result matches Err(e) ==> r == Err::<String, AppError>(e))
            }),
    {
        validate_argument("keychain account", account)?;
        let args = strings(&["find-generic-password", "-a", account, "-s", self.service.as_str(), "-w"]);
        let result = self.runner.run("/usr/bin/security", args.as_slice());
        assert(arg_views(args@) =~= seq![
            "find-generic-password"@,
            "-a"@,
            account@,
            "-s"@,
            old(self).service_name(),
            "-w"@,
        ]);
        match result {
            Ok(value) => Ok(trim_line_ends(value.as_str())),
            Err(e) => Err(e),
        }
    }

    pub fn delete(&mut self, account: &str) -> (r: Result<(), AppError>)
        ensures
            final(self).service_name() == old(self).service_name(),
            !argument_ok(account@) ==> (r matches Err(e) && e.code == ErrorCode::InvalidInput
                && final(self).calls() == old(self).calls()),
            argument_ok(account@) ==> ({
                let call = final(self).calls().last();
                &&& final(self).calls().len() == old(self).calls().len() + 1
                &&& final(self).calls().drop_last() == old(self).calls()
                &&& call.program == security_program()
                &&& call.args == seq![
                    "delete-generic-password"@,
                    "-a"@,
                    account@,
                    "-s"@,
                    old(self).service_name(),
                ]
                &&& (r is Ok <==> call.result is Ok)
                &&& (call.result matches Err(e) ==> r == Err::<(), AppError>(e))
            }),
    {
        validate_argument("keychain account", account)?;
        let args = strings(&["delete-generic-password", "-a", account, "-s", self.service.as_str()]);
        let result = self.runner.run("/usr/bin/security", args.as_slice());
        assert(arg_views(args@) =~= seq![
            "delete-generic-password"@,
            "-a"@,
            account@,
            "-s"@,
            old(self).service_name(),
        ]);
        match result {
            Ok(_) => Ok(()),
            Err(e) => Err(e),
        }
    }
}

pub open spec fn notification_script() -> Seq<char> {
    "on run argv\n display notification (item 2 of argv) with title (item 1 of argv)\nend run"@
}

/// User notifications through `osascript`, with the title and body passed as
/// script arguments rather than spliced into the script.
pub struct MacNotifier<R> {
    runner: R,
}

impl<R: CommandRunner> MacNotifier<R> {
    pub closed spec fn calls(&self) -> Seq<CommandCall> {
        self.runner.history()
    }

    pub fn runner(&self) -> (r: &R)
        ensures
            r.history() == self.calls(),
    {
        &self.runner
    }

    pub fn new(runner: R) -> (n: Self)
        ensures
            n.calls() == runner.history(),
    {
        MacNotifier { runner }
    }

    pub fn notify(&mut self, title: &str, body: &str) -> (r: Result<(), AppError>)
        ensures
            !(argument_ok(title@) && argument_ok(body@)) ==> (r matches Err(e) && e.code
                == ErrorCode::InvalidInput && final(self).calls() == old(self).calls()),
            argument_ok(title@) && argument_ok(body@) ==> ({
                let call = final(self).calls().last();
                &&& final(self).calls().len() == old(self).calls().len() + 1
                &&& final(self).calls().drop_last() == old(self).calls()
                &&& call.program == osascript_program()
                &&& call.args == seq!["-e"@, notification_script(), "--"@, title@, body@]
                &&& (r is Ok <==> call.result is Ok)
                &&& (call.result matches Err(e) ==> r == Err::<(), AppError>(e))
            }),
    {
        validate_argument("notification title", title)?;
        validate_argument("notification body", body)?;
        let script = "on run argv\n display notification (item 2 of argv) with title (item 1 of argv)\nend run";
        let args = strings(&["-e", script, "--", title, body]);
        let result = self.runner.run("/usr/bin/osascript", args.as_slice());
        assert(arg_views(args@) =~= seq!["-e"@, notification_script(), "--"@, title@, body@]);
        match result {
            Ok(_) => Ok(()),
            Err(e) => Err(e),
        }
    }
}

/// An error of a platform operation.
pub fn platform_error(message: &str) -> (e: AppError)
    ensures
        e.code == ErrorCode::PlatformFailed,
        e.message@ == message@,
{
    AppError::new(ErrorCode::PlatformFailed, message)
}

/// An error of persistent storage.
pub fn storage_error(message: &str) -> (e: AppError)
    ensures
        e.code == ErrorCode::StorageFailed,
        e.message@ == message@,
{
    AppError::new(ErrorCode::StorageFailed, message)
}

/// Launch at login, as a capability that platforms provide.
pub trait LoginItemService {
    /// Whether the login item is enabled (awaiting approval counts as not enabled).
    fn status(&mut self) -> Result<bool, AppError>;

    /// Registers or unregisters the login item.
    fn set_enabled(&mut self, enabled: bool) -> Result<(), AppError>;
}

/// The login item service of a platform without launch-at-login support.
pub struct UnsupportedLoginItem;

impl LoginItemService for UnsupportedLoginItem {
    fn status(&mut self) -> (r: Result<bool, AppError>)
        ensures
            r matches Err(e) && e.code == ErrorCode::PlatformFailed && e.message@
                == "launch at login is not supported on this platform"@,
    {
        Err(platform_error("launch at login is not supported on this platform"))
    }

    fn set_enabled(&mut self, enabled: bool) -> (r: Result<(), AppError>)
        ensures
            r matches Err(e) && e.code == ErrorCode::PlatformFailed && e.message@
                == "launch at login is not supported on this platform"@,
    {
        Err(platform_error("launch at login is not supported on this platform"))
    }
}

/// The login item service of a platform: the native registration of the
/// main app where the platform has one, else the unsupported service.
pub enum DefaultLoginItem<B: Registration> {
    Native(NativeLoginItem<B>),
    Unsupported(UnsupportedLoginItem),
}

impl<B: Registration> LoginItemService for DefaultLoginItem<B> {
    fn status(&mut self) -> (r: Result<bool, AppError>)
        ensures
            match *old(self) {
                DefaultLoginItem::Native(before) => *final(self) matches DefaultLoginItem::Native(after)
                    && native_status(before, after, r),
                DefaultLoginItem::Unsupported(_) => *final(self) == *old(self) && (r matches Err(e) && e.code
                    == ErrorCode::PlatformFailed && e.message@ == "launch at login is not supported on this platform"@),
            },
    {
        match self {
            DefaultLoginItem::Native(native) => native.status(),
            DefaultLoginItem::Unsupported(unsupported) => unsupported.status(),
        }
    }

    fn set_enabled(&mut self, enabled: bool) -> (r: Result<(), AppError>)
        ensures
            match *old(self) {
                DefaultLoginItem::Native(before) => *final(self) matches DefaultLoginItem::Native(after)
                    && native_change(before, after, enabled, r),
                DefaultLoginItem::Unsupported(_) => *final(self) == *old(self) && (r matches Err(e) && e.code
                    == ErrorCode::PlatformFailed && e.message@ == "launch at login is not supported on this platform"@),
            },
    {
        match self {
            DefaultLoginItem::Native(native) => native.set_enabled(enabled),
            DefaultLoginItem::Unsupported(unsupported) => unsupported.set_enabled(enabled),
        }
    }
}

/// The platform's login item service: the native registration `native`
/// (with whether the app runs from a bundled `.app`) where the platform
/// provides one, else the unsupported service.
pub fn default_login_item_service<B: Registration>(native: Option<B>, bundled: bool) -> (s: DefaultLoginItem<B>)
    ensures
        match native {
            Some(backend) => s == DefaultLoginItem::Native(NativeLoginItem { backend, bundled }),
            None => s == DefaultLoginItem::<B>::Unsupported(UnsupportedLoginItem),
        },
{
    match native {
        Some(backend) => DefaultLoginItem::Native(NativeLoginItem::new(backend, bundled)),
        None => DefaultLoginItem::Unsupported(UnsupportedLoginItem),
    }
}

/// The client of the privileged helper's socket.
#[derive(Clone, Debug, PartialEq, Eq)]
pub struct MacHelperClient {
    pub socket: String,
}

impl MacHelperClient {
    pub fn new(socket: String) -> (c: Self)
        ensures
            c.socket == socket,
    {
        MacHelperClient { socket }
    }
}

#[derive(Clone, Copy, Debug, PartialEq, Eq)]
pub struct HelperCapabilities {
    pub protocol_version: u32,
    pub tun_lifecycle: bool,
}

/// The error for a helper reply with error code `code`: an unauthorized peer
/// is a permission error, anything else a platform failure.
pub fn helper_call_error(code: &str, message: &str) -> (e: AppError)
    ensures
        e.code == (if code@ == "unauthorized_peer"@ {
            ErrorCode::PermissionDenied
        } else {
            ErrorCode::PlatformFailed
        }),
        e.message@ == "helper: "@ + message@,
{
    let kind = if crate::text::str_eq(code, "unauthorized_peer") {
        ErrorCode::PermissionDenied
    } else {
        ErrorCode::PlatformFailed
    };
    AppError::with_message(kind, String::from_str("helper: ").concat(message))
}

} // verus!
