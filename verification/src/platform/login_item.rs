//! Launch-at-login registration: the decisions taken between reading the
//! system's registration status and asking it to change.
use vstd::prelude::*;

use crate::domain::{AppError, ErrorCode};
use crate::platform::LoginItemService;

verus! {

/// The registration status that the system reports for the main app.
#[derive(Clone, Copy, Debug, PartialEq, Eq)]
pub enum LoginItemStatus {
    Enabled,
    RequiresApproval,
    NotRegistered,
    NotFound,
}

/// What to do after reading the status: finish, or ask for a change.
#[derive(Debug, PartialEq, Eq)]
pub enum RegistrationStep {
    Finish(Result<(), AppError>),
    Change(bool),
}

pub open spec fn login_item_message(operation: Seq<char>, detail: Seq<char>) -> Seq<char> {
    "launch at login "@ + operation + " failed: "@ + detail
}

pub open spec fn operation_name(enabled: bool) -> Seq<char> {
    if enabled { "enable"@ } else { "disable"@ }
}

pub open spec fn is_login_item_error(e: AppError, operation: Seq<char>, detail: Seq<char>) -> bool {
    e.code == ErrorCode::PlatformFailed && e.message@ == login_item_message(operation, detail)
}

pub open spec fn approval_detail() -> Seq<char> {
    "allow Verge in System Settings > General > Login Items"@
}

pub open spec fn not_found_detail() -> Seq<char> {
    "the main app service was not found (not running from a bundled .app?)"@
}

pub open spec fn unbundled_detail() -> Seq<char> {
    "launch at login requires running from a bundled .app"@
}

pub open spec fn not_applied_detail() -> Seq<char> {
    "the system did not apply the requested login item state"@
}

/// The status that a registration (`true`) or removal (`false`) aims at.
pub open spec fn target_status(enabled: bool) -> LoginItemStatus {
    if enabled { LoginItemStatus::Enabled } else { LoginItemStatus::NotRegistered }
}

pub fn login_item_error(operation: &str, detail: &str) -> (e: AppError)
    ensures
        is_login_item_error(e, operation@, detail@),
{
    let message = String::from_str("launch at login ").concat(operation).concat(" failed: ").concat(detail);
    AppError::with_message(ErrorCode::PlatformFailed, message)
}

pub fn approval_required() -> (e: AppError)
    ensures
        is_login_item_error(e, "enable"@, approval_detail()),
{
    login_item_error("enable", "allow Verge in System Settings > General > Login Items")
}

fn operation(enabled: bool) -> (r: &'static str)
    ensures
        r@ == operation_name(enabled),
{
    if enabled { "enable" } else { "disable" }
}

/// What a status reads as: registered or not, or the error of a missing service.
pub open spec fn enabled_result(status: LoginItemStatus, r: Result<bool, AppError>) -> bool {
    match status {
        LoginItemStatus::Enabled => r == Ok::<bool, AppError>(true),
        LoginItemStatus::RequiresApproval | LoginItemStatus::NotRegistered => r == Ok::<bool, AppError>(false),
        LoginItemStatus::NotFound => r matches Err(e) && is_login_item_error(e, "read status"@, not_found_detail()),
    }
}

/// Whether the app is registered; a pending approval counts as not enabled,
/// and a missing service is an error.
pub fn enabled_from_status(status: LoginItemStatus) -> (r: Result<bool, AppError>)
    ensures
        enabled_result(status, r),
{
    match status {
        LoginItemStatus::Enabled => Ok(true),
        LoginItemStatus::RequiresApproval | LoginItemStatus::NotRegistered => Ok(false),
        LoginItemStatus::NotFound => Err(login_item_error(
            "read status",
            "the main app service was not found (not running from a bundled .app?)",
        )),
    }
}

/// Before anything is read: registration needs a bundled app.
pub fn registration_precheck(bundled: bool) -> (r: Result<(), AppError>)
    ensures
        bundled ==> r is Ok,
        !bundled ==> (r matches Err(e) && is_login_item_error(e, "change"@, unbundled_detail())),
{
    if !bundled {
        return Err(login_item_error("change", "launch at login requires running from a bundled .app"));
    }
    Ok(())
}

/// After the first status read: nothing to do when the status is already the
/// target, a refusal while approval is pending, otherwise the change.
pub fn registration_after_status(enabled: bool, status: LoginItemStatus) -> (r: RegistrationStep)
    ensures
        status == LoginItemStatus::NotFound ==> (r matches RegistrationStep::Finish(Err(e))
            && is_login_item_error(e, "read status"@, not_found_detail())),
        status != LoginItemStatus::NotFound && status == target_status(enabled) ==> r
            == RegistrationStep::Finish(Ok(())),
        enabled && status == LoginItemStatus::RequiresApproval ==> (r matches RegistrationStep::Finish(Err(e))
            && is_login_item_error(e, "enable"@, approval_detail())),
        status != LoginItemStatus::NotFound && status != target_status(enabled) && !(enabled && status
            == LoginItemStatus::RequiresApproval) ==> r == RegistrationStep::Change(enabled),
{
    if let Err(e) = enabled_from_status(status) {
        return RegistrationStep::Finish(Err(e));
    }
    let done = match (enabled, status) {
        (true, LoginItemStatus::Enabled) | (false, LoginItemStatus::NotRegistered) => true,
        _ => false,
    };
    if done {
        return RegistrationStep::Finish(Ok(()));
    }
    if enabled && match status {
        LoginItemStatus::RequiresApproval => true,
        _ => false,
    } {
        return RegistrationStep::Finish(Err(approval_required()));
    }
    RegistrationStep::Change(enabled)
}

/// After the change was requested: its failure, described by `detail`,
/// becomes the error of the operation.
pub fn registration_after_change(enabled: bool, changed: Result<(), String>) -> (r: Result<(), AppError>)
    ensures
        match changed {
            Ok(()) => r is Ok,
            Err(detail) => r matches Err(e) && is_login_item_error(e, operation_name(enabled), detail@),
        },
{
    match changed {
        Ok(()) => Ok(()),
        Err(detail) => Err(login_item_error(operation(enabled), detail.as_str())),
    }
}

/// After the status is read again: success only when the system applied it.
pub fn registration_confirm(enabled: bool, status: LoginItemStatus) -> (r: Result<(), AppError>)
    ensures
        status == target_status(enabled) ==> r is Ok,
        enabled && status == LoginItemStatus::RequiresApproval ==> (r matches Err(e) && is_login_item_error(
            e,
            "enable"@,
            approval_detail(),
        )),
        status != target_status(enabled) && !(enabled && status == LoginItemStatus::RequiresApproval) ==> (r matches Err(
            e,
        ) && is_login_item_error(e, operation_name(enabled), not_applied_detail())),
{
    match (enabled, status) {
        (true, LoginItemStatus::Enabled) | (false, LoginItemStatus::NotRegistered) => Ok(()),
        (true, LoginItemStatus::RequiresApproval) => Err(approval_required()),
        _ => Err(login_item_error(operation(enabled), "the system did not apply the requested login item state")),
    }
}


/// One request made to the system's registration of the app, and its answer.
pub enum RegistrationCall {
    /// The status was read.
    Status(LoginItemStatus),
    /// Registration (`true`) or removal (`false`) was asked for; the error is
    /// the system's description of the failure.
    Change(bool, Result<(), Seq<char>>),
}

pub open spec fn change_view(r: Result<(), String>) -> Result<(), Seq<char>> {
    match r {
        Ok(()) => Ok(()),
        Err(d) => Err(d@),
    }
}

/// The app's registration with the system's login items. Each request is
/// recorded in `calls`, with its answer.
pub trait Registration {
    spec fn calls(&self) -> Seq<RegistrationCall>;

    fn status(&mut self) -> (s: LoginItemStatus)
        ensures
            final(self).calls() == old(self).calls().push(RegistrationCall::Status(s)),
    ;

    fn set_enabled(&mut self, enabled: bool) -> (r: Result<(), String>)
        ensures
            final(self).calls() == old(self).calls().push(RegistrationCall::Change(enabled, change_view(r))),
    ;
}

/// A registration that hands each request to a function: the native one of
/// an application, or a scripted one. Its record holds every request and
/// what the function answered.
pub struct CallbackRegistration<S: Fn() -> LoginItemStatus, C: Fn(bool) -> Result<(), String>> {
    read: S,
    change: C,
    log: Ghost<Seq<RegistrationCall>>,
}

impl<S: Fn() -> LoginItemStatus, C: Fn(bool) -> Result<(), String>> CallbackRegistration<S, C> {
    #[verifier::type_invariant]
    spec fn callable(self) -> bool {
        &&& self.read.requires(())
        &&& forall|e: bool| self.change.requires((e,))
    }

    /// A registration over functions that accept every request.
    pub fn new(read: S, change: C) -> (r: Self)
        requires
            read.requires(()),
            forall|e: bool| change.requires((e,)),
        ensures
            r.calls() == Seq::<RegistrationCall>::empty(),
    {
        CallbackRegistration { read, change, log: Ghost(Seq::empty()) }
    }
}

impl<S: Fn() -> LoginItemStatus, C: Fn(bool) -> Result<(), String>> Registration for CallbackRegistration<S, C> {
    closed spec fn calls(&self) -> Seq<RegistrationCall> {
        self.log@
    }

    fn status(&mut self) -> (s: LoginItemStatus) {
        proof {
            use_type_invariant(&*self);
        }
        let s = (self.read)();
        self.log = Ghost(self.log@.push(RegistrationCall::Status(s)));
        s
    }

    fn set_enabled(&mut self, enabled: bool) -> (r: Result<(), String>) {
        proof {
            use_type_invariant(&*self);
        }
        let r = (self.change)(enabled);
        self.log = Ghost(self.log@.push(RegistrationCall::Change(enabled, change_view(r))));
        r
    }
}

/// The first status read settles the request: a missing service, the status
/// already aimed at, or a registration that waits for approval.
pub open spec fn settled_by_status(enabled: bool, s: LoginItemStatus) -> bool {
    s == LoginItemStatus::NotFound || s == target_status(enabled) || (enabled && s == LoginItemStatus::RequiresApproval)
}

/// The result of a request settled by the first status read.
pub open spec fn status_result(enabled: bool, s: LoginItemStatus, r: Result<(), AppError>) -> bool {
    if s == LoginItemStatus::NotFound {
        r matches Err(e) && is_login_item_error(e, "read status"@, not_found_detail())
    } else if s == target_status(enabled) {
        r is Ok
    } else {
        r matches Err(e) && is_login_item_error(e, "enable"@, approval_detail())
    }
}

/// The result once the status is read again after the change.
pub open spec fn confirm_result(enabled: bool, s: LoginItemStatus, r: Result<(), AppError>) -> bool {
    if s == target_status(enabled) {
        r is Ok
    } else if enabled && s == LoginItemStatus::RequiresApproval {
        r matches Err(e) && is_login_item_error(e, "enable"@, approval_detail())
    } else {
        r matches Err(e) && is_login_item_error(e, operation_name(enabled), not_applied_detail())
    }
}

/// What a request did after the first status read `c[n]`: settled there, or
/// asked for the change, whose failure is the error, or whose result is
/// checked by reading the status again.
pub open spec fn registration_run(enabled: bool, c: Seq<RegistrationCall>, n: int, r: Result<(), AppError>) -> bool {
    &&& c.len() > n
    &&& c[n] matches RegistrationCall::Status(s0)
    &&& if settled_by_status(enabled, s0) {
        c.len() == n + 1 && status_result(enabled, s0, r)
    } else {
        &&& c.len() > n + 1
        &&& c[n + 1] matches RegistrationCall::Change(asked, answer)
        &&& asked == enabled
        &&& match answer {
            Err(detail) => c.len() == n + 2 && (r matches Err(e) && is_login_item_error(e, operation_name(enabled), detail)),
            Ok(()) => c.len() == n + 3 && (c[n + 2] matches RegistrationCall::Status(s1) && confirm_result(enabled, s1, r)),
        }
    }
}

/// Registers (`enabled`) or removes the app as a login item: only from a
/// bundled app; nothing is asked of the system when its status is already
/// the aim, or while a registration waits for approval; otherwise the change
/// is asked for and checked by reading the status again.
pub fn set_registration<B: Registration>(backend: &mut B, enabled: bool, bundled: bool) -> (r: Result<(), AppError>)
    ensures
        !bundled ==> final(backend).calls() == old(backend).calls() && (r matches Err(e) && is_login_item_error(
            e,
            "change"@,
            unbundled_detail(),
        )),
        bundled ==> final(backend).calls().subrange(0, old(backend).calls().len() as int) == old(backend).calls()
            && registration_run(enabled, final(backend).calls(), old(backend).calls().len() as int, r),
{
    if let Err(e) = registration_precheck(bundled) {
        return Err(e);
    }
    let ghost before = backend.calls();
    let first = backend.status();
    let ghost after_first = backend.calls();
    match registration_after_status(enabled, first) {
        RegistrationStep::Finish(r) => {
            assert(after_first.subrange(0, before.len() as int) =~= before);
            r
        },
        RegistrationStep::Change(_) => {
            let changed = backend.set_enabled(enabled);
            let ghost answer = change_view(changed);
            let ghost after_change = backend.calls();
            if let Err(e) = registration_after_change(enabled, changed) {
                assert(after_change.subrange(0, before.len() as int) =~= before);
                return Err(e);
            }
            let second = backend.status();
            assert(backend.calls().subrange(0, before.len() as int) =~= before);
            registration_confirm(enabled, second)
        },
    }
}

/// Launch at login through the system's registration of the main app;
/// `bundled` tells whether the app runs from a bundled `.app`.
pub struct NativeLoginItem<B: Registration> {
    pub backend: B,
    pub bundled: bool,
}

impl<B: Registration> NativeLoginItem<B> {
    pub fn new(backend: B, bundled: bool) -> (r: Self)
        ensures
            r.backend == backend,
            r.bundled == bundled,
    {
        NativeLoginItem { backend, bundled }
    }
}

/// A status request: one status read, and what it reads as.
pub open spec fn native_status<B: Registration>(
    before: NativeLoginItem<B>,
    after: NativeLoginItem<B>,
    r: Result<bool, AppError>,
) -> bool {
    &&& after.bundled == before.bundled
    &&& after.backend.calls().len() == before.backend.calls().len() + 1
    &&& after.backend.calls().drop_last() == before.backend.calls()
    &&& after.backend.calls().last() matches RegistrationCall::Status(s) && enabled_result(s, r)
}

/// A change request, as `set_registration` makes it.
pub open spec fn native_change<B: Registration>(
    before: NativeLoginItem<B>,
    after: NativeLoginItem<B>,
    enabled: bool,
    r: Result<(), AppError>,
) -> bool {
    &&& after.bundled == before.bundled
    &&& !before.bundled ==> after.backend.calls() == before.backend.calls() && (r matches Err(e)
        && is_login_item_error(e, "change"@, unbundled_detail()))
    &&& before.bundled ==> after.backend.calls().subrange(0, before.backend.calls().len() as int)
        == before.backend.calls() && registration_run(
        enabled,
        after.backend.calls(),
        before.backend.calls().len() as int,
        r,
    )
}

impl<B: Registration> LoginItemService for NativeLoginItem<B> {
    fn status(&mut self) -> (r: Result<bool, AppError>)
        ensures
            native_status(*old(self), *final(self), r),
    {
        let ghost before = self.backend.calls();
        let s = self.backend.status();
        assert(self.backend.calls().drop_last() =~= before);
        enabled_from_status(s)
    }

    fn set_enabled(&mut self, enabled: bool) -> (r: Result<(), AppError>)
        ensures
            native_change(*old(self), *final(self), enabled, r),
    {
        let bundled = self.bundled;
        set_registration(&mut self.backend, enabled, bundled)
    }
}

} // verus!
