//! Changing the system proxy as a transaction. Before the first write the
//! settings of every service are saved, and written to a recovery record if
//! none exists; the writes follow one by one; when one fails, or the result
//! does not match what was asked, the saved settings are written back. The
//! record is removed again only by the change that created it.
//!
//! The decisions are a state machine: each call returns the next action for
//! the caller to perform, and the caller answers with the event it observed.
use vstd::prelude::*;

use crate::domain::{
    AppError, ErrorCode, ProxyEndpoint, ServiceView, SystemProxyServiceState, SystemProxyState,
    SystemProxyTarget, copy_services, copy_strings, endpoint_message, service_view, services_view,
    strings_view, target_holds, valid_endpoint,
};
use crate::platform::{argument_ok, validate_argument};
use crate::text::{join_with, joined};
use crate::platform::proxy_ops::{
    OpView, ProxyOp, auto_plan, auto_proxy_ops, bypass_ops, bypass_plan, configure_ops, configure_plan,
    disable_ops, disable_plan, enable_ops, endpoint_plan, labels_all, op_allowed, op_view, ops_view,
    plan_all, precheck, precheck_message, remap_all, remap_ops, restore_all, restore_ops, socks_ops,
    socks_plan, str_option, validate_domains, domains_ok,
};
use crate::platform::proxy_state::{
    names_ok, normalize_record, normalized_services, service_restored, service_restored_matches, services_message,
    validate_services,
};

verus! {

/// Where a transaction stands: what it waits for.
#[derive(Clone, Copy, Debug, PartialEq, Eq)]
pub enum Stage {
    Idle,
    /// A plain read of the settings.
    Reading,
    /// The settings from which an endpoint move is planned.
    Planning,
    /// The settings saved before a change.
    Snapshot,
    /// The recovery record being written.
    Writing,
    /// The result of write `i` of the change.
    Applying(usize),
    /// The settings after the change.
    Checking,
    /// The recovery record being removed after switching off.
    Clearing,
    /// The settings after switching off.
    Rereading,
    /// The result of write `i` of a restore.
    Restoring(usize),
    /// Service `i` read back after a restore.
    Confirming(usize),
    /// The record being removed after a successful roll-back.
    Unrecording,
    /// The recovery record being read.
    Recovering,
    /// The record being removed after a recovery.
    Settling,
}

/// What a restore is for, and so what follows it.
#[derive(Clone, Copy, Debug, PartialEq, Eq)]
pub enum RestoreMode {
    /// Undo a failed change.
    Rollback,
    /// Put back the recovery record, then remove it.
    Recover,
    /// Put back given settings.
    Snapshot,
}

/// What the caller observed when it performed an action.
pub enum ProxyEvent {
    /// The settings of the requested services, and whether a recovery record exists.
    State(Result<SystemProxyState, AppError>),
    /// The recovery record.
    Record(Result<SystemProxyState, AppError>),
    /// The recovery record was written.
    Written(Result<(), AppError>),
    /// The recovery record was removed.
    Removed(Result<(), AppError>),
    /// The write was made.
    Ran(Result<(), AppError>),
    /// One service read back.
    Service(Result<SystemProxyServiceState, AppError>),
}

/// What the caller is to do next.
pub enum ProxyAction {
    /// Read the settings of these services; answer `State`.
    ReadState(Vec<String>),
    /// Read the recovery record; answer `Record`.
    ReadRecord,
    /// Write this recovery record; answer `Written`.
    WriteRecord(SystemProxyState),
    /// Remove the recovery record; answer `Removed`.
    RemoveRecord,
    /// Make this write; answer `Ran`.
    Run(ProxyOp),
    /// Read this service back; a protocol saved as a legacy switched-off
    /// endpoint may be read as exactly that value; answer `Service`.
    ReadService(SystemProxyServiceState),
    /// Done, and nothing was to be changed.
    Unchanged,
    /// Done, with this result.
    Finish(Result<SystemProxyState, AppError>),
}

pub open spec fn err_view(e: AppError) -> (ErrorCode, Seq<char>) {
    (e.code, e.message@)
}

pub open spec fn state_view(s: SystemProxyState) -> (Seq<ServiceView>, bool) {
    (services_view(s.services@), s.recovery_pending)
}

pub open spec fn result_view(r: Result<SystemProxyState, AppError>) -> Result<(Seq<ServiceView>, bool), (ErrorCode, Seq<char>)> {
    match r {
        Ok(s) => Ok(state_view(s)),
        Err(e) => Err(err_view(e)),
    }
}

/// An action as plain values.
pub enum ActionView {
    ReadState(Seq<Seq<char>>),
    ReadRecord,
    WriteRecord((Seq<ServiceView>, bool)),
    RemoveRecord,
    Run(OpView),
    ReadService(ServiceView),
    Unchanged,
    Finish(Result<(Seq<ServiceView>, bool), (ErrorCode, Seq<char>)>),
}

pub open spec fn action_view(a: ProxyAction) -> ActionView {
    match a {
        ProxyAction::ReadState(s) => ActionView::ReadState(strings_view(s@)),
        ProxyAction::ReadRecord => ActionView::ReadRecord,
        ProxyAction::WriteRecord(s) => ActionView::WriteRecord(state_view(s)),
        ProxyAction::RemoveRecord => ActionView::RemoveRecord,
        ProxyAction::Run(op) => ActionView::Run(op_view(op)),
        ProxyAction::ReadService(s) => ActionView::ReadService(service_view(s)),
        ProxyAction::Unchanged => ActionView::Unchanged,
        ProxyAction::Finish(r) => ActionView::Finish(result_view(r)),
    }
}

/// A transaction as plain values.
#[verifier::ext_equal]
pub struct TaskView {
    pub stage: Stage,
    pub services: Seq<Seq<char>>,
    pub ops: Seq<OpView>,
    pub target: Option<SystemProxyTarget>,
    pub clear_after: bool,
    pub remap: Option<(ProxyEndpoint, Option<ProxyEndpoint>, ProxyEndpoint)>,
    pub previous: Seq<ServiceView>,
    pub created_record: bool,
    pub cause: Option<(ErrorCode, Seq<char>)>,
    pub mode: RestoreMode,
    pub restore: Seq<OpView>,
    pub labels: Seq<Seq<char>>,
    pub errors: Seq<Seq<char>>,
    pub restored: Seq<ServiceView>,
}

/// The macOS system proxy, driven one action at a time.
pub struct MacSystemProxy {
    stage: Stage,
    services: Vec<String>,
    ops: Vec<ProxyOp>,
    target: Option<SystemProxyTarget>,
    clear_after: bool,
    remap: Option<(ProxyEndpoint, Option<ProxyEndpoint>, ProxyEndpoint)>,
    previous: Vec<SystemProxyServiceState>,
    created_record: bool,
    cause: Option<AppError>,
    mode: RestoreMode,
    restore: Vec<ProxyOp>,
    labels: Vec<String>,
    errors: Vec<String>,
    restored: Vec<SystemProxyServiceState>,
}

pub open spec fn cause_view(c: Option<AppError>) -> Option<(ErrorCode, Seq<char>)> {
    match c {
        Some(e) => Some(err_view(e)),
        None => None,
    }
}

impl View for MacSystemProxy {
    type V = TaskView;

    closed spec fn view(&self) -> TaskView {
        TaskView {
            stage: self.stage,
            services: strings_view(self.services@),
            ops: ops_view(self.ops@),
            target: self.target,
            clear_after: self.clear_after,
            remap: self.remap,
            previous: services_view(self.previous@),
            created_record: self.created_record,
            cause: cause_view(self.cause),
            mode: self.mode,
            restore: ops_view(self.restore@),
            labels: strings_view(self.labels@),
            errors: strings_view(self.errors@),
            restored: services_view(self.restored@),
        }
    }
}

pub open spec fn idle() -> TaskView {
    TaskView {
        stage: Stage::Idle,
        services: seq![],
        ops: seq![],
        target: None,
        clear_after: false,
        remap: None,
        previous: seq![],
        created_record: false,
        cause: None,
        mode: RestoreMode::Snapshot,
        restore: seq![],
        labels: seq![],
        errors: seq![],
        restored: seq![],
    }
}

pub open spec fn stage_ok(m: TaskView) -> bool {
    match m.stage {
        Stage::Planning => m.remap is Some,
        Stage::Applying(i) => i < m.ops.len(),
        Stage::Restoring(i) => i < m.restore.len(),
        Stage::Confirming(j) => j < m.previous.len(),
        Stage::Unrecording => m.mode == RestoreMode::Rollback,
        _ => true,
    }
}

/// What every reachable transaction satisfies: a roll-back knows the error
/// it reports, each restore write has its label, and a pending write or
/// read-back names an existing one.
pub open spec fn wf(m: TaskView) -> bool {
    &&& m.mode == RestoreMode::Rollback ==> m.cause is Some
    &&& m.labels.len() == m.restore.len()
    &&& stage_ok(m)
}

pub open spec fn finish(m: TaskView, r: Result<(Seq<ServiceView>, bool), (ErrorCode, Seq<char>)>) -> (TaskView, ActionView) {
    (TaskView { stage: Stage::Idle, ..m }, ActionView::Finish(r))
}

pub open spec fn platform(message: Seq<char>) -> (ErrorCode, Seq<char>) {
    (ErrorCode::PlatformFailed, message)
}

pub open spec fn mismatch_message() -> Seq<char> {
    "system proxy did not match the requested configuration after applying it"@
}

pub open spec fn unexpected_message() -> Seq<char> {
    "the event does not answer the pending system proxy action"@
}

pub open spec fn incomplete_message(errors: Seq<Seq<char>>) -> Seq<char> {
    "system proxy recovery was incomplete: "@ + joined(errors, "; "@)
}

pub open spec fn rollback_message(cause: Seq<char>, rollback: Seq<char>) -> Seq<char> {
    "system proxy apply failed: "@ + cause + "; rollback failed: "@ + rollback
}

pub open spec fn not_restored_message(service: Seq<char>) -> Seq<char> {
    "system proxy did not match the recovery snapshot for "@ + service
}

/// A change begins by reading the settings it may have to put back.
pub open spec fn start_change(
    services: Seq<Seq<char>>,
    ops: Seq<OpView>,
    target: Option<SystemProxyTarget>,
    clear_after: bool,
) -> (TaskView, ActionView) {
    if !names_ok(services) {
        finish(idle(), Err((ErrorCode::InvalidInput, services_message())))
    } else {
        (
            TaskView { stage: Stage::Snapshot, services, ops, target, clear_after, ..idle() },
            ActionView::ReadState(services),
        )
    }
}

/// Write `i` of the change, or, past the last one, the read of the result.
pub open spec fn apply_from(m: TaskView, i: int) -> (TaskView, ActionView) {
    if i >= m.ops.len() {
        (TaskView { stage: Stage::Checking, ..m }, ActionView::ReadState(m.services))
    } else if !op_allowed(m.ops[i]) {
        rollback(m, (ErrorCode::InvalidInput, precheck_message(m.ops[i])))
    } else {
        (TaskView { stage: Stage::Applying(i as usize), ..m }, ActionView::Run(m.ops[i]))
    }
}

/// A failed change puts the saved settings back.
pub open spec fn rollback(m: TaskView, cause: (ErrorCode, Seq<char>)) -> (TaskView, ActionView) {
    start_restore(TaskView { cause: Some(cause), mode: RestoreMode::Rollback, ..m })
}

pub open spec fn previous_names(previous: Seq<ServiceView>) -> Seq<Seq<char>> {
    previous.map_values(|s: ServiceView| s.service)
}

/// A restore writes every saved setting back, then reads each service back.
pub open spec fn start_restore(m: TaskView) -> (TaskView, ActionView) {
    if !names_ok(previous_names(m.previous)) {
        restore_done(m, Err((ErrorCode::InvalidInput, services_message())))
    } else {
        restore_from(
            TaskView {
                stage: Stage::Idle,
                restore: restore_all(m.previous),
                labels: labels_all(m.previous),
                errors: seq![],
                restored: seq![],
                ..m
            },
            0,
        )
    }
}

/// The first write at or after `i` that passes its check; those before it
/// that do not are reported as errors.
pub open spec fn restore_from(m: TaskView, i: int) -> (TaskView, ActionView)
    decreases m.restore.len() - i,
{
    if i < 0 || i >= m.restore.len() {
        if m.errors.len() > 0 {
            restore_done(m, Err(platform(incomplete_message(m.errors))))
        } else {
            confirm_from(m, 0)
        }
    } else if !op_allowed(m.restore[i]) {
        restore_from(
            TaskView { errors: m.errors.push(m.labels[i] + ": "@ + precheck_message(m.restore[i])), ..m },
            i + 1,
        )
    } else {
        (TaskView { stage: Stage::Restoring(i as usize), ..m }, ActionView::Run(m.restore[i]))
    }
}

/// Service `j` read back, or, past the last one, the end of the restore.
pub open spec fn confirm_from(m: TaskView, j: int) -> (TaskView, ActionView) {
    if j >= m.previous.len() {
        restore_done(m, Ok(m.restored))
    } else {
        (TaskView { stage: Stage::Confirming(j as usize), ..m }, ActionView::ReadService(m.previous[j]))
    }
}

/// After a restore: a roll-back reports the change's error, and removes the
/// record only where the change created it; a recovery removes the record.
pub open spec fn restore_done(m: TaskView, r: Result<Seq<ServiceView>, (ErrorCode, Seq<char>)>) -> (TaskView, ActionView) {
    match m.mode {
        RestoreMode::Rollback => {
            let cause = m.cause.unwrap();
            match r {
                Ok(_) => if m.created_record {
                    (TaskView { stage: Stage::Unrecording, ..m }, ActionView::RemoveRecord)
                } else {
                    finish(m, Err(cause))
                },
                Err(e) => finish(m, Err(platform(rollback_message(cause.1, e.1)))),
            }
        },
        RestoreMode::Recover => match r {
            Ok(services) => (TaskView { stage: Stage::Settling, restored: services, ..m }, ActionView::RemoveRecord),
            Err(e) => finish(m, Err(e)),
        },
        RestoreMode::Snapshot => match r {
            Ok(services) => finish(m, Ok((services, false))),
            Err(e) => finish(m, Err(e)),
        },
    }
}

pub open spec fn event_unexpected(m: TaskView) -> (TaskView, ActionView) {
    finish(m, Err(platform(unexpected_message())))
}

pub open spec fn argument_message(name: Seq<char>) -> Seq<char> {
    name + " must be non-empty and contain no control characters"@
}

pub open spec fn invalid(message: Seq<char>) -> (TaskView, ActionView) {
    finish(idle(), Err((ErrorCode::InvalidInput, message)))
}

/// A read of the settings of `services`.
pub open spec fn read_spec(services: Seq<Seq<char>>) -> (TaskView, ActionView) {
    if !names_ok(services) {
        invalid(services_message())
    } else {
        (TaskView { stage: Stage::Reading, services, ..idle() }, ActionView::ReadState(services))
    }
}

/// HTTP and HTTPS of every service through `endpoint`.
pub open spec fn enable_spec(services: Seq<Seq<char>>, endpoint: ProxyEndpoint) -> (TaskView, ActionView) {
    if !valid_endpoint(endpoint.host@, endpoint.port) {
        invalid(endpoint_message())
    } else {
        start_change(services, plan_all(services, |s: Seq<char>| endpoint_plan(s, endpoint)), None, false)
    }
}

/// The recovery record put back, then removed.
pub open spec fn recover_spec() -> (TaskView, ActionView) {
    (TaskView { stage: Stage::Recovering, mode: RestoreMode::Recover, ..idle() }, ActionView::ReadRecord)
}

/// Switching off: a pending recovery record is put back; without one, every
/// protocol and the automatic proxy are switched off, the record that the
/// change made is removed, and the settings are read again.
pub open spec fn disable_spec(services: Seq<Seq<char>>, record_exists: bool) -> (TaskView, ActionView) {
    if record_exists {
        recover_spec()
    } else {
        start_change(services, plan_all(services, |s: Seq<char>| disable_plan(s)), None, true)
    }
}

pub open spec fn target_error(target: SystemProxyTarget) -> Option<Seq<char>> {
    match target {
        SystemProxyTarget::Manual { endpoint, bypass } => if !valid_endpoint(endpoint.host@, endpoint.port) {
            Some(endpoint_message())
        } else if !domains_ok(bypass@) {
            Some(argument_message("proxy bypass domain"@))
        } else {
            None
        },
        SystemProxyTarget::Pac { url } => if !argument_ok(url@) {
            Some(argument_message("PAC URL"@))
        } else {
            None
        },
    }
}

/// Every service set as the target asks, and checked against it afterwards.
pub open spec fn configure_spec(services: Seq<Seq<char>>, target: SystemProxyTarget) -> (TaskView, ActionView) {
    match target_error(target) {
        Some(message) => invalid(message),
        None => start_change(
            services,
            plan_all(services, |s: Seq<char>| configure_plan(s, target)),
            Some(target),
            false,
        ),
    }
}

pub open spec fn socks_spec(services: Seq<Seq<char>>, enabled: bool, endpoint: ProxyEndpoint) -> (TaskView, ActionView) {
    if !valid_endpoint(endpoint.host@, endpoint.port) {
        invalid(endpoint_message())
    } else {
        start_change(services, plan_all(services, |s: Seq<char>| socks_plan(s, enabled, endpoint)), None, false)
    }
}

pub open spec fn auto_proxy_spec(services: Seq<Seq<char>>, url: Option<Seq<char>>) -> (TaskView, ActionView) {
    if url matches Some(u) && !argument_ok(u) {
        invalid(argument_message("auto proxy url"@))
    } else {
        start_change(services, plan_all(services, |s: Seq<char>| auto_plan(s, url)), None, false)
    }
}

pub open spec fn bypass_spec(services: Seq<Seq<char>>, domains: Seq<String>) -> (TaskView, ActionView) {
    if !domains_ok(domains) {
        invalid(argument_message("proxy bypass domain"@))
    } else {
        start_change(services, plan_all(services, |s: Seq<char>| bypass_plan(s, strings_view(domains))), None, false)
    }
}

/// Moving the protocols that still point at the old endpoints: only while a
/// recovery record exists, and planned from the settings read first.
pub open spec fn remap_spec(
    services: Seq<Seq<char>>,
    record_exists: bool,
    old_http: ProxyEndpoint,
    old_socks: Option<ProxyEndpoint>,
    new: ProxyEndpoint,
) -> (TaskView, ActionView) {
    if !record_exists {
        (idle(), ActionView::Unchanged)
    } else if !names_ok(services) {
        invalid(services_message())
    } else {
        (
            TaskView { stage: Stage::Planning, services, remap: Some((old_http, old_socks, new)), ..idle() },
            ActionView::ReadState(services),
        )
    }
}

/// Given settings written back and read back.
pub open spec fn restore_spec(previous: Seq<ServiceView>) -> (TaskView, ActionView) {
    start_restore(TaskView { previous, mode: RestoreMode::Snapshot, ..idle() })
}

/// The step of a transaction on an event.
pub open spec fn step(m: TaskView, e: ProxyEvent) -> (TaskView, ActionView) {
    match (m.stage, e) {
        (Stage::Reading, ProxyEvent::State(r)) => finish(m, result_view(r)),
        (Stage::Planning, ProxyEvent::State(r)) => match r {
            Err(err) => finish(m, Err(err_view(err))),
            Ok(s) => {
                let (old_http, old_socks, new) = m.remap.unwrap();
                start_change(m.services, remap_all(s.services@, old_http, old_socks, new), None, false)
            },
        },
        (Stage::Snapshot, ProxyEvent::State(r)) => match r {
            Err(err) => finish(m, Err(err_view(err))),
            Ok(s) => {
                let saved = TaskView {
                    previous: services_view(s.services@),
                    created_record: !s.recovery_pending,
                    ..m
                };
                if !s.recovery_pending {
                    (TaskView { stage: Stage::Writing, ..saved }, ActionView::WriteRecord(state_view(s)))
                } else {
                    apply_from(saved, 0)
                }
            },
        },
        (Stage::Writing, ProxyEvent::Written(r)) => match r {
            Err(err) => finish(m, Err(err_view(err))),
            Ok(_) => apply_from(m, 0),
        },
        (Stage::Applying(i), ProxyEvent::Ran(r)) => match r {
            Err(err) => rollback(m, err_view(err)),
            Ok(_) => apply_from(m, i + 1),
        },
        (Stage::Checking, ProxyEvent::State(r)) => match r {
            Err(err) => rollback(m, err_view(err)),
            Ok(s) => if m.target matches Some(t) && !target_holds(t, s) {
                rollback(m, platform(mismatch_message()))
            } else if m.clear_after {
                (TaskView { stage: Stage::Clearing, ..m }, ActionView::RemoveRecord)
            } else {
                finish(m, Ok(state_view(s)))
            },
        },
        (Stage::Clearing, ProxyEvent::Removed(r)) => match r {
            Err(err) => finish(m, Err(err_view(err))),
            Ok(_) => (TaskView { stage: Stage::Rereading, ..m }, ActionView::ReadState(m.services)),
        },
        (Stage::Rereading, ProxyEvent::State(r)) => finish(m, result_view(r)),
        (Stage::Restoring(i), ProxyEvent::Ran(r)) => match r {
            Err(err) => restore_from(
                TaskView { errors: m.errors.push(m.labels[i as int] + ": "@ + err.message@), ..m },
                i + 1,
            ),
            Ok(_) => restore_from(m, i + 1),
        },
        (Stage::Confirming(j), ProxyEvent::Service(r)) => match r {
            Err(err) => restore_done(m, Err(err_view(err))),
            Ok(actual) => if j < m.previous.len() && service_restored(m.previous[j as int], service_view(actual)) {
                confirm_from(TaskView { restored: m.restored.push(service_view(actual)), ..m }, j + 1)
            } else {
                restore_done(m, Err(platform(not_restored_message(m.previous[j as int].service))))
            },
        },
        (Stage::Unrecording, ProxyEvent::Removed(r)) => match r {
            Err(err) => finish(m, Err(err_view(err))),
            Ok(_) => finish(m, Err(m.cause.unwrap())),
        },
        (Stage::Recovering, ProxyEvent::Record(r)) => match r {
            Err(err) => finish(m, Err(err_view(err))),
            Ok(s) => start_restore(
                TaskView { previous: normalized_services(services_view(s.services@)), mode: RestoreMode::Recover, cause: None, ..m },
            ),
        },
        (Stage::Settling, ProxyEvent::Removed(r)) => match r {
            Err(err) => finish(m, Err(err_view(err))),
            Ok(_) => finish(m, Ok((m.restored, false))),
        },
        _ => event_unexpected(m),
    }
}

proof fn lemma_restore_lengths(v: Seq<ServiceView>)
    ensures
        restore_all(v).len() == labels_all(v).len(),
    decreases v.len(),
{
    if v.len() > 0 {
        lemma_restore_lengths(v.drop_last());
    }
}

fn error_line(label: &String, message: &String) -> (r: String)
    ensures
        r@ == label@ + ": "@ + message@,
{
    label.clone().concat(": ").concat(message.as_str())
}

fn service_names(states: &Vec<SystemProxyServiceState>) -> (r: Vec<String>)
    ensures
        strings_view(r@) == previous_names(services_view(states@)),
{
    let mut out: Vec<String> = Vec::new();
    let mut i: usize = 0;
    while i < states.len()
        invariant
            i <= states@.len(),
            strings_view(out@) == previous_names(services_view(states@)).take(i as int),
        decreases states.len() - i,
    {
        let ghost before = strings_view(out@);
        out.push(states[i].service.clone());
        assert(previous_names(services_view(states@))[i as int] == states@[i as int].service@);
        assert(strings_view(out@) =~= before.push(states@[i as int].service@));
        assert(strings_view(out@) =~= previous_names(services_view(states@)).take(i + 1));
        i = i + 1;
    }
    assert(previous_names(services_view(states@)).take(states@.len() as int) =~= previous_names(
        services_view(states@),
    ));
    out
}

impl MacSystemProxy {
    pub fn new() -> (r: Self)
        ensures
            r@ == idle(),
            wf(r@),
    {
        let r = MacSystemProxy {
            stage: Stage::Idle,
            services: Vec::new(),
            ops: Vec::new(),
            target: None,
            clear_after: false,
            remap: None,
            previous: Vec::new(),
            created_record: false,
            cause: None,
            mode: RestoreMode::Snapshot,
            restore: Vec::new(),
            labels: Vec::new(),
            errors: Vec::new(),
            restored: Vec::new(),
        };
        assert(strings_view(r.services@) =~= Seq::<Seq<char>>::empty());
        assert(ops_view(r.ops@) =~= Seq::<OpView>::empty());
        assert(services_view(r.previous@) =~= Seq::<ServiceView>::empty());
        assert(ops_view(r.restore@) =~= Seq::<OpView>::empty());
        assert(strings_view(r.labels@) =~= Seq::<Seq<char>>::empty());
        assert(strings_view(r.errors@) =~= Seq::<Seq<char>>::empty());
        assert(services_view(r.restored@) =~= Seq::<ServiceView>::empty());
        assert(r@ =~= idle());
        r
    }

    fn reset(&mut self)
        ensures
            final(self)@ == idle(),
    {
        *self = MacSystemProxy::new();
    }

    fn finish_with(&mut self, r: Result<SystemProxyState, AppError>) -> (a: ProxyAction)
        ensures
            (final(self)@, action_view(a)) == finish(old(self)@, result_view(r)),
            wf(old(self)@) ==> wf(final(self)@),
    {
        self.stage = Stage::Idle;
        ProxyAction::Finish(r)
    }

    fn fail(&mut self, e: AppError) -> (a: ProxyAction)
        ensures
            (final(self)@, action_view(a)) == finish(old(self)@, Err(err_view(e))),
            wf(old(self)@) ==> wf(final(self)@),
    {
        self.finish_with(Err(e))
    }

    fn start_change(&mut self, services: Vec<String>, ops: Vec<ProxyOp>, target: Option<SystemProxyTarget>, clear_after: bool) -> (a: ProxyAction)
        ensures
            (final(self)@, action_view(a)) == start_change(strings_view(services@), ops_view(ops@), target, clear_after),
            wf(final(self)@),
    {
        self.reset();
        if let Err(e) = validate_services(&services) {
            return self.fail(e);
        }
        let read = copy_strings(&services);
        self.stage = Stage::Snapshot;
        self.services = services;
        self.ops = ops;
        self.target = target;
        self.clear_after = clear_after;
        proof {
            assert(strings_view(read@) == strings_view(self.services@));
        }
        ProxyAction::ReadState(read)
    }

    fn apply_from(&mut self, i: usize) -> (a: ProxyAction)
        requires
            wf(old(self)@),
        ensures
            (final(self)@, action_view(a)) == apply_from(old(self)@, i as int),
            wf(final(self)@),
    {
        if i >= self.ops.len() {
            self.stage = Stage::Checking;
            let read = copy_strings(&self.services);
            return ProxyAction::ReadState(read);
        }
        match precheck(&self.ops[i]) {
            Err(e) => self.rollback(e),
            Ok(()) => {
                self.stage = Stage::Applying(i);
                ProxyAction::Run(self.ops[i].clone())
            },
        }
    }

    fn rollback(&mut self, cause: AppError) -> (a: ProxyAction)
        requires
            wf(old(self)@),
        ensures
            (final(self)@, action_view(a)) == rollback(old(self)@, err_view(cause)),
            wf(final(self)@),
    {
        self.cause = Some(cause);
        self.mode = RestoreMode::Rollback;
        self.start_restore()
    }

    fn start_restore(&mut self) -> (a: ProxyAction)
        requires
            wf(old(self)@),
        ensures
            (final(self)@, action_view(a)) == start_restore(old(self)@),
            wf(final(self)@),
    {
        let names = service_names(&self.previous);
        if let Err(e) = validate_services(&names) {
            return self.restore_done(Err(e));
        }
        let (ops, labels) = restore_ops(&self.previous);
        proof {
            lemma_restore_lengths(services_view(self.previous@));
        }
        self.stage = Stage::Idle;
        self.restore = ops;
        self.labels = labels;
        self.errors = Vec::new();
        self.restored = Vec::new();
        proof {
            assert(strings_view(self.errors@) =~= Seq::<Seq<char>>::empty());
            assert(services_view(self.restored@) =~= Seq::<ServiceView>::empty());
        }
        self.restore_from(0)
    }

    fn restore_from(&mut self, i: usize) -> (a: ProxyAction)
        requires
            wf(old(self)@),
        ensures
            (final(self)@, action_view(a)) == restore_from(old(self)@, i as int),
            wf(final(self)@),
    {
        let mut k = i;
        while k < self.restore.len()
            invariant
                wf(self@),
                restore_from(old(self)@, i as int) == restore_from(self@, k as int),
            decreases self.restore.len() - k,
        {
            match precheck(&self.restore[k]) {
                Ok(()) => {
                    self.stage = Stage::Restoring(k);
                    return ProxyAction::Run(self.restore[k].clone());
                },
                Err(e) => {
                    let line = error_line(&self.labels[k], &e.message);
                    let ghost before = self@;
                    let ghost before_errors = self.errors@;
                    self.errors.push(line);
                    proof {
                        assert(strings_view(self.errors@) =~= strings_view(before_errors).push(line@));
                        assert(self@ =~= TaskView { errors: before.errors.push(before.labels[k as int] + ": "@ + precheck_message(before.restore[k as int])), ..before });
                    }
                },
            }
            k = k + 1;
        }
        if self.errors.len() > 0 {
            let message = String::from_str("system proxy recovery was incomplete: ").concat(join_with(&self.errors, "; ").as_str());
            return self.restore_done(Err(AppError::with_message(ErrorCode::PlatformFailed, message)));
        }
        self.confirm_from(0)
    }

    fn confirm_from(&mut self, j: usize) -> (a: ProxyAction)
        requires
            wf(old(self)@),
        ensures
            (final(self)@, action_view(a)) == confirm_from(old(self)@, j as int),
            wf(final(self)@),
    {
        if j >= self.previous.len() {
            let services = copy_services(&self.restored);
            return self.restore_done(Ok(services));
        }
        self.stage = Stage::Confirming(j);
        ProxyAction::ReadService(self.previous[j].clone())
    }

    fn restore_done(&mut self, r: Result<Vec<SystemProxyServiceState>, AppError>) -> (a: ProxyAction)
        requires
            wf(old(self)@),
        ensures
            (final(self)@, action_view(a)) == restore_done(
                old(self)@,
                match r {
                    Ok(v) => Ok(services_view(v@)),
                    Err(e) => Err(err_view(e)),
                },
            ),
            wf(final(self)@),
    {
        match self.mode {
            RestoreMode::Rollback => {
                let cause = match &self.cause {
                    Some(c) => c.clone(),
                    None => {
                        return self.fail(AppError::new(ErrorCode::PlatformFailed, ""));
                    },
                };
                match r {
                    Ok(_) => {
                        if self.created_record {
                            self.stage = Stage::Unrecording;
                            ProxyAction::RemoveRecord
                        } else {
                            self.fail(cause)
                        }
                    },
                    Err(e) => {
                        let message = String::from_str("system proxy apply failed: ").concat(cause.message.as_str()).concat(
                            "; rollback failed: ",
                        ).concat(e.message.as_str());
                        self.fail(AppError::with_message(ErrorCode::PlatformFailed, message))
                    },
                }
            },
            RestoreMode::Recover => match r {
                Ok(services) => {
                    self.stage = Stage::Settling;
                    self.restored = services;
                    ProxyAction::RemoveRecord
                },
                Err(e) => self.fail(e),
            },
            RestoreMode::Snapshot => match r {
                Ok(services) => self.finish_with(Ok(SystemProxyState { services, recovery_pending: false })),
                Err(e) => self.fail(e),
            },
        }
    }

    /// Advances the transaction with what the caller observed.
    pub fn resume(&mut self, event: ProxyEvent) -> (a: ProxyAction)
        requires
            wf(old(self)@),
        ensures
            (final(self)@, action_view(a)) == step(old(self)@, event),
            wf(final(self)@),
    {
        match (self.stage, event) {
            (Stage::Reading, ProxyEvent::State(r)) => self.finish_with(r),
            (Stage::Planning, ProxyEvent::State(r)) => match r {
                Err(e) => self.fail(e),
                Ok(s) => {
                    let ops = match &self.remap {
                        Some((old_http, old_socks, new)) => remap_ops(&s.services, old_http, old_socks.as_ref(), new),
                        None => Vec::new(),
                    };
                    let services = copy_strings(&self.services);
                    self.start_change(services, ops, None, false)
                },
            },
            (Stage::Snapshot, ProxyEvent::State(r)) => match r {
                Err(e) => self.fail(e),
                Ok(s) => {
                    self.previous = copy_services(&s.services);
                    self.created_record = !s.recovery_pending;
                    if !s.recovery_pending {
                        self.stage = Stage::Writing;
                        ProxyAction::WriteRecord(s)
                    } else {
                        self.apply_from(0)
                    }
                },
            },
            (Stage::Writing, ProxyEvent::Written(r)) => match r {
                Err(e) => self.fail(e),
                Ok(()) => self.apply_from(0),
            },
            (Stage::Applying(i), ProxyEvent::Ran(r)) => match r {
                Err(e) => self.rollback(e),
                Ok(()) => {
                    let n = self.ops.len();
                    assert(ops_view(self.ops@).len() == n);
                    self.apply_from(i + 1)
                },
            },
            (Stage::Checking, ProxyEvent::State(r)) => match r {
                Err(e) => self.rollback(e),
                Ok(s) => {
                    let mismatch = match &self.target {
                        Some(t) => !t.matches(&s),
                        None => false,
                    };
                    if mismatch {
                        self.rollback(AppError::new(
                            ErrorCode::PlatformFailed,
                            "system proxy did not match the requested configuration after applying it",
                        ))
                    } else if self.clear_after {
                        self.stage = Stage::Clearing;
                        ProxyAction::RemoveRecord
                    } else {
                        self.finish_with(Ok(s))
                    }
                },
            },
            (Stage::Clearing, ProxyEvent::Removed(r)) => match r {
                Err(e) => self.fail(e),
                Ok(()) => {
                    self.stage = Stage::Rereading;
                    ProxyAction::ReadState(copy_strings(&self.services))
                },
            },
            (Stage::Rereading, ProxyEvent::State(r)) => self.finish_with(r),
            (Stage::Restoring(i), ProxyEvent::Ran(r)) => {
                if let Err(e) = r {
                    let line = error_line(&self.labels[i], &e.message);
                    let ghost before = self@;
                    let ghost before_errors = self.errors@;
                    self.errors.push(line);
                    proof {
                        assert(strings_view(self.errors@) =~= strings_view(before_errors).push(line@));
                        assert(self@ =~= TaskView {
                            errors: before.errors.push(before.labels[i as int] + ": "@ + e.message@),
                            ..before
                        });
                    }
                }
                let n = self.restore.len();
                assert(ops_view(self.restore@).len() == n);
                self.restore_from(i + 1)
            },
            (Stage::Confirming(j), ProxyEvent::Service(r)) => match r {
                Err(e) => self.restore_done(Err(e)),
                Ok(actual) => {
                    if service_restored_matches(&self.previous[j], &actual) {
                        let ghost before = self@;
                        let ghost before_restored = self.restored@;
                        self.restored.push(actual);
                        proof {
                            assert(services_view(self.restored@) =~= services_view(before_restored).push(service_view(actual)));
                            assert(self@ =~= TaskView { restored: before.restored.push(service_view(actual)), ..before });
                        }
                        let n = self.previous.len();
                        assert(services_view(self.previous@).len() == n);
                        self.confirm_from(j + 1)
                    } else {
                        let message = String::from_str("system proxy did not match the recovery snapshot for ").concat(
                            self.previous[j].service.as_str(),
                        );
                        self.restore_done(Err(AppError::with_message(ErrorCode::PlatformFailed, message)))
                    }
                },
            },
            (Stage::Unrecording, ProxyEvent::Removed(r)) => match r {
                Err(e) => self.fail(e),
                Ok(()) => {
                    let cause = match &self.cause {
                        Some(c) => c.clone(),
                        None => AppError::new(ErrorCode::PlatformFailed, ""),
                    };
                    self.fail(cause)
                },
            },
            (Stage::Recovering, ProxyEvent::Record(r)) => match r {
                Err(e) => self.fail(e),
                Ok(s) => {
                    let n = normalize_record(s);
                    self.previous = n.services;
                    self.mode = RestoreMode::Recover;
                    self.cause = None;
                    self.start_restore()
                },
            },
            (Stage::Settling, ProxyEvent::Removed(r)) => match r {
                Err(e) => self.fail(e),
                Ok(()) => {
                    let services = copy_services(&self.restored);
                    self.finish_with(Ok(SystemProxyState { services, recovery_pending: false }))
                },
            },
            _ => self.fail(AppError::new(
                ErrorCode::PlatformFailed,
                "the event does not answer the pending system proxy action",
            )),
        }
    }

    /// Reads the settings of `services`.
    pub fn state(&mut self, services: &Vec<String>) -> (a: ProxyAction)
        ensures
            (final(self)@, action_view(a)) == read_spec(strings_view(services@)),
            wf(final(self)@),
    {
        self.reset();
        if let Err(e) = validate_services(services) {
            return self.fail(e);
        }
        self.stage = Stage::Reading;
        self.services = copy_strings(services);
        ProxyAction::ReadState(copy_strings(services))
    }

    /// Points HTTP and HTTPS of every service at `endpoint`.
    pub fn enable(&mut self, services: &Vec<String>, endpoint: &ProxyEndpoint) -> (a: ProxyAction)
        ensures
            (final(self)@, action_view(a)) == enable_spec(strings_view(services@), *endpoint),
            wf(final(self)@),
    {
        if let Err(e) = ProxyEndpoint::new(endpoint.host.as_str(), endpoint.port) {
            self.reset();
            return self.fail(e);
        }
        let ops = enable_ops(services, endpoint);
        self.start_change(copy_strings(services), ops, None, false)
    }

    /// Switches the proxy off; `record_exists` tells whether a recovery record exists.
    pub fn disable(&mut self, services: &Vec<String>, record_exists: bool) -> (a: ProxyAction)
        ensures
            (final(self)@, action_view(a)) == disable_spec(strings_view(services@), record_exists),
            wf(final(self)@),
    {
        if record_exists {
            return self.recover_pending();
        }
        let ops = disable_ops(services);
        self.start_change(copy_strings(services), ops, None, true)
    }

    /// Puts the settings of the recovery record back, then removes it.
    pub fn recover_pending(&mut self) -> (a: ProxyAction)
        ensures
            (final(self)@, action_view(a)) == recover_spec(),
            wf(final(self)@),
    {
        self.reset();
        self.stage = Stage::Recovering;
        self.mode = RestoreMode::Recover;
        ProxyAction::ReadRecord
    }

    /// Sets every service as `target` asks.
    pub fn configure(&mut self, services: &Vec<String>, target: SystemProxyTarget) -> (a: ProxyAction)
        ensures
            (final(self)@, action_view(a)) == configure_spec(strings_view(services@), target),
            wf(final(self)@),
    {
        let checked = match &target {
            SystemProxyTarget::Manual { endpoint, bypass } => match ProxyEndpoint::new(endpoint.host.as_str(), endpoint.port) {
                Err(e) => Err(e),
                Ok(_) => validate_domains(bypass),
            },
            SystemProxyTarget::Pac { url } => validate_argument("PAC URL", url.as_str()),
        };
        if let Err(e) = checked {
            self.reset();
            return self.fail(e);
        }
        let ops = configure_ops(services, &target);
        self.start_change(copy_strings(services), ops, Some(target), false)
    }

    /// Sets the SOCKS switch and endpoint of every service.
    pub fn set_socks(&mut self, services: &Vec<String>, enabled: bool, endpoint: &ProxyEndpoint) -> (a: ProxyAction)
        ensures
            (final(self)@, action_view(a)) == socks_spec(strings_view(services@), enabled, *endpoint),
            wf(final(self)@),
    {
        if let Err(e) = ProxyEndpoint::new(endpoint.host.as_str(), endpoint.port) {
            self.reset();
            return self.fail(e);
        }
        let ops = socks_ops(services, enabled, endpoint);
        self.start_change(copy_strings(services), ops, None, false)
    }

    /// Switches the automatic proxy on with `url`, or off.
    pub fn set_auto_proxy(&mut self, services: &Vec<String>, url: Option<&str>) -> (a: ProxyAction)
        ensures
            (final(self)@, action_view(a)) == auto_proxy_spec(strings_view(services@), str_option(url)),
            wf(final(self)@),
    {
        if let Some(u) = url {
            if let Err(e) = validate_argument("auto proxy url", u) {
                self.reset();
                return self.fail(e);
            }
        }
        let ops = auto_proxy_ops(services, url);
        self.start_change(copy_strings(services), ops, None, false)
    }

    /// Sets the bypass domains of every service.
    pub fn set_bypass(&mut self, services: &Vec<String>, domains: &Vec<String>) -> (a: ProxyAction)
        ensures
            (final(self)@, action_view(a)) == bypass_spec(strings_view(services@), domains@),
            wf(final(self)@),
    {
        if let Err(e) = validate_domains(domains) {
            self.reset();
            return self.fail(e);
        }
        let ops = bypass_ops(services, domains);
        self.start_change(copy_strings(services), ops, None, false)
    }

    /// Moves the protocols that still point at the old endpoints to `new`;
    /// `record_exists` tells whether a recovery record exists.
    pub fn remap_endpoints(
        &mut self,
        services: &Vec<String>,
        record_exists: bool,
        old_http: ProxyEndpoint,
        old_socks: Option<ProxyEndpoint>,
        new: ProxyEndpoint,
    ) -> (a: ProxyAction)
        ensures
            (final(self)@, action_view(a)) == remap_spec(strings_view(services@), record_exists, old_http, old_socks, new),
            wf(final(self)@),
    {
        self.reset();
        if !record_exists {
            return ProxyAction::Unchanged;
        }
        if let Err(e) = validate_services(services) {
            return self.fail(e);
        }
        self.stage = Stage::Planning;
        self.services = copy_strings(services);
        self.remap = Some((old_http, old_socks, new));
        ProxyAction::ReadState(copy_strings(services))
    }

    /// Writes the given settings back and reads them back.
    pub fn restore_snapshot(&mut self, state: &SystemProxyState) -> (a: ProxyAction)
        ensures
            (final(self)@, action_view(a)) == restore_spec(services_view(state.services@)),
            wf(final(self)@),
    {
        self.reset();
        self.previous = copy_services(&state.services);
        self.mode = RestoreMode::Snapshot;
        self.start_restore()
    }
}

} // verus!

verus! {

/// A restore hands out only writes that pass their checks; the others are
/// reported, not made.
pub proof fn lemma_restore_runs_allowed(m: TaskView, i: int)
    ensures
        restore_from(m, i).1 matches ActionView::Run(op) ==> op_allowed(op),
    decreases m.restore.len() - i,
{
    if 0 <= i < m.restore.len() && !op_allowed(m.restore[i]) {
        lemma_restore_runs_allowed(
            TaskView { errors: m.errors.push(m.labels[i] + ": "@ + precheck_message(m.restore[i])), ..m },
            i + 1,
        );
    }
}

proof fn lemma_start_restore_runs_allowed(m: TaskView)
    ensures
        start_restore(m).1 matches ActionView::Run(op) ==> op_allowed(op),
{
    if names_ok(previous_names(m.previous)) {
        lemma_restore_runs_allowed(
            TaskView {
                stage: Stage::Idle,
                restore: restore_all(m.previous),
                labels: labels_all(m.previous),
                errors: seq![],
                restored: seq![],
                ..m
            },
            0,
        );
    }
}

/// Every write that the transaction asks the caller to make passes its
/// checks: an enabled protocol has a valid endpoint, and bypass domains are
/// valid arguments.
pub proof fn law_only_checked_writes(m: TaskView, e: ProxyEvent)
    ensures
        step(m, e).1 matches ActionView::Run(op) ==> op_allowed(op),
{
    match (m.stage, e) {
        (Stage::Snapshot, ProxyEvent::State(Ok(s))) => {
            if s.recovery_pending {
                let saved = TaskView { previous: services_view(s.services@), created_record: false, ..m };
                if 0 < saved.ops.len() && !op_allowed(saved.ops[0]) {
                    lemma_start_restore_runs_allowed(
                        TaskView { cause: Some((ErrorCode::InvalidInput, precheck_message(saved.ops[0]))), mode: RestoreMode::Rollback, ..saved },
                    );
                }
            }
        },
        (Stage::Writing, ProxyEvent::Written(Ok(_))) => {
            if 0 < m.ops.len() && !op_allowed(m.ops[0]) {
                lemma_start_restore_runs_allowed(
                    TaskView { cause: Some((ErrorCode::InvalidInput, precheck_message(m.ops[0]))), mode: RestoreMode::Rollback, ..m },
                );
            }
        },
        (Stage::Applying(i), ProxyEvent::Ran(r)) => match r {
            Err(err) => lemma_start_restore_runs_allowed(
                TaskView { cause: Some(err_view(err)), mode: RestoreMode::Rollback, ..m },
            ),
            Ok(_) => {
                let j = i + 1;
                if j < m.ops.len() && !op_allowed(m.ops[j]) {
                    lemma_start_restore_runs_allowed(
                        TaskView { cause: Some((ErrorCode::InvalidInput, precheck_message(m.ops[j]))), mode: RestoreMode::Rollback, ..m },
                    );
                }
            },
        },
        (Stage::Checking, ProxyEvent::State(r)) => match r {
            Err(err) => lemma_start_restore_runs_allowed(
                TaskView { cause: Some(err_view(err)), mode: RestoreMode::Rollback, ..m },
            ),
            Ok(s) => lemma_start_restore_runs_allowed(
                TaskView { cause: Some(platform(mismatch_message())), mode: RestoreMode::Rollback, ..m },
            ),
        },
        (Stage::Restoring(i), ProxyEvent::Ran(r)) => match r {
            Err(err) => lemma_restore_runs_allowed(
                TaskView { errors: m.errors.push(m.labels[i as int] + ": "@ + err.message@), ..m },
                i + 1,
            ),
            Ok(_) => lemma_restore_runs_allowed(m, i + 1),
        },
        (Stage::Recovering, ProxyEvent::Record(Ok(s))) => {
            lemma_start_restore_runs_allowed(
                TaskView { previous: normalized_services(services_view(s.services@)), mode: RestoreMode::Recover, cause: None, ..m },
            );
        },
        _ => {},
    }
}

/// Before the first write of a change, the settings it started from are
/// saved as the recovery record, unless a record already exists; then the
/// existing record, which holds the user's original settings, is kept.
pub proof fn law_record_saved_before_writes(m: TaskView, s: SystemProxyState)
    requires
        m.stage == Stage::Snapshot,
    ensures
        !s.recovery_pending ==> step(m, ProxyEvent::State(Ok(s))) == (
            TaskView {
                stage: Stage::Writing,
                previous: services_view(s.services@),
                created_record: true,
                ..m
            },
            ActionView::WriteRecord(state_view(s)),
        ),
        s.recovery_pending ==> step(m, ProxyEvent::State(Ok(s))).0.created_record == false
            && step(m, ProxyEvent::State(Ok(s))).0.previous == services_view(s.services@),
{
    if s.recovery_pending {
        let saved = TaskView { previous: services_view(s.services@), created_record: false, ..m };
        if 0 < saved.ops.len() && !op_allowed(saved.ops[0]) {
            lemma_start_restore_keeps(TaskView { cause: Some((ErrorCode::InvalidInput, precheck_message(saved.ops[0]))), mode: RestoreMode::Rollback, ..saved });
        }
    }
}

proof fn lemma_restore_from_keeps(m: TaskView, i: int)
    ensures
        restore_from(m, i).0.previous == m.previous,
        restore_from(m, i).0.created_record == m.created_record,
    decreases m.restore.len() - i,
{
    if 0 <= i < m.restore.len() && !op_allowed(m.restore[i]) {
        lemma_restore_from_keeps(
            TaskView { errors: m.errors.push(m.labels[i] + ": "@ + precheck_message(m.restore[i])), ..m },
            i + 1,
        );
    }
}

proof fn lemma_start_restore_keeps(m: TaskView)
    ensures
        start_restore(m).0.previous == m.previous,
        start_restore(m).0.created_record == m.created_record,
{
    if names_ok(previous_names(m.previous)) {
        lemma_restore_from_keeps(
            TaskView {
                stage: Stage::Idle,
                restore: restore_all(m.previous),
                labels: labels_all(m.previous),
                errors: seq![],
                restored: seq![],
                ..m
            },
            0,
        );
    }
}

/// A failed write turns the change into a restore of the settings it started
/// from, which reports the write's error.
pub proof fn law_failed_write_restores(m: TaskView, i: usize, err: AppError)
    requires
        m.stage == Stage::Applying(i),
    ensures
        step(m, ProxyEvent::Ran(Err(err))) == start_restore(
            TaskView { cause: Some(err_view(err)), mode: RestoreMode::Rollback, ..m },
        ),
        step(m, ProxyEvent::Ran(Err(err))).0.previous == m.previous,
{
    lemma_start_restore_keeps(TaskView { cause: Some(err_view(err)), mode: RestoreMode::Rollback, ..m });
}

/// After a roll-back succeeds, the recovery record is removed only when this
/// change created it; otherwise the change's error is reported at once.
pub proof fn law_rollback_removes_only_own_record(m: TaskView, restored: Seq<ServiceView>)
    requires
        m.mode == RestoreMode::Rollback,
        m.cause is Some,
    ensures
        m.created_record ==> restore_done(m, Ok(restored)).1 == ActionView::RemoveRecord,
        !m.created_record ==> restore_done(m, Ok(restored)).1 == ActionView::Finish(Err(m.cause.unwrap())),
{
}

/// When the roll-back itself fails, both errors are reported.
pub proof fn law_failed_rollback_reports_both(m: TaskView, e: (ErrorCode, Seq<char>))
    requires
        m.mode == RestoreMode::Rollback,
        m.cause is Some,
    ensures
        restore_done(m, Err(e)).1 == ActionView::Finish(
            Err(platform(rollback_message(m.cause.unwrap().1, e.1))),
        ),
{
}


proof fn lemma_restore_from_writes_no_record(m: TaskView, i: int)
    ensures
        !(restore_from(m, i).1 is WriteRecord),
    decreases m.restore.len() - i,
{
    if 0 <= i < m.restore.len() && !op_allowed(m.restore[i]) {
        lemma_restore_from_writes_no_record(
            TaskView { errors: m.errors.push(m.labels[i] + ": "@ + precheck_message(m.restore[i])), ..m },
            i + 1,
        );
    }
}

proof fn lemma_start_restore_writes_no_record(m: TaskView)
    ensures
        !(start_restore(m).1 is WriteRecord),
{
    if names_ok(previous_names(m.previous)) {
        lemma_restore_from_writes_no_record(
            TaskView {
                stage: Stage::Idle,
                restore: restore_all(m.previous),
                labels: labels_all(m.previous),
                errors: seq![],
                restored: seq![],
                ..m
            },
            0,
        );
    }
}

proof fn lemma_apply_from_writes_no_record(m: TaskView, i: int)
    ensures
        !(apply_from(m, i).1 is WriteRecord),
{
    if i < m.ops.len() && !op_allowed(m.ops[i]) {
        lemma_start_restore_writes_no_record(
            TaskView { cause: Some((ErrorCode::InvalidInput, precheck_message(m.ops[i]))), mode: RestoreMode::Rollback, ..m },
        );
    }
}

/// The recovery record is written only as the answer to the read of the
/// settings before a change, when that read found no record: a record that
/// exists, and so holds the settings from before Verge changed anything, is
/// never written over by a later change, a roll-back or a recovery. Putting
/// back given settings never writes the record either.
pub proof fn law_record_written_only_when_none_exists(m: TaskView, e: ProxyEvent, previous: Seq<ServiceView>)
    ensures
        step(m, e).1 is WriteRecord ==> m.stage == Stage::Snapshot
            && (e matches ProxyEvent::State(Ok(s)) && !s.recovery_pending),
        !(restore_spec(previous).1 is WriteRecord),
{
    lemma_start_restore_writes_no_record(TaskView { previous, mode: RestoreMode::Snapshot, ..idle() });
    match (m.stage, e) {
        (Stage::Snapshot, ProxyEvent::State(Ok(s))) => {
            if s.recovery_pending {
                lemma_apply_from_writes_no_record(
                    TaskView { previous: services_view(s.services@), created_record: false, ..m },
                    0,
                );
            }
        },
        (Stage::Writing, ProxyEvent::Written(Ok(_))) => lemma_apply_from_writes_no_record(m, 0),
        (Stage::Applying(i), ProxyEvent::Ran(r)) => match r {
            Err(err) => lemma_start_restore_writes_no_record(
                TaskView { cause: Some(err_view(err)), mode: RestoreMode::Rollback, ..m },
            ),
            Ok(_) => lemma_apply_from_writes_no_record(m, i + 1),
        },
        (Stage::Checking, ProxyEvent::State(r)) => match r {
            Err(err) => lemma_start_restore_writes_no_record(
                TaskView { cause: Some(err_view(err)), mode: RestoreMode::Rollback, ..m },
            ),
            Ok(_) => lemma_start_restore_writes_no_record(
                TaskView { cause: Some(platform(mismatch_message())), mode: RestoreMode::Rollback, ..m },
            ),
        },
        (Stage::Restoring(i), ProxyEvent::Ran(r)) => match r {
            Err(err) => lemma_restore_from_writes_no_record(
                TaskView { errors: m.errors.push(m.labels[i as int] + ": "@ + err.message@), ..m },
                i + 1,
            ),
            Ok(_) => lemma_restore_from_writes_no_record(m, i + 1),
        },
        (Stage::Recovering, ProxyEvent::Record(Ok(s))) => lemma_start_restore_writes_no_record(
            TaskView { previous: normalized_services(services_view(s.services@)), mode: RestoreMode::Recover, cause: None, ..m },
        ),
        _ => {},
    }
}

/// The first `n` saved services are read back as restored.
pub open spec fn confirmed(previous: Seq<ServiceView>, restored: Seq<ServiceView>, n: int) -> bool {
    restored.len() == n && forall|k: int| 0 <= k < n ==> service_restored(previous[k], #[trigger] restored[k])
}

/// What restores keep: nothing counts as restored while the settings are
/// written back; at the read-back of service `j` the services before it are
/// confirmed; once a recovery settles every saved service is; and a recovery
/// is never in the middle of a change.
pub open spec fn restore_ok(m: TaskView) -> bool {
    &&& m.stage is Restoring ==> m.restored.len() == 0
    &&& (m.stage matches Stage::Confirming(j) ==> confirmed(m.previous, m.restored, j as int))
    &&& m.stage is Settling ==> confirmed(m.previous, m.restored, m.previous.len() as int)
    &&& m.mode == RestoreMode::Recover ==> (m.stage is Idle || m.stage is Recovering || m.stage is Restoring
        || m.stage is Confirming || m.stage is Settling)
}

proof fn lemma_confirm_from_ok(m: TaskView, j: int)
    requires
        0 <= j <= m.previous.len(),
        j == 0 || m.previous.len() <= usize::MAX,
        confirmed(m.previous, m.restored, j),
    ensures
        restore_ok(confirm_from(m, j).0),
{
}

proof fn lemma_restore_from_settles(m: TaskView, i: int)
    requires
        m.mode == RestoreMode::Recover,
    ensures
        restore_from(m, i).1 is RemoveRecord ==> restore_from(m, i).0.stage is Settling,
    decreases m.restore.len() - i,
{
    if 0 <= i < m.restore.len() && !op_allowed(m.restore[i]) {
        lemma_restore_from_settles(
            TaskView { errors: m.errors.push(m.labels[i] + ": "@ + precheck_message(m.restore[i])), ..m },
            i + 1,
        );
    }
}

proof fn lemma_restore_from_ok(m: TaskView, i: int)
    requires
        m.restored.len() == 0,
    ensures
        restore_ok(restore_from(m, i).0),
    decreases m.restore.len() - i,
{
    if 0 <= i < m.restore.len() && !op_allowed(m.restore[i]) {
        lemma_restore_from_ok(
            TaskView { errors: m.errors.push(m.labels[i] + ": "@ + precheck_message(m.restore[i])), ..m },
            i + 1,
        );
    } else if i < 0 || i >= m.restore.len() {
        if m.errors.len() == 0 {
            lemma_confirm_from_ok(m, 0);
        }
    }
}

proof fn lemma_start_restore_ok(m: TaskView)
    ensures
        restore_ok(start_restore(m).0),
{
    if names_ok(previous_names(m.previous)) {
        lemma_restore_from_ok(
            TaskView {
                stage: Stage::Idle,
                restore: restore_all(m.previous),
                labels: labels_all(m.previous),
                errors: seq![],
                restored: seq![],
                ..m
            },
            0,
        );
    }
}

proof fn lemma_apply_from_ok(m: TaskView, i: int)
    requires
        m.mode != RestoreMode::Recover,
    ensures
        restore_ok(apply_from(m, i).0),
{
    if i < m.ops.len() && !op_allowed(m.ops[i]) {
        lemma_start_restore_ok(
            TaskView { cause: Some((ErrorCode::InvalidInput, precheck_message(m.ops[i]))), mode: RestoreMode::Rollback, ..m },
        );
    }
}

/// Every step keeps `restore_ok`; and a recovery asks for the record to be
/// removed only once every saved service was written back and read back as
/// restored. So a recovery that fails keeps the record, and a later attempt
/// starts again from it. (The saved services come from a list, so their
/// number fits in `usize`.)
pub proof fn law_recovery_removes_record_only_when_restored(m: TaskView, e: ProxyEvent)
    requires
        wf(m),
        restore_ok(m),
        m.previous.len() <= usize::MAX,
    ensures
        restore_ok(recover_spec().0),
        restore_ok(step(m, e).0),
        m.mode == RestoreMode::Recover && step(m, e).1 is RemoveRecord ==> confirmed(
            step(m, e).0.previous,
            step(m, e).0.restored,
            step(m, e).0.previous.len() as int,
        ),
{
    match (m.stage, e) {
        (Stage::Snapshot, ProxyEvent::State(Ok(s))) => {
            let saved = TaskView { previous: services_view(s.services@), created_record: !s.recovery_pending, ..m };
            if s.recovery_pending {
                lemma_apply_from_ok(saved, 0);
            }
        },
        (Stage::Writing, ProxyEvent::Written(Ok(_))) => lemma_apply_from_ok(m, 0),
        (Stage::Applying(i), ProxyEvent::Ran(r)) => match r {
            Err(err) => lemma_start_restore_ok(TaskView { cause: Some(err_view(err)), mode: RestoreMode::Rollback, ..m }),
            Ok(_) => lemma_apply_from_ok(m, i + 1),
        },
        (Stage::Checking, ProxyEvent::State(r)) => match r {
            Err(err) => lemma_start_restore_ok(TaskView { cause: Some(err_view(err)), mode: RestoreMode::Rollback, ..m }),
            Ok(_) => lemma_start_restore_ok(
                TaskView { cause: Some(platform(mismatch_message())), mode: RestoreMode::Rollback, ..m },
            ),
        },
        (Stage::Restoring(i), ProxyEvent::Ran(r)) => match r {
            Err(err) => {
                let next = TaskView { errors: m.errors.push(m.labels[i as int] + ": "@ + err.message@), ..m };
                lemma_restore_from_ok(next, i + 1);
                if m.mode == RestoreMode::Recover {
                    lemma_restore_from_settles(next, i + 1);
                }
            },
            Ok(_) => {
                lemma_restore_from_ok(m, i + 1);
                if m.mode == RestoreMode::Recover {
                    lemma_restore_from_settles(m, i + 1);
                }
            },
        },
        (Stage::Confirming(j), ProxyEvent::Service(Ok(actual))) => {
            if j < m.previous.len() && service_restored(m.previous[j as int], service_view(actual)) {
                let next = TaskView { restored: m.restored.push(service_view(actual)), ..m };
                assert(confirmed(next.previous, next.restored, j + 1)) by {
                    assert forall|k: int| 0 <= k < j + 1 implies service_restored(next.previous[k], #[trigger] next.restored[k]) by {
                        if k < j {
                            assert(next.restored[k] == m.restored[k]);
                        }
                    }
                }
                lemma_confirm_from_ok(next, j + 1);
            }
        },
        (Stage::Recovering, ProxyEvent::Record(Ok(s))) => {
            let next = TaskView { previous: normalized_services(services_view(s.services@)), mode: RestoreMode::Recover, cause: None, ..m };
            lemma_start_restore_ok(next);
            if names_ok(previous_names(next.previous)) {
                lemma_restore_from_settles(
                    TaskView {
                        stage: Stage::Idle,
                        restore: restore_all(next.previous),
                        labels: labels_all(next.previous),
                        errors: seq![],
                        restored: seq![],
                        ..next
                    },
                    0,
                );
            }
        },
        _ => {},
    }
}

} // verus!
