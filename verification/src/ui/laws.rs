//! Properties of the UI reducer that relate several of its steps.
use vstd::prelude::*;

use crate::domain::{AppCommand, AppCommandOutput, AppCommandResult, AppError, LogEvent, ProxyGroup, RealtimeEvent, RuntimeCommand, RuntimeCommandOutput, RuntimeCommandResult};
use crate::ui::{
    dispatches, first_group, first_group_at, has_group, is_write, key_of, profile_key, response_request, RequestKey,
    UiAction, UiModel, UiRequest, UiRequestEnvelope, UiResponse, UiResponseEnvelope,
};

verus! {

/// A stale answer to a read (a newer request of the same class was begun after
/// it) changes nothing but the bookkeeping of requests in flight.
pub proof fn stale_read_keeps_newer_intent(m: UiModel, e: UiResponseEnvelope, id: u64, request: UiRequest)
    requires
        e.request_id == Some(id),
        response_request(e.response) == Some(request),
        !is_write(request),
        m.is_stale(key_of(request), id),
    ensures
        ({
            let n = m.after_envelope(e);
            n == UiModel {
                pending: n.pending,
                pending_requests: n.pending_requests,
                latest_requests: n.latest_requests,
                ..m
            }
        }),
{
}

proof fn lemma_events_keep_tracking(m: UiModel, es: Seq<RealtimeEvent>)
    ensures
        m.after_events(es).pending_requests == m.pending_requests,
        m.after_events(es).latest_requests == m.latest_requests,
        m.after_events(es).pending == m.pending,
    decreases es.len(),
{
    if es.len() > 0 {
        lemma_events_keep_tracking(m, es.drop_last());
    }
}

proof fn lemma_response_keeps_tracking(m: UiModel, r: crate::ui::UiResponse)
    ensures
        m.after_response(r).pending_requests == m.pending_requests,
        m.after_response(r).latest_requests == m.latest_requests,
{
    match r {
        crate::ui::UiResponse::Runtime { request, result: Ok(result) } => {
            let m1 = UiModel {
                pending: m.pending.remove(crate::ui::runtime_key(request)),
                core_status: crate::ui::CoreStatus::Running,
                ..m
            };
            if let RuntimeCommandOutput::Realtime(events) = result.output {
                lemma_events_keep_tracking(m1, events@);
            }
        },
        _ => {},
    }
}

/// After an answer to a tracked request, its class is in flight exactly when
/// another tracked request of that class still is.
pub proof fn class_pending_until_all_answered(m: UiModel, e: UiResponseEnvelope, id: u64, request: UiRequest)
    requires
        e.request_id == Some(id),
        response_request(e.response) == Some(request),
    ensures
        m.after_envelope(e).pending.contains(key_of(request)) <==> m.after_envelope(e).has_pending_of(
            key_of(request),
        ),
        !m.after_envelope(e).pending_requests.dom().contains(id),
{
    let k = key_of(request);
    let m1 = UiModel { pending_requests: m.pending_requests.remove(id), ..m };
    let m2 = if m.envelope_applies(e) {
        m1.after_response(e.response)
    } else {
        m1
    };
    lemma_response_keeps_tracking(m1, e.response);
    assert(m2.pending_requests == m1.pending_requests);
    let n = m.after_envelope(e);
    assert(n.pending_requests == m2.pending_requests);
    if m2.has_pending_of(k) {
        assert(n.pending.contains(k));
        let w = choose|w: u64| #[trigger] m2.pending_requests.dom().contains(w) && m2.pending_requests[w] == k;
        assert(n.pending_requests.dom().contains(w) && n.pending_requests[w] == k);
    } else {
        assert(!n.pending.contains(k));
        assert forall|w: u64| #[trigger] n.pending_requests.dom().contains(w) implies n.pending_requests[w] != k by {
            assert(m2.pending_requests.dom().contains(w));
        }
    }
}

/// Recording a log event never lets the log grow past its limit.
pub proof fn log_stays_bounded(m: UiModel, log: LogEvent)
    requires
        m.log_limit() > 0,
        m.logs.len() <= m.log_limit(),
    ensures
        m.after_realtime(RealtimeEvent::Log(log)).logs.len() <= m.log_limit(),
        m.after_realtime(RealtimeEvent::Log(log)).logs.last() == log,
{
}

/// A failed read does not replace the error of an earlier failed write.
pub proof fn read_failure_keeps_write_error(m: UiModel, r: UiRequest, error: AppError)
    requires
        m.last_error_from_write,
        !is_write(r),
    ensures
        m.failed(r, error).last_error == m.last_error,
        m.failed(r, error).last_error_from_write,
{
}

/// A failed write always shows its own error.
pub proof fn write_failure_is_shown(m: UiModel, r: UiRequest, error: AppError)
    requires
        is_write(r),
    ensures
        m.failed(r, error).last_error == Some(error),
{
}

/// A measured delay is recorded for its proxy alone, and that proxy is no
/// longer being tested.
pub proof fn delay_result_is_per_proxy(
    m: UiModel,
    proxy: String,
    url: String,
    timeout_ms: u32,
    delay: u32,
    summary: String,
    other: Seq<char>,
)
    requires
        other != proxy@,
    ensures
        ({
            let n = m.after_runtime(
                RuntimeCommand::TestProxyDelay { proxy, url, timeout_ms },
                RuntimeCommandResult { output: RuntimeCommandOutput::Delay(delay), summary },
            );
            &&& n.delays[proxy@] == delay
            &&& !n.delay_pending.contains(proxy@)
            &&& n.delay_pending.contains(other) == m.delay_pending.contains(other)
            &&& n.delays.dom().contains(other) == m.delays.dom().contains(other)
            &&& m.delays.dom().contains(other) ==> n.delays[other] == m.delays[other]
        }),
{
}

/// A successful proxy selection marks the proxy selected in the first group of
/// that name and leaves every other group as it was.
pub proof fn selection_updates_only_its_group(
    m: UiModel,
    group: String,
    proxy: String,
    summary: String,
    j: int,
)
    requires
        0 <= j < m.proxy_groups.len(),
        first_group_at(m.proxy_groups, group@, j),
    ensures
        ({
            let n = m.after_runtime(
                RuntimeCommand::SelectProxy { group, proxy },
                RuntimeCommandResult { output: RuntimeCommandOutput::Empty, summary },
            );
            &&& n.proxy_groups.len() == m.proxy_groups.len()
            &&& n.proxy_groups[j].selected == Some(proxy)
            &&& n.proxy_groups[j].name == m.proxy_groups[j].name
            &&& n.proxy_groups[j].members == m.proxy_groups[j].members
            &&& forall|i: int| 0 <= i < m.proxy_groups.len() && i != j ==> n.proxy_groups[i]
                == m.proxy_groups[i]
        }),
{
    assert(has_group(m.proxy_groups, group@));
    let c = first_group(m.proxy_groups, group@);
    assert(first_group_at(m.proxy_groups, group@, c));
    if c < j {
        assert(m.proxy_groups[c].name@ != group@);
    } else if c > j {
        assert(m.proxy_groups[j].name@ != group@);
    }
}

/// Beginning a request and receiving its answer leaves no request of that
/// class marked in flight, and a runtime answer marks the core running.
pub proof fn begin_then_answer_clears_pending(m: UiModel, request: RuntimeCommand, result: RuntimeCommandResult)
    requires
        !(result.output is Realtime),
    ensures
        !m.began(UiRequest::Runtime(request)).after_runtime(request, result).pending.contains(
            key_of(UiRequest::Runtime(request)),
        ),
        m.began(UiRequest::Runtime(request)).after_runtime(request, result).core_status
            == crate::ui::CoreStatus::Running,
{
}


/// Request `n` is the newest tracked request of class `k`, and still awaits
/// its answer.
pub open spec fn newest_unanswered(m: UiModel, k: RequestKey, n: u64) -> bool {
    &&& m.latest_requests.dom().contains(k) && m.latest_requests[k] == n
    &&& m.pending_requests.dom().contains(n) && m.pending_requests[n] == k
}

/// A request begun by envelope is the newest of its class. Until it is
/// answered (or a newer one of its class is begun), answers to any other
/// envelope leave it so, and every other request of its class counts as
/// stale; so a read answer to an older envelope of that class changes nothing
/// but the bookkeeping of requests in flight (`stale_read_keeps_newer_intent`).
pub proof fn older_answers_stay_stale_until_newest_answered(
    m: UiModel,
    env: UiRequestEnvelope,
    k: RequestKey,
    n: u64,
    e: UiResponseEnvelope,
    other: u64,
)
    ensures
        newest_unanswered(m.began_envelope(env), key_of(env.request), env.request_id),
        newest_unanswered(m, k, n) && e.request_id != Some(n) ==> newest_unanswered(m.after_envelope(e), k, n),
        newest_unanswered(m, k, n) && other != n ==> m.is_stale(k, other),
{
    if newest_unanswered(m, k, n) && e.request_id != Some(n) {
        match (e.request_id, response_request(e.response)) {
            (Some(id), Some(request)) => {
                let m1 = UiModel { pending_requests: m.pending_requests.remove(id), ..m };
                lemma_response_keeps_tracking(m1, e.response);
                let m2 = if m.envelope_applies(e) {
                    m1.after_response(e.response)
                } else {
                    m1
                };
                assert(m2.pending_requests.dom().contains(n) && m2.pending_requests[n] == k);
                if key_of(request) == k {
                    assert(m2.has_pending_of(k));
                }
            },
            _ => lemma_response_keeps_tracking(m, e.response),
        }
    }
}


/// Folding in an answer does exactly what the matching update does: a
/// successful profile, runtime or system proxy answer is `apply_profile`,
/// `apply_runtime` or `apply_system_proxy`, a failed one is `fail` of its
/// request, and a realtime event is `apply_realtime`.
pub proof fn answer_is_the_matching_update(m: UiModel, r: UiResponse)
    ensures
        match r {
            UiResponse::Profile { request, result } => m.after_response(r) == match result {
                Ok(result) => m.after_profile(request, result),
                Err(error) => m.failed(UiRequest::Profile(request), error),
            },
            UiResponse::Runtime { request, result } => m.after_response(r) == match result {
                Ok(result) => m.after_runtime(request, result),
                Err(error) => m.failed(UiRequest::Runtime(request), error),
            },
            UiResponse::SystemProxy { request, result } => m.after_response(r) == match result {
                Ok(result) => m.after_system_proxy(request, result),
                Err(error) => m.failed(UiRequest::SystemProxy(request), error),
            },
            UiResponse::Realtime(e) => m.after_response(r) == m.after_realtime(e),
        },
{
}

/// The actions that change the stored profiles or which one is in use.
pub open spec fn writes_profiles(a: UiAction) -> bool {
    match a {
        UiAction::ImportProfile { .. } | UiAction::ImportRemoteProfile { .. } | UiAction::SelectProfile(_)
        | UiAction::UpdateProfileYaml { .. } | UiAction::DeleteProfile(_) | UiAction::UpdateRemoteProfile(_)
        | UiAction::SetProfileUpdatePolicy { .. } | UiAction::RestoreEncryptedBackup { .. } => true,
        _ => false,
    }
}

/// `first` is the write that action `a` asks for, on the profile it names.
pub open spec fn profile_write(a: UiAction, first: UiRequest) -> bool {
    match a {
        UiAction::ImportProfile { id, name, yaml, .. } => first matches UiRequest::Profile(
            AppCommand::ImportProfile { id: i, name: n, yaml: y, .. },
        ) && i == id && n == name && y == yaml,
        UiAction::ImportRemoteProfile { id, url, .. } => first matches UiRequest::Profile(
            AppCommand::ImportRemoteProfile { id: i, url: u, .. },
        ) && i == id && u == url,
        UiAction::SelectProfile(id) => first == UiRequest::Profile(AppCommand::SelectProfile { id }),
        UiAction::UpdateProfileYaml { id, yaml } => first == UiRequest::Profile(AppCommand::UpdateProfileYaml { id, yaml }),
        UiAction::DeleteProfile(id) => first == UiRequest::Profile(AppCommand::DeleteProfile { id }),
        UiAction::UpdateRemoteProfile(id) => first == UiRequest::Profile(AppCommand::UpdateRemoteProfile { id }),
        UiAction::SetProfileUpdatePolicy { id, update_policy } => first == UiRequest::Profile(
            AppCommand::SetProfileUpdatePolicy { id, update_policy },
        ),
        UiAction::RestoreEncryptedBackup { passphrase } => first == UiRequest::Profile(
            AppCommand::RestoreEncryptedBackup { passphrase },
        ),
        _ => false,
    }
}

/// Every action that writes profiles dispatches its write first and reloads
/// the profile list right after it, so the list on screen follows the write.
pub proof fn law_profile_writes_reload_the_list(a: UiAction, r: Seq<UiRequest>)
    requires
        writes_profiles(a),
        dispatches(a, r),
    ensures
        r.len() >= 2,
        profile_write(a, r[0]),
        r[1] == UiRequest::Profile(AppCommand::ListProfiles),
{
}

/// A successful answer to a profile-side request stores what it carries, the
/// request is no longer in flight, and the runtime side of the state is left
/// as it was.
pub proof fn law_profile_answers_are_stored(m: UiModel, request: AppCommand, result: AppCommandResult)
    ensures
        ({
            let n = m.after_profile(request, result);
            &&& !n.pending.contains(profile_key(request))
            &&& (result.output matches AppCommandOutput::HelperStatus(s) ==> n.helper_status == Some(s))
            &&& (result.output matches AppCommandOutput::RuntimeSettings(s) ==> n.runtime_settings == Some(s))
            &&& (result.output matches AppCommandOutput::ApplicationSettings(s) ==> n.application_settings == Some(s))
            &&& (result.output matches AppCommandOutput::ApplicationSettingsImportPreview(v)
                ==> n.settings_import_preview == Some(v))
            &&& (result.output matches AppCommandOutput::AppUpdateStatus(s) ==> n.app_update == Some(s))
            &&& (result.output matches AppCommandOutput::MihomoUpdated { version } ==> n.mihomo_version == Some(version))
            &&& (result.output matches AppCommandOutput::Profiles { profiles, selected } ==> n.profiles == profiles@
                && n.selected_profile == selected)
            &&& (result.output matches AppCommandOutput::ProfileYaml { id, yaml } ==> n.profile_yaml == Some((id, yaml)))
            &&& (result.output matches AppCommandOutput::MergeConfigYaml { yaml } ==> n.merge_yaml == Some(yaml))
            &&& (result.output matches AppCommandOutput::MergedProfileYaml { id, yaml } ==> n.merged_yaml == Some(
                (id, yaml),
            ))
            &&& (result.output matches AppCommandOutput::DiagnosticsExported { path } ==> n.last_diagnostic_path
                == Some(path))
            &&& (result.output matches AppCommandOutput::ApplicationUpdated { version, .. } ==> n.app_update_installed
                == Some(version) && n.app_update is None)
            &&& (result.output is Empty ==> (request matches AppCommand::SelectProfile { id } ==> n.selected_profile
                == Some(id)))
            &&& n.mode == m.mode && n.proxy_groups == m.proxy_groups && n.rules == m.rules && n.providers
                == m.providers && n.connections == m.connections && n.logs == m.logs && n.system_proxy
                == m.system_proxy
        }),
{
}

/// Writes that change what another page shows read it back right after:
/// installing or removing the helper reads its status, saving settings or
/// the merge configuration reads them again.
pub proof fn law_writes_read_back_what_they_change(a: UiAction, r: Seq<UiRequest>)
    requires
        dispatches(a, r),
    ensures
        (a is InstallHelper || a is UninstallHelper) ==> r.len() == 2 && r[1] == UiRequest::Profile(
            AppCommand::GetHelperStatus,
        ),
        a is UpdateSettings ==> r.len() == 2 && r[1] == UiRequest::Profile(AppCommand::GetApplicationSettings),
        a is SaveMergeConfig ==> r.len() == 2 && r[1] == UiRequest::Profile(AppCommand::GetMergeConfig),
{
}

} // verus!
