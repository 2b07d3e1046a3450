//! What the forms of the profile and settings pages do with what was typed:
//! the action a submission dispatches, or the error the page shows, and the
//! values the system proxy dialog reads from its fields.
use vstd::prelude::*;

use crate::domain::{
    profile_id_message, profile_name_message, strings_view, unified_on, AppError, ErrorCode, Profile, ProfileId,
    ProfileSource, SystemProxyServiceState, SystemProxyState, UpdatePolicy,
};
use crate::text::{
    all_whitespace, char_at, decimal_u64, has_control, lemma_trimmed, parse_u64, substring, trim,
    trimmed, trimmed_of,
};
use crate::ui::{UiAction, UiModel, UiState};

verus! {

/// A profile identifier that `ProfileId::parse` accepts.
pub open spec fn id_ok(s: Seq<char>) -> bool {
    s.len() > 0 && !has_control(s)
}

/// The message of an update interval that is not a positive integer.
pub open spec fn interval_message() -> Seq<char> {
    "update interval must be a positive integer"@
}

/// The translation key of the message for an empty settings import path.
pub open spec fn empty_path_key() -> Seq<char> {
    "settings_import.empty_path"@
}

/// The update interval field read as `u64::from_str` reads it, when it holds
/// a positive number of seconds.
pub open spec fn positive_seconds(s: Seq<char>) -> Option<u64> {
    match decimal_u64(s) {
        Some(v) => if v > 0 { Some(v) } else { None },
        None => None,
    }
}

/// The user agent field: none when it is blank, else its trimmed text.
pub open spec fn agent_of(text: Seq<char>, r: Option<String>) -> bool {
    match r {
        None => all_whitespace(text),
        Some(a) => !all_whitespace(text) && a@ == trimmed(text),
    }
}

/// The action that imports a local profile typed into the import form.
pub open spec fn local_import(a: UiAction, id: Seq<char>, name: Seq<char>, yaml: Seq<char>) -> bool {
    &&& a matches UiAction::ImportProfile { id: i, name: n, yaml: y, source: s, update_policy: u }
    &&& i.value@ == id && n@ == name && y@ == yaml
    &&& s == ProfileSource::Local && u == UpdatePolicy::Manual
}

/// The action that imports a remote profile typed into the import form.
pub open spec fn remote_import(
    a: UiAction,
    id: Seq<char>,
    name: Seq<char>,
    url: Seq<char>,
    seconds: u64,
    agent: Seq<char>,
) -> bool {
    &&& a matches UiAction::ImportRemoteProfile { id: i, name: n, url: u, update_policy: p, user_agent: ua }
    &&& i.value@ == id && n@ == name && u@ == url
    &&& p == UpdatePolicy::Interval { seconds }
    &&& agent_of(agent, ua)
}

fn optional_agent(text: &str) -> (r: Option<String>)
    ensures
        agent_of(text@, r),
{
    let t = trim(text);
    proof {
        lemma_trimmed(text@, t@);
    }
    if t.as_str().unicode_len() == 0 {
        None
    } else {
        Some(t)
    }
}

fn positive_interval(text: &str) -> (r: Option<u64>)
    ensures
        r == positive_seconds(text@),
{
    match parse_u64(text) {
        Some(v) => if v > 0 { Some(v) } else { None },
        None => None,
    }
}

/// Submits the local import form: the profile with the typed identifier,
/// name and YAML, read by hand. A malformed identifier is shown as the page's
/// error and returned.
pub fn import_profile(state: &mut UiState, id: &str, name: &str, yaml: &str) -> (r: Result<UiAction, AppError>)
    ensures
        r is Ok <==> id_ok(id@),
        r matches Ok(a) ==> local_import(a, id@, name@, yaml@) && final(state)@ == old(state)@,
        r matches Err(e) ==> e.code == ErrorCode::InvalidInput && e.message@ == profile_id_message()
            && final(state)@ == old(state)@.with_error(e),
        final(state).wf() == old(state).wf(),
{
    match ProfileId::parse(id) {
        Ok(id) => Ok(UiAction::ImportProfile {
            id,
            name: String::from_str(name),
            yaml: String::from_str(yaml),
            source: ProfileSource::Local,
            update_policy: UpdatePolicy::Manual,
        }),
        Err(error) => {
            state.set_error(error.clone());
            Err(error)
        },
    }
}

/// Submits the remote import form: the profile is fetched from `url` and
/// updated every `interval` seconds, a positive integer as typed; a blank user
/// agent is none. A malformed identifier is reported before a bad interval,
/// and either is shown as the page's error.
pub fn import_remote_profile(
    state: &mut UiState,
    id: &str,
    name: &str,
    url: &str,
    interval: &str,
    user_agent: &str,
) -> (r: Result<UiAction, AppError>)
    ensures
        r is Ok <==> id_ok(id@) && positive_seconds(interval@) is Some,
        r matches Ok(a) ==> positive_seconds(interval@) matches Some(seconds)
            && remote_import(a, id@, name@, url@, seconds, user_agent@) && final(state)@ == old(state)@,
        r matches Err(e) ==> e.code == ErrorCode::InvalidInput
            && e.message@ == (if id_ok(id@) { interval_message() } else { profile_id_message() })
            && final(state)@ == old(state)@.with_error(e),
        final(state).wf() == old(state).wf(),
{
    let parsed = ProfileId::parse(id);
    let seconds = positive_interval(interval);
    match (parsed, seconds) {
        (Ok(id), Some(seconds)) => Ok(UiAction::ImportRemoteProfile {
            id,
            name: String::from_str(name),
            url: String::from_str(url),
            update_policy: UpdatePolicy::Interval { seconds },
            user_agent: optional_agent(user_agent),
        }),
        (Err(error), _) => {
            state.set_error(error.clone());
            Err(error)
        },
        _ => {
            let error = AppError::new(ErrorCode::InvalidInput, "update interval must be a positive integer");
            state.set_error(error.clone());
            Err(error)
        },
    }
}

/// Submits the update interval dialog of profile `id`: a positive integer of
/// seconds as typed, else the error is shown and returned.
pub fn set_update_interval(state: &mut UiState, id: ProfileId, interval: &str) -> (r: Result<UiAction, AppError>)
    ensures
        r is Ok <==> positive_seconds(interval@) is Some,
        r matches Ok(a) ==> positive_seconds(interval@) matches Some(seconds)
            && a == (UiAction::SetProfileUpdatePolicy { id, update_policy: UpdatePolicy::Interval { seconds } })
            && final(state)@ == old(state)@,
        r matches Err(e) ==> e.code == ErrorCode::InvalidInput && e.message@ == interval_message()
            && final(state)@ == old(state)@.with_error(e),
        final(state).wf() == old(state).wf(),
{
    match positive_interval(interval) {
        Some(seconds) => Ok(UiAction::SetProfileUpdatePolicy { id, update_policy: UpdatePolicy::Interval { seconds } }),
        None => {
            let error = AppError::new(ErrorCode::InvalidInput, "update interval must be a positive integer");
            state.set_error(error.clone());
            Err(error)
        },
    }
}

/// First step of a settings import: asks for the differences against the
/// trimmed path, after dropping an earlier preview. A blank path is shown as
/// the page's error, whose message is the key of its translated text.
pub fn preview_settings_import(state: &mut UiState, path: &str) -> (r: Result<UiAction, AppError>)
    ensures
        r is Ok <==> !all_whitespace(path@),
        r matches Ok(a) ==> (a matches UiAction::PreviewSettingsImport { source } && source@ == trimmed(path@))
            && final(state)@ == (UiModel { settings_import_preview: None, ..old(state)@ }),
        r matches Err(e) ==> e.code == ErrorCode::InvalidInput && e.message@ == empty_path_key()
            && final(state)@ == old(state)@.with_error(e),
        final(state).wf() == old(state).wf(),
{
    let source = trim(path);
    proof {
        lemma_trimmed(path@, source@);
    }
    if source.as_str().unicode_len() == 0 {
        let error = AppError::new(ErrorCode::InvalidInput, "settings_import.empty_path");
        state.set_error(error.clone());
        return Err(error);
    }
    state.discard_import_preview();
    Ok(UiAction::PreviewSettingsImport { source })
}

/// The translation key of the message for a bad optional update interval.
pub open spec fn optional_interval_key() -> Seq<char> {
    "profile.interval_optional"@
}

/// The edited details of a stored profile, checked as the profile itself is.
#[derive(Clone, Debug, PartialEq, Eq)]
pub struct ProfileDetails {
    pub id: ProfileId,
    pub name: String,
    pub source: ProfileSource,
    /// The subscription URL of a remote profile.
    pub url: Option<String>,
    pub update_policy: UpdatePolicy,
    pub user_agent: Option<String>,
}

/// The interval field of the details form is wrong: a remote profile with a
/// non-blank interval that is not a positive integer once trimmed.
pub open spec fn details_interval_bad(remote: bool, interval: Seq<char>) -> bool {
    remote && !all_whitespace(interval) && positive_seconds(trimmed(interval)) is None
}

/// The update policy the details form gives: manual for a local profile or a
/// blank interval, else every `interval` seconds.
pub open spec fn details_policy(remote: bool, interval: Seq<char>) -> UpdatePolicy {
    if !remote || all_whitespace(interval) {
        UpdatePolicy::Manual
    } else {
        UpdatePolicy::Interval { seconds: positive_seconds(trimmed(interval))->0 }
    }
}

/// Submits the details form of profile `id`: a remote profile gets the
/// trimmed URL, the update interval (optional: blank is manual) and the
/// user agent (blank is none); a local one gets neither. A bad interval is
/// reported first, by the key of its translated message; then the name is
/// checked as `Profile::new` checks it.
pub fn profile_details(
    id: ProfileId,
    remote: bool,
    name: &str,
    url: &str,
    interval: &str,
    user_agent: &str,
) -> (r: Result<ProfileDetails, AppError>)
    ensures
        details_interval_bad(remote, interval@) ==> (r matches Err(e) && e.code == ErrorCode::InvalidInput
            && e.message@ == optional_interval_key()),
        !details_interval_bad(remote, interval@) && !(name@.len() > 0 && !has_control(name@)) ==> (r matches Err(e)
            && e.code == ErrorCode::InvalidInput && e.message@ == profile_name_message()),
        r is Ok <==> !details_interval_bad(remote, interval@) && name@.len() > 0 && !has_control(name@),
        r matches Ok(d) ==> {
            &&& d.id == id
            &&& d.name@ == name@
            &&& d.source == (if remote { ProfileSource::Remote } else { ProfileSource::Local })
            &&& (if remote { d.url matches Some(u) && u@ == trimmed(url@) } else { d.url is None })
            &&& d.update_policy == details_policy(remote, interval@)
            &&& (if remote { agent_of(user_agent@, d.user_agent) } else { d.user_agent is None })
        },
{
    let value = trim(interval);
    proof {
        lemma_trimmed(interval@, value@);
    }
    let update_policy = if !remote || value.as_str().unicode_len() == 0 {
        UpdatePolicy::Manual
    } else {
        match positive_interval(value.as_str()) {
            Some(seconds) => UpdatePolicy::Interval { seconds },
            None => return Err(AppError::new(ErrorCode::InvalidInput, "profile.interval_optional")),
        }
    };
    let source = if remote { ProfileSource::Remote } else { ProfileSource::Local };
    let address = if remote {
        let u = trim(url);
        proof {
            lemma_trimmed(url@, u@);
        }
        Some(u)
    } else {
        None
    };
    let agent = if remote { optional_agent(user_agent) } else { None };
    match Profile::new(id, name, source, update_policy, 0, agent) {
        Ok(profile) => Ok(ProfileDetails {
            id: profile.id,
            name: profile.name,
            source,
            url: address,
            update_policy,
            user_agent: profile.user_agent,
        }),
        Err(e) => Err(e),
    }
}

/// What the system proxy dialog reads from its fields when it is saved.
#[derive(Clone, Debug, PartialEq, Eq)]
pub struct ProxyDraft {
    pub host: String,
    pub guard_interval_secs: u64,
    pub bypass: Vec<String>,
    pub pac_script: String,
}

/// `s` without the characters `c` at its start (`str::trim_start_matches`).
pub open spec fn without_leading(s: Seq<char>, c: char) -> Seq<char>
    decreases s.len(),
{
    if s.len() > 0 && s[0] == c {
        without_leading(s.drop_first(), c)
    } else {
        s
    }
}

/// `s` without the characters `c` at its end (`str::trim_end_matches`).
pub open spec fn without_trailing(s: Seq<char>, c: char) -> Seq<char>
    decreases s.len(),
{
    if s.len() > 0 && s.last() == c {
        without_trailing(s.drop_last(), c)
    } else {
        s
    }
}

/// The proxy host as typed, trimmed and without the brackets of an IPv6
/// literal.
pub open spec fn dialog_host(text: Seq<char>) -> Seq<char> {
    without_trailing(without_leading(trimmed(text), '['), ']')
}

pub open spec fn is_entry_separator(c: char) -> bool {
    c == ',' || c == ';' || c == '\n' || c == '\r'
}

/// A piece of the bypass field: its trimmed text, unless it is blank.
pub open spec fn entry(piece: Seq<char>) -> Seq<Seq<char>> {
    if all_whitespace(piece) {
        seq![]
    } else {
        seq![trimmed(piece)]
    }
}

/// The entries of the rest `s` of the bypass field, after the partial piece
/// `cur`.
pub open spec fn entries_after(s: Seq<char>, cur: Seq<char>) -> Seq<Seq<char>>
    decreases s.len(),
{
    if s.len() == 0 {
        entry(cur)
    } else if is_entry_separator(s[0]) {
        entry(cur) + entries_after(s.drop_first(), seq![])
    } else {
        entries_after(s.drop_first(), cur.push(s[0]))
    }
}

/// The bypass domains typed into the dialog: split at commas, semicolons and
/// line breaks, each trimmed, blank ones left out.
pub open spec fn bypass_entries(text: Seq<char>) -> Seq<Seq<char>> {
    entries_after(text, seq![])
}

/// The proxy host field, trimmed and without IPv6 brackets.
pub fn proxy_host(text: &str) -> (r: String)
    ensures
        r@ == dialog_host(text@),
{
    let t = trim(text);
    proof {
        lemma_trimmed(text@, t@);
    }
    let n = t.as_str().unicode_len();
    let mut a: usize = 0;
    assert(t@.skip(0) =~= t@);
    while a < n && char_at(t.as_str(), a) == '['
        invariant
            n == t@.len(),
            a <= n,
            without_leading(t@.skip(a as int), '[') == without_leading(t@, '['),
        decreases n - a,
    {
        assert(t@.skip(a as int).drop_first() =~= t@.skip(a + 1));
        a = a + 1;
    }
    assert(without_leading(t@.skip(a as int), '[') == t@.skip(a as int));
    let mut b: usize = n;
    while b > a && char_at(t.as_str(), b - 1) == ']'
        invariant
            n == t@.len(),
            a <= b <= n,
            without_trailing(t@.subrange(a as int, b as int), ']') == without_trailing(t@.skip(a as int), ']'),
        decreases b,
    {
        assert(t@.subrange(a as int, b as int).drop_last() =~= t@.subrange(a as int, b - 1));
        b = b - 1;
    }
    assert(t@.subrange(a as int, n as int) =~= t@.skip(a as int));
    substring(t.as_str(), a, b)
}

/// The bypass field split into its entries.
pub fn split_bypass(text: &str) -> (r: Vec<String>)
    ensures
        strings_view(r@) == bypass_entries(text@),
{
    let n = text.unicode_len();
    let mut out: Vec<String> = Vec::new();
    let mut start: usize = 0;
    let mut i: usize = 0;
    assert(text@.skip(0) =~= text@);
    assert(text@.subrange(0, 0) =~= Seq::<char>::empty());
    assert(strings_view(out@) =~= Seq::<Seq<char>>::empty());
    while i < n
        invariant
            n == text@.len(),
            start <= i <= n,
            strings_view(out@) + entries_after(text@.skip(i as int), text@.subrange(start as int, i as int))
                == bypass_entries(text@),
        decreases n - i,
    {
        let ghost rest = text@.skip(i as int);
        let ghost cur = text@.subrange(start as int, i as int);
        assert(rest.drop_first() =~= text@.skip(i + 1));
        if is_separator(char_at(text, i)) {
            let ghost before = strings_view(out@);
            push_entry(&mut out, text, start, i);
            assert(text@.subrange(i + 1, i + 1) =~= Seq::<char>::empty());
            assert(strings_view(out@) + entries_after(text@.skip(i + 1), text@.subrange(i + 1, i + 1))
                =~= before + entries_after(rest, cur));
            start = i + 1;
        } else {
            assert(cur.push(text@[i as int]) =~= text@.subrange(start as int, i + 1));
        }
        i = i + 1;
    }
    let ghost before = strings_view(out@);
    let ghost cur = text@.subrange(start as int, n as int);
    assert(text@.skip(n as int) =~= Seq::<char>::empty());
    push_entry(&mut out, text, start, n);
    assert(strings_view(out@) =~= before + entries_after(text@.skip(n as int), cur));
    out
}

/// Appends the entry of the piece `start..end` of `text`, if it is not blank.
fn push_entry(out: &mut Vec<String>, text: &str, start: usize, end: usize)
    requires
        start <= end <= text@.len(),
    ensures
        strings_view(final(out)@) == strings_view(old(out)@) + entry(text@.subrange(start as int, end as int)),
{
    let piece = substring(text, start, end);
    let t = trim(piece.as_str());
    proof {
        lemma_trimmed(piece@, t@);
    }
    let ghost before = strings_view(out@);
    if t.as_str().unicode_len() > 0 {
        out.push(t);
    }
    assert(strings_view(out@) =~= before + entry(piece@));
}

fn is_separator(c: char) -> (r: bool)
    ensures
        r == is_entry_separator(c),
{
    c == ',' || c == ';' || c == '\n' || c == '\r'
}

/// Reads the fields of the system proxy dialog: the host, the guard interval
/// (trimmed, as `u64::from_str` reads it), the bypass entries and the PAC
/// script as typed. There is no draft when the interval is not a number.
pub fn proxy_draft(host: &str, interval: &str, bypass: &str, pac_script: &str) -> (r: Option<ProxyDraft>)
    ensures
        r is Some <==> decimal_u64(trimmed(interval@)) is Some,
        r matches Some(d) ==> {
            &&& d.host@ == dialog_host(host@)
            &&& decimal_u64(trimmed(interval@)) == Some(d.guard_interval_secs)
            &&& strings_view(d.bypass@) == bypass_entries(bypass@)
            &&& d.pac_script@ == pac_script@
        },
{
    let host = proxy_host(host);
    let text = trim(interval);
    proof {
        lemma_trimmed(interval@, text@);
    }
    match parse_u64(text.as_str()) {
        None => None,
        Some(guard_interval_secs) => Some(ProxyDraft {
            host,
            guard_interval_secs,
            bypass: split_bypass(bypass),
            pac_script: String::from_str(pac_script),
        }),
    }
}

/// The line that sums up the system proxy on the settings page.
#[derive(Clone, Debug, PartialEq, Eq)]
pub enum ProxyStatus {
    /// The state has not been read yet.
    NotLoaded,
    /// No network service is managed.
    NotSet,
    /// The unified proxy is on through an automatic proxy script at `url`.
    Pac { url: String },
    /// The unified proxy is on at `host:port`.
    Enabled { host: String, port: u16 },
    /// Some proxy setting is on, but not the unified proxy.
    Partial,
    Disabled,
}

/// Some proxy setting of the service is on.
pub open spec fn service_active(s: SystemProxyServiceState) -> bool {
    s.web.enabled || s.secure_web.enabled || s.socks.enabled || s.auto_proxy.enabled
}

pub open spec fn any_active(services: Seq<SystemProxyServiceState>) -> bool {
    exists|i: int| 0 <= i < services.len() && service_active(#[trigger] services[i])
}

/// The status of the unified proxy, read from the first service.
pub open spec fn unified_status(first: SystemProxyServiceState, r: ProxyStatus) -> bool {
    if first.auto_proxy.enabled {
        r matches ProxyStatus::Pac { url } && url@ == (match first.auto_proxy.url {
            Some(u) => u@,
            None => Seq::<char>::empty(),
        })
    } else {
        r matches ProxyStatus::Enabled { host, port } && host@ == first.web.endpoint.host@
            && port == first.web.endpoint.port
    }
}

pub open spec fn status_of(state: Option<SystemProxyState>, r: ProxyStatus) -> bool {
    match state {
        None => r is NotLoaded,
        Some(st) => if st.services@.len() == 0 {
            r is NotSet
        } else if unified_on(st) {
            unified_status(st.services@[0], r)
        } else if any_active(st.services@) {
            r is Partial
        } else {
            r is Disabled
        },
    }
}

/// Sums up the system proxy for the settings page.
pub fn proxy_status(state: &Option<SystemProxyState>) -> (r: ProxyStatus)
    ensures
        status_of(*state, r),
{
    let st = match state {
        None => return ProxyStatus::NotLoaded,
        Some(st) => st,
    };
    if st.services.len() == 0 {
        return ProxyStatus::NotSet;
    }
    if st.unified_enabled() {
        let first = &st.services[0];
        if first.auto_proxy.enabled {
            let url = match &first.auto_proxy.url {
                Some(u) => u.clone(),
                None => String::new(),
            };
            return ProxyStatus::Pac { url };
        }
        return ProxyStatus::Enabled { host: first.web.endpoint.host.clone(), port: first.web.endpoint.port };
    }
    let mut i: usize = 0;
    while i < st.services.len()
        invariant
            i <= st.services@.len(),
            forall|j: int| 0 <= j < i ==> !service_active(#[trigger] st.services@[j]),
            *state == Some(*st),
            st.services@.len() > 0,
            !unified_on(*st),
        decreases st.services.len() - i,
    {
        let s = &st.services[i];
        if s.web.enabled || s.secure_web.enabled || s.socks.enabled || s.auto_proxy.enabled {
            assert(service_active(st.services@[i as int]));
            return ProxyStatus::Partial;
        }
        i = i + 1;
    }
    ProxyStatus::Disabled
}

} // verus!
