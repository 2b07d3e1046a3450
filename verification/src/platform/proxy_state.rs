//! The parts of system proxy management that compute: which network
//! services may be touched, how the output of `networksetup` is read, how a
//! recovery record is normalized, and when a restored setting counts as
//! restored.
use vstd::prelude::*;

use crate::domain::{
    AppError, AutoProxyState, AutoView, ErrorCode, ProtocolView, services_view, ProxyEndpoint, ProxyProtocolState, ServiceView,
    SystemProxyServiceState, SystemProxyState, protocol_view, same_strings, service_view, strings_view,
    text_option,
};
use crate::text::{all_digits, all_whitespace, char_at, digits_value, is_digit, unsigned_digits, has_control, is_blank, is_prefix, starts_with, str_eq,
    substring, trim, trimmed_of, contains_control, lemma_trimmed_unique};

verus! {

pub open spec fn service_name_ok(s: Seq<char>) -> bool {
    !all_whitespace(s) && !has_control(s)
}

pub open spec fn names_ok(names: Seq<Seq<char>>) -> bool {
    names.len() > 0 && forall|i: int| 0 <= i < names.len() ==> service_name_ok(#[trigger] names[i])
}

/// At least one service is named, and no name is blank or holds a control character.
pub open spec fn services_message() -> Seq<char> {
    "at least one valid network service is required"@
}

pub fn validate_services(services: &Vec<String>) -> (r: Result<(), AppError>)
    ensures
        r is Ok <==> names_ok(strings_view(services@)),
        r matches Err(e) ==> e.code == ErrorCode::InvalidInput && e.message@ == services_message(),
{
    let ghost names = strings_view(services@);
    let mut ok = services.len() > 0;
    let mut i: usize = 0;
    while i < services.len()
        invariant
            i <= services@.len(),
            names == strings_view(services@),
            ok == (services@.len() > 0 && forall|j: int| 0 <= j < i ==> service_name_ok(#[trigger] names[j])),
        decreases services.len() - i,
    {
        let s = services[i].as_str();
        assert(names[i as int] == s@);
        if is_blank(s) || contains_control(s) {
            ok = false;
        }
        i = i + 1;
    }
    if !ok {
        return Err(AppError::new(ErrorCode::InvalidInput, "at least one valid network service is required"));
    }
    Ok(())
}

pub open spec fn legacy_view(p: ProtocolView) -> bool {
    !p.enabled && ((p.host.len() == 0) != (p.port == 0))
}

pub open spec fn legacy_disabled(p: ProxyProtocolState) -> bool {
    legacy_view(protocol_view(p))
}

/// A switched-off protocol whose saved endpoint has a host but no port, or a
/// port but no host: older records hold such values, and only the switch of
/// them is restored.
pub fn legacy_disabled_endpoint(value: &ProxyProtocolState) -> (r: bool)
    ensures
        r == legacy_disabled(*value),
{
    !value.enabled && ((value.endpoint.host.as_str().unicode_len() == 0) != (value.endpoint.port == 0))
}

pub open spec fn restored_view(expected: ProtocolView, actual: ProtocolView) -> bool {
    expected.enabled == actual.enabled && ((!expected.enabled && (expected.host.len() == 0 || expected.port == 0))
        || (expected.host == actual.host && expected.port == actual.port))
}

pub open spec fn protocol_restored(expected: ProxyProtocolState, actual: ProxyProtocolState) -> bool {
    restored_view(protocol_view(expected), protocol_view(actual))
}

/// A service counts as restored when its three protocols are, and its
/// automatic proxy and bypass domains are exactly as saved.
pub open spec fn service_restored(expected: ServiceView, actual: ServiceView) -> bool {
    &&& restored_view(expected.web, actual.web)
    &&& restored_view(expected.secure_web, actual.secure_web)
    &&& restored_view(expected.socks, actual.socks)
    &&& expected.auto_proxy == actual.auto_proxy
    &&& expected.bypass == actual.bypass
}

pub fn service_restored_matches(expected: &SystemProxyServiceState, actual: &SystemProxyServiceState) -> (r: bool)
    ensures
        r == service_restored(service_view(*expected), service_view(*actual)),
{
    let urls = match (&expected.auto_proxy.url, &actual.auto_proxy.url) {
        (Some(a), Some(b)) => *a == *b,
        (None, None) => true,
        _ => false,
    };
    restored_protocol_matches(&expected.web, &actual.web) && restored_protocol_matches(
        &expected.secure_web,
        &actual.secure_web,
    ) && restored_protocol_matches(&expected.socks, &actual.socks) && expected.auto_proxy.enabled
        == actual.auto_proxy.enabled && urls && same_strings(&expected.bypass, &actual.bypass)
}

/// The switch must match; the endpoint too, unless the expected endpoint is
/// a switched-off empty or legacy one, whose address the system keeps.
pub fn restored_protocol_matches(expected: &ProxyProtocolState, actual: &ProxyProtocolState) -> (r: bool)
    ensures
        r == protocol_restored(*expected, *actual),
{
    expected.enabled == actual.enabled && ((!expected.enabled && (expected.endpoint.host.as_str().unicode_len() == 0
        || expected.endpoint.port == 0)) || expected.endpoint.same_as(&actual.endpoint))
}

/// `line` without the carriage return that ended it, if any.
pub open spec fn strip_cr(line: Seq<char>) -> Seq<char> {
    if line.len() > 0 && line.last() == '\r' {
        line.drop_last()
    } else {
        line
    }
}

/// The lines of `s` after the partial line `cur`, as `str::lines` yields
/// them: split at `\n`, a `\r` before it dropped, no empty last line.
pub open spec fn lines_after(s: Seq<char>, cur: Seq<char>) -> Seq<Seq<char>>
    decreases s.len(),
{
    if s.len() == 0 {
        if cur.len() == 0 {
            seq![]
        } else {
            seq![cur]
        }
    } else if s[0] == '\n' {
        seq![strip_cr(cur)] + lines_after(s.drop_first(), seq![])
    } else {
        lines_after(s.drop_first(), cur.push(s[0]))
    }
}

pub open spec fn text_lines(s: Seq<char>) -> Seq<Seq<char>> {
    lines_after(s, seq![])
}

/// The lines of a text.
pub fn lines(text: &str) -> (r: Vec<String>)
    ensures
        strings_view(r@) == text_lines(text@),
{
    let n = text.unicode_len();
    let mut out: Vec<String> = Vec::new();
    let mut start: usize = 0;
    let mut i: usize = 0;
    assert(text@.skip(0) =~= text@);
    assert(text@.subrange(0, 0) =~= Seq::<char>::empty());
    assert(strings_view(out@) =~= Seq::<Seq<char>>::empty());
    while i < n
        invariant
            n == text@.len(),
            start <= i <= n,
            strings_view(out@) + lines_after(text@.skip(i as int), text@.subrange(start as int, i as int))
                == text_lines(text@),
        decreases n - i,
    {
        let ghost rest = text@.skip(i as int);
        let ghost cur = text@.subrange(start as int, i as int);
        assert(rest.drop_first() =~= text@.skip(i + 1));
        if char_at(text, i) == '\n' {
            let line = substring(text, start, i);
            let l = if i > start && char_at(text, i - 1) == '\r' {
                substring(text, start, i - 1)
            } else {
                line
            };
            assert(l@ =~= strip_cr(cur));
            let ghost before = strings_view(out@);
            out.push(l);
            assert(strings_view(out@) =~= before.push(strip_cr(cur)));
            assert(lines_after(rest, cur) == seq![strip_cr(cur)] + lines_after(text@.skip(i + 1), seq![]));
            assert(text@.subrange(i + 1, i + 1) =~= Seq::<char>::empty());
            assert(strings_view(out@) + lines_after(text@.skip(i + 1), text@.subrange(i + 1, i + 1))
                =~= before + lines_after(rest, cur));
            start = i + 1;
        } else {
            assert(cur.push(text@[i as int]) =~= text@.subrange(start as int, i + 1));
        }
        i = i + 1;
    }
    let ghost cur = text@.subrange(start as int, n as int);
    assert(text@.skip(n as int) =~= Seq::<char>::empty());
    if start < n {
        let ghost before = strings_view(out@);
        out.push(substring(text, start, n));
        assert(strings_view(out@) =~= before.push(cur));
    } else {
        assert(cur =~= Seq::<char>::empty());
    }
    out
}

/// The rest of the first line that starts with `name`.
pub open spec fn field_after(lines: Seq<Seq<char>>, name: Seq<char>) -> Option<Seq<char>>
    decreases lines.len(),
{
    if lines.len() == 0 {
        None
    } else if is_prefix(name, lines[0]) {
        Some(lines[0].skip(name.len() as int))
    } else {
        field_after(lines.drop_first(), name)
    }
}

/// The trimmed value of the first line of `text` that starts with `name`.
pub fn field(lines: &Vec<String>, name: &str) -> (r: Option<String>)
    ensures
        match field_after(strings_view(lines@), name@) {
            None => r is None,
            Some(v) => r matches Some(t) && trimmed_of(v, t@),
        },
{
    let mut i: usize = 0;
    assert(strings_view(lines@).skip(0) =~= strings_view(lines@));
    while i < lines.len()
        invariant
            i <= lines@.len(),
            field_after(strings_view(lines@), name@) == field_after(strings_view(lines@).skip(i as int), name@),
        decreases lines.len() - i,
    {
        let ghost rest = strings_view(lines@).skip(i as int);
        assert(rest[0] == lines@[i as int]@);
        assert(rest.drop_first() =~= strings_view(lines@).skip(i + 1));
        let line = lines[i].as_str();
        if starts_with(line, name) {
            let m = name.unicode_len();
            let n = line.unicode_len();
            let v = substring(line, m, n);
            assert(v@ =~= line@.skip(m as int));
            return Some(trim(v.as_str()));
        }
        i = i + 1;
    }
    assert(strings_view(lines@).skip(i as int) =~= Seq::<Seq<char>>::empty());
    None
}

/// `u16::from_str`: an optional `+`, then one or more decimal digits of a
/// value that fits.
pub open spec fn parse_u16(s: Seq<char>) -> Option<u16> {
    let d = unsigned_digits(s);
    if d.len() > 0 && all_digits(d) && digits_value(d) <= 65535 {
        Some(digits_value(d) as u16)
    } else {
        None
    }
}

pub fn parse_port(s: &str) -> (r: Option<u16>)
    ensures
        r == parse_u16(s@),
{
    let n = s.unicode_len();
    let mut i: usize = 0;
    if n > 0 && char_at(s, 0) == '+' {
        i = 1;
    }
    let ghost d = unsigned_digits(s@);
    assert(d =~= s@.skip(i as int));
    if i == n {
        assert(d.len() == 0);
        return None;
    }
    let start = i;
    let mut value: u32 = 0;
    while i < n
        invariant
            n == s@.len(),
            start <= i <= n,
            d == s@.skip(start as int),
            d == unsigned_digits(s@),
            forall|k: int| start <= k < i ==> is_digit(#[trigger] s@[k]),
            value <= 65536,
            value == (if digits_value(s@.subrange(start as int, i as int)) > 65535 { 65536 } else {
                digits_value(s@.subrange(start as int, i as int))
            }),
        decreases n - i,
    {
        let c = char_at(s, i);
        if c < '0' || c > '9' {
            assert(!is_digit(d[i - start]));
            assert(!all_digits(d));
            return None;
        }
        let digit: u32 = (c as u32) - ('0' as u32);
        let ghost prev = s@.subrange(start as int, i as int);
        let ghost next = s@.subrange(start as int, i + 1);
        assert(next.drop_last() =~= prev);
        assert(digits_value(next) == digits_value(prev) * 10 + digit);
        value = if value * 10 + digit > 65535 { 65536 } else { value * 10 + digit };
        i = i + 1;
    }
    assert(s@.subrange(start as int, n as int) =~= d);
    if value > 65535 {
        None
    } else {
        Some(value as u16)
    }
}

/// The saved state of a switched-off legacy endpoint, as `networksetup`
/// prints it: switched off, the same server, the same port.
pub open spec fn legacy_output(text: Seq<char>, expected: ProxyProtocolState) -> bool {
    let ls = text_lines(text);
    &&& field_after(ls, "Enabled:"@) matches Some(v) && trimmed_of(v, "No"@)
    &&& field_after(ls, "Server:"@) matches Some(v) && trimmed_of(v, expected.endpoint.host@)
    &&& field_after(ls, "Port:"@) matches Some(v) && exists|t: Seq<char>|
        trimmed_of(v, t) && parse_u16(t) == Some(expected.endpoint.port)
    &&& !has_control(expected.endpoint.host@)
}

pub fn legacy_protocol_output_matches(text: &str, expected: &ProxyProtocolState) -> (r: bool)
    ensures
        r == legacy_output(text@, *expected),
{
    let ls = lines(text);
    let ghost tl = text_lines(text@);
    let enabled = match field(&ls, "Enabled:") {
        Some(v) => {
            proof {
                let f = field_after(tl, "Enabled:"@).unwrap();
                if trimmed_of(f, "No"@) {
                    lemma_trimmed_unique(f, v@, "No"@);
                }
            }
            str_eq(v.as_str(), "No")
        },
        None => false,
    };
    let server = match field(&ls, "Server:") {
        Some(v) => {
            proof {
                let f = field_after(tl, "Server:"@).unwrap();
                if trimmed_of(f, expected.endpoint.host@) {
                    lemma_trimmed_unique(f, v@, expected.endpoint.host@);
                }
            }
            str_eq(v.as_str(), expected.endpoint.host.as_str())
        },
        None => false,
    };
    let port = match field(&ls, "Port:") {
        Some(v) => {
            let p = parse_port(v.as_str());
            proof {
                let f = field_after(tl, "Port:"@).unwrap();
                assert forall|t: Seq<char>| trimmed_of(f, t) implies t == v@ by {
                    lemma_trimmed_unique(f, t, v@);
                }
            }
            match p {
                Some(x) => x == expected.endpoint.port,
                None => false,
            }
        },
        None => false,
    };
    enabled && server && port && !contains_control(expected.endpoint.host.as_str())
}

/// A recorded URL without the double quotes that older records kept around it.
pub open spec fn unquoted(u: Seq<char>) -> Seq<char> {
    if u.len() >= 2 && u[0] == '"' && u.last() == '"' {
        u.subrange(1, u.len() - 1)
    } else {
        u
    }
}

pub open spec fn recorded_url(url: Option<Seq<char>>) -> Option<Seq<char>> {
    match url {
        Some(u) => if unquoted(u).len() > 0 && unquoted(u) != "(null)"@ {
            Some(unquoted(u))
        } else {
            None
        },
        None => None,
    }
}

/// The automatic proxy URL of a recovery record as the getter reports it:
/// unquoted, and absent where empty or `(null)`.
pub fn normalize_recorded_url(url: Option<String>) -> (r: Option<String>)
    ensures
        text_option(r) == recorded_url(text_option(url)),
{
    match url {
        None => None,
        Some(u) => {
            let s = u.as_str();
            let n = s.unicode_len();
            let v = if n >= 2 && char_at(s, 0) == '"' && char_at(s, n - 1) == '"' {
                substring(s, 1, n - 1)
            } else {
                u.clone()
            };
            assert(v@ == unquoted(u@));
            if v.as_str().unicode_len() > 0 && !str_eq(v.as_str(), "(null)") {
                Some(v)
            } else {
                None
            }
        },
    }
}

pub open spec fn normalized_view(v: ServiceView) -> ServiceView {
    ServiceView { auto_proxy: AutoView { enabled: v.auto_proxy.enabled, url: recorded_url(v.auto_proxy.url) }, ..v }
}

pub open spec fn normalized_services(v: Seq<ServiceView>) -> Seq<ServiceView> {
    v.map_values(|s: ServiceView| normalized_view(s))
}

/// A recovery record with every automatic proxy URL normalized.
pub fn normalize_record(state: SystemProxyState) -> (r: SystemProxyState)
    ensures
        services_view(r.services@) == normalized_services(services_view(state.services@)),
        r.recovery_pending == state.recovery_pending,
        r.services@.len() == state.services@.len(),
        forall|i: int| 0 <= i < state.services@.len() ==> {
            let a = #[trigger] r.services@[i];
            let b = state.services@[i];
            &&& a.service == b.service
            &&& a.web == b.web
            &&& a.secure_web == b.secure_web
            &&& a.socks == b.socks
            &&& a.auto_proxy.enabled == b.auto_proxy.enabled
            &&& text_option(a.auto_proxy.url) == recorded_url(text_option(b.auto_proxy.url))
            &&& a.bypass == b.bypass
        },
{
    let SystemProxyState { services, recovery_pending } = state;
    let ghost old_services = services@;
    let mut out: Vec<SystemProxyServiceState> = Vec::new();
    let mut rest = services;
    let mut i: usize = 0;
    let n = rest.len();
    assert(rest@ =~= old_services.skip(0));
    while i < n
        invariant
            n == old_services.len(),
            i <= n,
            rest@ == old_services.skip(i as int),
            out@.len() == i,
            forall|j: int| 0 <= j < i ==> {
                let a = #[trigger] out@[j];
                let b = old_services[j];
                &&& a.service == b.service
                &&& a.web == b.web
                &&& a.secure_web == b.secure_web
                &&& a.socks == b.socks
                &&& a.auto_proxy.enabled == b.auto_proxy.enabled
                &&& text_option(a.auto_proxy.url) == recorded_url(text_option(b.auto_proxy.url))
                &&& a.bypass == b.bypass
            },
        decreases n - i,
    {
        let item = rest.remove(0);
        assert(item == old_services[i as int]);
        assert(rest@ =~= old_services.skip(i + 1));
        let SystemProxyServiceState { service, web, secure_web, socks, auto_proxy, bypass } = item;
        let AutoProxyState { enabled, url } = auto_proxy;
        out.push(SystemProxyServiceState {
            service,
            web,
            secure_web,
            socks,
            auto_proxy: AutoProxyState { enabled, url: normalize_recorded_url(url) },
            bypass,
        });
        i = i + 1;
    }
    assert(services_view(out@) =~= normalized_services(services_view(old_services)));
    SystemProxyState { services: out, recovery_pending }
}

/// The bypass domains in the rest `s` of a comma-separated list, after the
/// partial field `cur`; empty fields are left out.
pub open spec fn fields_after(s: Seq<char>, cur: Seq<char>) -> Seq<Seq<char>>
    decreases s.len(),
{
    if s.len() == 0 {
        if cur.len() > 0 { seq![cur] } else { seq![] }
    } else if s[0] == ',' {
        (if cur.len() > 0 { seq![cur] } else { seq![] }) + fields_after(s.drop_first(), seq![])
    } else {
        fields_after(s.drop_first(), cur.push(s[0]))
    }
}

pub open spec fn bypass_fields(s: Seq<char>) -> Seq<Seq<char>> {
    fields_after(s, seq![])
}

/// The bypass domains of a comma-separated list, without empty entries.
pub fn bypass_list(text: &str) -> (r: Vec<String>)
    ensures
        strings_view(r@) == bypass_fields(text@),
{
    let n = text.unicode_len();
    let mut out: Vec<String> = Vec::new();
    let mut start: usize = 0;
    let mut i: usize = 0;
    assert(text@.skip(0) =~= text@);
    assert(text@.subrange(0, 0) =~= Seq::<char>::empty());
    assert(strings_view(out@) =~= Seq::<Seq<char>>::empty());
    while i < n
        invariant
            n == text@.len(),
            start <= i <= n,
            strings_view(out@) + fields_after(text@.skip(i as int), text@.subrange(start as int, i as int))
                == bypass_fields(text@),
        decreases n - i,
    {
        let ghost rest = text@.skip(i as int);
        let ghost cur = text@.subrange(start as int, i as int);
        assert(rest.drop_first() =~= text@.skip(i + 1));
        if char_at(text, i) == ',' {
            let ghost before = strings_view(out@);
            let ghost head: Seq<Seq<char>> = if cur.len() > 0 { seq![cur] } else { seq![] };
            if i > start {
                out.push(substring(text, start, i));
                assert(strings_view(out@) =~= before + head);
            } else {
                assert(strings_view(out@) =~= before + head);
            }
            assert(text@.subrange(i + 1, i + 1) =~= Seq::<char>::empty());
            assert(strings_view(out@) + fields_after(text@.skip(i + 1), text@.subrange(i + 1, i + 1))
                =~= before + fields_after(rest, cur));
            start = i + 1;
        } else {
            assert(cur.push(text@[i as int]) =~= text@.subrange(start as int, i + 1));
        }
        i = i + 1;
    }
    let ghost cur = text@.subrange(start as int, n as int);
    assert(text@.skip(n as int) =~= Seq::<char>::empty());
    if start < n {
        let ghost before = strings_view(out@);
        out.push(substring(text, start, n));
        assert(strings_view(out@) =~= before.push(cur));
    } else {
        assert(cur =~= Seq::<char>::empty());
        assert(strings_view(out@) + Seq::<Seq<char>>::empty() =~= strings_view(out@));
    }
    out
}

/// The automatic proxy state that `networksetup` reports: an empty URL is none.
pub fn auto_proxy_from(enabled: bool, url: String) -> (r: AutoProxyState)
    ensures
        r.enabled == enabled,
        text_option(r.url) == (if url@.len() == 0 { None } else { Some(url@) }),
{
    if url.as_str().unicode_len() == 0 {
        AutoProxyState { enabled, url: None }
    } else {
        AutoProxyState { enabled, url: Some(url) }
    }
}

/// What reading one protocol back gives. Where the saved value is a legacy
/// switched-off endpoint, which the strict parser rejects, and the raw
/// output of the read shows exactly that value, the saved value is the
/// result; otherwise the parsed result is.
pub fn protocol_read(
    parsed: Result<ProxyProtocolState, AppError>,
    output: Option<String>,
    expected: Option<&ProxyProtocolState>,
) -> (r: Result<ProxyProtocolState, AppError>)
    ensures
        (match (expected, output) {
            (Some(x), Some(t)) => legacy_disabled(*x) && parsed is Err && legacy_output(t@, *x),
            _ => false,
        }) ==> r == Ok::<ProxyProtocolState, AppError>(*expected.unwrap()),
        !(match (expected, output) {
            (Some(x), Some(t)) => legacy_disabled(*x) && parsed is Err && legacy_output(t@, *x),
            _ => false,
        }) ==> r == parsed,
{
    if let (Some(x), Some(t)) = (expected, &output) {
        if legacy_disabled_endpoint(x) && parsed.is_err() && legacy_protocol_output_matches(t.as_str(), x) {
            return Ok(x.clone());
        }
    }
    parsed
}

} // verus!
