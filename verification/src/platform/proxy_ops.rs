//! The single writes that a system proxy change is made of, and the plans
//! of writes for each kind of change.
use vstd::prelude::*;

use crate::domain::{
    AppError, AutoProxyState, AutoView, ErrorCode, ProtocolView, ServiceView, services_view, service_view, ProxyEndpoint, ProxyProtocolState,
    SystemProxyServiceState, SystemProxyTarget, auto_view, copy_strings, endpoint_message, protocol_view,
    strings_view, valid_endpoint,
};
use crate::text::has_control;
use crate::platform::{argument_ok, validate_argument};
use crate::platform::proxy_state::{legacy_disabled, legacy_view};
use crate::platform::proxy_state::legacy_disabled_endpoint;

verus! {

/// A proxy protocol of a network service.
#[derive(Clone, Copy, Debug, PartialEq, Eq)]
pub enum ProxyKind {
    Http,
    Https,
    Socks,
}

/// One write to the proxy settings of a network service.
#[derive(Debug, PartialEq, Eq)]
pub enum ProxyOp {
    /// Set a protocol's switch and endpoint.
    SetProtocol { kind: ProxyKind, service: String, state: ProxyProtocolState },
    /// Turn a protocol on or off, keeping its endpoint.
    SetProtocolEnabled { kind: ProxyKind, service: String, enabled: bool },
    /// Turn the automatic proxy on or off, keeping its URL.
    SetAutoProxyEnabled { service: String, enabled: bool },
    /// Set the automatic proxy's switch and URL.
    SetAutoProxy { service: String, state: AutoProxyState },
    /// Set the bypass domains.
    SetBypass { service: String, domains: Vec<String> },
}

/// A write as plain values.
pub enum OpView {
    SetProtocol(ProxyKind, Seq<char>, ProtocolView),
    SetProtocolEnabled(ProxyKind, Seq<char>, bool),
    SetAutoProxyEnabled(Seq<char>, bool),
    SetAutoProxy(Seq<char>, AutoView),
    SetBypass(Seq<char>, Seq<Seq<char>>),
}

pub open spec fn op_view(op: ProxyOp) -> OpView {
    match op {
        ProxyOp::SetProtocol { kind, service, state } => OpView::SetProtocol(kind, service@, protocol_view(state)),
        ProxyOp::SetProtocolEnabled { kind, service, enabled } => OpView::SetProtocolEnabled(kind, service@, enabled),
        ProxyOp::SetAutoProxyEnabled { service, enabled } => OpView::SetAutoProxyEnabled(service@, enabled),
        ProxyOp::SetAutoProxy { service, state } => OpView::SetAutoProxy(service@, auto_view(state)),
        ProxyOp::SetBypass { service, domains } => OpView::SetBypass(service@, strings_view(domains@)),
    }
}

pub open spec fn ops_view(ops: Seq<ProxyOp>) -> Seq<OpView> {
    ops.map_values(|op: ProxyOp| op_view(op))
}

impl Clone for ProxyOp {
    fn clone(&self) -> (r: Self)
        ensures
            op_view(r) == op_view(*self),
    {
        match self {
            ProxyOp::SetProtocol { kind, service, state } => ProxyOp::SetProtocol {
                kind: *kind,
                service: service.clone(),
                state: state.clone(),
            },
            ProxyOp::SetProtocolEnabled { kind, service, enabled } => ProxyOp::SetProtocolEnabled {
                kind: *kind,
                service: service.clone(),
                enabled: *enabled,
            },
            ProxyOp::SetAutoProxyEnabled { service, enabled } => ProxyOp::SetAutoProxyEnabled {
                service: service.clone(),
                enabled: *enabled,
            },
            ProxyOp::SetAutoProxy { service, state } => ProxyOp::SetAutoProxy {
                service: service.clone(),
                state: state.clone(),
            },
            ProxyOp::SetBypass { service, domains } => {
                let d = copy_strings(domains);
                assert(strings_view(d@) =~= strings_view(domains@));
                ProxyOp::SetBypass { service: service.clone(), domains: d }
            },
        }
    }
}

pub open spec fn domains_ok(domains: Seq<String>) -> bool {
    forall|i: int| 0 <= i < domains.len() ==> argument_ok(#[trigger] domains[i]@)
}

/// The checks a write makes before it reaches the system: an enabled
/// protocol needs a valid endpoint, and every bypass domain must be a valid
/// argument.
pub open spec fn op_allowed(op: OpView) -> bool {
    match op {
        OpView::SetProtocol(_, _, p) => p.enabled ==> (p.host.len() > 0 && !has_control(p.host) && p.port > 0),
        OpView::SetBypass(_, d) => all_arguments_ok(d),
        _ => true,
    }
}

pub open spec fn all_arguments_ok(d: Seq<Seq<char>>) -> bool {
    forall|i: int| 0 <= i < d.len() ==> argument_ok(#[trigger] d[i])
}

/// The error of a write that fails its check.
pub open spec fn precheck_message(op: OpView) -> Seq<char> {
    match op {
        OpView::SetBypass(_, _) => "proxy bypass domain"@ + " must be non-empty and contain no control characters"@,
        _ => endpoint_message(),
    }
}

/// Bypass domains are non-empty and free of control characters.
pub fn validate_domains(domains: &Vec<String>) -> (r: Result<(), AppError>)
    ensures
        r is Ok <==> domains_ok(domains@),
        r matches Err(e) ==> e.code == ErrorCode::InvalidInput && e.message@ == "proxy bypass domain"@
            + " must be non-empty and contain no control characters"@,
{
    let mut i: usize = 0;
    while i < domains.len()
        invariant
            i <= domains@.len(),
            forall|j: int| 0 <= j < i ==> argument_ok(#[trigger] domains@[j]@),
        decreases domains.len() - i,
    {
        if let Err(e) = validate_argument("proxy bypass domain", domains[i].as_str()) {
            return Err(e);
        }
        i = i + 1;
    }
    Ok(())
}

pub fn precheck(op: &ProxyOp) -> (r: Result<(), AppError>)
    ensures
        r is Ok <==> op_allowed(op_view(*op)),
        r matches Err(e) ==> e.code == ErrorCode::InvalidInput && e.message@ == precheck_message(op_view(*op)),
{
    match op {
        ProxyOp::SetProtocol { state, .. } => {
            if state.enabled {
                if let Err(e) = ProxyEndpoint::new(state.endpoint.host.as_str(), state.endpoint.port) {
                    return Err(e);
                }
            }
            assert(op_allowed(op_view(*op)));
            Ok(())
        },
        ProxyOp::SetBypass { domains, .. } => {
            let r = validate_domains(domains);
            let ghost d = strings_view(domains@);
            assert(domains_ok(domains@) ==> (forall|i: int| 0 <= i < d.len() ==> argument_ok(#[trigger] d[i]))) by {
                if domains_ok(domains@) {
                    assert forall|i: int| 0 <= i < d.len() implies argument_ok(#[trigger] d[i]) by {
                        assert(d[i] == domains@[i]@);
                    }
                }
            }
            assert((forall|i: int| 0 <= i < d.len() ==> argument_ok(#[trigger] d[i])) ==> domains_ok(domains@)) by {
                if forall|i: int| 0 <= i < d.len() ==> argument_ok(#[trigger] d[i]) {
                    assert forall|i: int| 0 <= i < domains@.len() implies argument_ok(#[trigger] domains@[i]@) by {
                        assert(d[i] == domains@[i]@);
                    }
                }
            }
            assert(r is Ok <==> all_arguments_ok(d));
            r
        },
        _ => Ok(()),
    }
}

pub open spec fn enabled_at(ep: ProxyEndpoint) -> ProtocolView {
    ProtocolView { enabled: true, host: ep.host@, port: ep.port }
}

/// Point HTTP and HTTPS at an endpoint; the automatic proxy, which macOS
/// prefers, is switched off first.
pub open spec fn endpoint_plan(service: Seq<char>, ep: ProxyEndpoint) -> Seq<OpView> {
    seq![
        OpView::SetAutoProxyEnabled(service, false),
        OpView::SetProtocol(ProxyKind::Http, service, enabled_at(ep)),
        OpView::SetProtocol(ProxyKind::Https, service, enabled_at(ep)),
    ]
}

pub open spec fn disable_plan(service: Seq<char>) -> Seq<OpView> {
    seq![
        OpView::SetProtocolEnabled(ProxyKind::Http, service, false),
        OpView::SetProtocolEnabled(ProxyKind::Https, service, false),
        OpView::SetProtocolEnabled(ProxyKind::Socks, service, false),
        OpView::SetAutoProxyEnabled(service, false),
    ]
}

pub open spec fn configure_plan(service: Seq<char>, target: SystemProxyTarget) -> Seq<OpView> {
    match target {
        SystemProxyTarget::Manual { endpoint, bypass } => endpoint_plan(service, endpoint) + seq![
            OpView::SetProtocol(ProxyKind::Socks, service, enabled_at(endpoint)),
            OpView::SetBypass(service, strings_view(bypass@)),
        ],
        SystemProxyTarget::Pac { url } => seq![
            OpView::SetProtocolEnabled(ProxyKind::Http, service, false),
            OpView::SetProtocolEnabled(ProxyKind::Https, service, false),
            OpView::SetProtocolEnabled(ProxyKind::Socks, service, false),
            OpView::SetAutoProxy(service, AutoView { enabled: true, url: Some(url@) }),
        ],
    }
}

fn enabled_state(ep: &ProxyEndpoint) -> (r: ProxyProtocolState)
    ensures
        protocol_view(r) == enabled_at(*ep),
{
    ProxyProtocolState { enabled: true, endpoint: ep.clone() }
}

fn push_endpoint_ops(ops: &mut Vec<ProxyOp>, service: &String, ep: &ProxyEndpoint)
    ensures
        ops_view(final(ops)@) == ops_view(old(ops)@) + endpoint_plan(service@, *ep),
{
    let ghost before = ops_view(ops@);
    ops.push(ProxyOp::SetAutoProxyEnabled { service: service.clone(), enabled: false });
    ops.push(ProxyOp::SetProtocol { kind: ProxyKind::Http, service: service.clone(), state: enabled_state(ep) });
    ops.push(ProxyOp::SetProtocol { kind: ProxyKind::Https, service: service.clone(), state: enabled_state(ep) });
    assert(ops_view(ops@) =~= before + endpoint_plan(service@, *ep));
}

fn push_disable_ops(ops: &mut Vec<ProxyOp>, service: &String)
    ensures
        ops_view(final(ops)@) == ops_view(old(ops)@) + disable_plan(service@),
{
    let ghost before = ops_view(ops@);
    ops.push(ProxyOp::SetProtocolEnabled { kind: ProxyKind::Http, service: service.clone(), enabled: false });
    ops.push(ProxyOp::SetProtocolEnabled { kind: ProxyKind::Https, service: service.clone(), enabled: false });
    ops.push(ProxyOp::SetProtocolEnabled { kind: ProxyKind::Socks, service: service.clone(), enabled: false });
    ops.push(ProxyOp::SetAutoProxyEnabled { service: service.clone(), enabled: false });
    assert(ops_view(ops@) =~= before + disable_plan(service@));
}

fn push_configure_ops(ops: &mut Vec<ProxyOp>, service: &String, target: &SystemProxyTarget)
    ensures
        ops_view(final(ops)@) == ops_view(old(ops)@) + configure_plan(service@, *target),
{
    let ghost before = ops_view(ops@);
    match target {
        SystemProxyTarget::Manual { endpoint, bypass } => {
            push_endpoint_ops(ops, service, endpoint);
            let ghost mid = ops_view(ops@);
            ops.push(ProxyOp::SetProtocol {
                kind: ProxyKind::Socks,
                service: service.clone(),
                state: enabled_state(endpoint),
            });
            assert(ops_view(ops@) =~= mid.push(OpView::SetProtocol(ProxyKind::Socks, service@, enabled_at(*endpoint))));
            let ghost mid2 = ops_view(ops@);
            let d = copy_strings(bypass);
            assert(strings_view(d@) =~= strings_view(bypass@));
            ops.push(ProxyOp::SetBypass { service: service.clone(), domains: d });
            assert(ops_view(ops@) =~= mid2.push(OpView::SetBypass(service@, strings_view(bypass@))));
            assert(ops_view(ops@) =~= before + configure_plan(service@, *target));
        },
        SystemProxyTarget::Pac { url } => {
            ops.push(ProxyOp::SetProtocolEnabled { kind: ProxyKind::Http, service: service.clone(), enabled: false });
            ops.push(ProxyOp::SetProtocolEnabled { kind: ProxyKind::Https, service: service.clone(), enabled: false });
            ops.push(ProxyOp::SetProtocolEnabled { kind: ProxyKind::Socks, service: service.clone(), enabled: false });
            ops.push(ProxyOp::SetAutoProxy {
                service: service.clone(),
                state: AutoProxyState { enabled: true, url: Some(url.clone()) },
            });
            assert(ops_view(ops@) =~= before + configure_plan(service@, *target));
        },
    }
}

/// The plan of `services` in order, each service's writes made by `plan`.
pub open spec fn plan_all(services: Seq<Seq<char>>, plan: spec_fn(Seq<char>) -> Seq<OpView>) -> Seq<OpView>
    decreases services.len(),
{
    if services.len() == 0 {
        seq![]
    } else {
        plan_all(services.drop_last(), plan) + plan(services.last())
    }
}

/// Every service: HTTP and HTTPS through `endpoint`.
pub fn enable_ops(services: &Vec<String>, endpoint: &ProxyEndpoint) -> (r: Vec<ProxyOp>)
    ensures
        ops_view(r@) == plan_all(strings_view(services@), |s: Seq<char>| endpoint_plan(s, *endpoint)),
{
    let mut ops: Vec<ProxyOp> = Vec::new();
    let mut i: usize = 0;
    while i < services.len()
        invariant
            i <= services@.len(),
            ops_view(ops@) == plan_all(strings_view(services@).take(i as int), |s: Seq<char>| endpoint_plan(s, *endpoint)),
        decreases services.len() - i,
    {
        push_endpoint_ops(&mut ops, &services[i], endpoint);
        assert(strings_view(services@).take(i + 1).drop_last() =~= strings_view(services@).take(i as int));
        i = i + 1;
    }
    assert(strings_view(services@).take(services@.len() as int) =~= strings_view(services@));
    ops
}

/// Every service: all three protocols and the automatic proxy off.
pub fn disable_ops(services: &Vec<String>) -> (r: Vec<ProxyOp>)
    ensures
        ops_view(r@) == plan_all(strings_view(services@), |s: Seq<char>| disable_plan(s)),
{
    let mut ops: Vec<ProxyOp> = Vec::new();
    let mut i: usize = 0;
    while i < services.len()
        invariant
            i <= services@.len(),
            ops_view(ops@) == plan_all(strings_view(services@).take(i as int), |s: Seq<char>| disable_plan(s)),
        decreases services.len() - i,
    {
        push_disable_ops(&mut ops, &services[i]);
        assert(strings_view(services@).take(i + 1).drop_last() =~= strings_view(services@).take(i as int));
        i = i + 1;
    }
    assert(strings_view(services@).take(services@.len() as int) =~= strings_view(services@));
    ops
}

/// Every service: set as the target asks.
pub fn configure_ops(services: &Vec<String>, target: &SystemProxyTarget) -> (r: Vec<ProxyOp>)
    ensures
        ops_view(r@) == plan_all(strings_view(services@), |s: Seq<char>| configure_plan(s, *target)),
{
    let mut ops: Vec<ProxyOp> = Vec::new();
    let mut i: usize = 0;
    while i < services.len()
        invariant
            i <= services@.len(),
            ops_view(ops@) == plan_all(strings_view(services@).take(i as int), |s: Seq<char>| configure_plan(s, *target)),
        decreases services.len() - i,
    {
        push_configure_ops(&mut ops, &services[i], target);
        assert(strings_view(services@).take(i + 1).drop_last() =~= strings_view(services@).take(i as int));
        i = i + 1;
    }
    assert(strings_view(services@).take(services@.len() as int) =~= strings_view(services@));
    ops
}

pub open spec fn socks_plan(service: Seq<char>, enabled: bool, ep: ProxyEndpoint) -> Seq<OpView> {
    seq![OpView::SetProtocol(ProxyKind::Socks, service, ProtocolView { enabled, host: ep.host@, port: ep.port })]
}

/// Every service: the SOCKS switch and endpoint.
pub fn socks_ops(services: &Vec<String>, enabled: bool, endpoint: &ProxyEndpoint) -> (r: Vec<ProxyOp>)
    ensures
        ops_view(r@) == plan_all(strings_view(services@), |s: Seq<char>| socks_plan(s, enabled, *endpoint)),
{
    let mut ops: Vec<ProxyOp> = Vec::new();
    let mut i: usize = 0;
    while i < services.len()
        invariant
            i <= services@.len(),
            ops_view(ops@) == plan_all(strings_view(services@).take(i as int), |s: Seq<char>| socks_plan(s, enabled, *endpoint)),
        decreases services.len() - i,
    {
        let ghost before = ops_view(ops@);
        ops.push(ProxyOp::SetProtocol {
            kind: ProxyKind::Socks,
            service: services[i].clone(),
            state: ProxyProtocolState { enabled, endpoint: endpoint.clone() },
        });
        assert(ops_view(ops@) =~= before + socks_plan(services@[i as int]@, enabled, *endpoint));
        assert(strings_view(services@).take(i + 1).drop_last() =~= strings_view(services@).take(i as int));
        i = i + 1;
    }
    assert(strings_view(services@).take(services@.len() as int) =~= strings_view(services@));
    ops
}

pub open spec fn auto_plan(service: Seq<char>, url: Option<Seq<char>>) -> Seq<OpView> {
    match url {
        Some(u) => seq![OpView::SetAutoProxy(service, AutoView { enabled: true, url: Some(u) })],
        None => seq![OpView::SetAutoProxyEnabled(service, false)],
    }
}

pub open spec fn str_option(url: Option<&str>) -> Option<Seq<char>> {
    match url {
        Some(u) => Some(u@),
        None => None,
    }
}

/// Every service: the automatic proxy on with `url`, or off where there is none.
pub fn auto_proxy_ops(services: &Vec<String>, url: Option<&str>) -> (r: Vec<ProxyOp>)
    ensures
        ops_view(r@) == plan_all(
            strings_view(services@),
            |s: Seq<char>| auto_plan(s, str_option(url)),
        ),
{
    let ghost u = str_option(url);
    let mut ops: Vec<ProxyOp> = Vec::new();
    let mut i: usize = 0;
    while i < services.len()
        invariant
            i <= services@.len(),
            u == str_option(url),
            ops_view(ops@) == plan_all(strings_view(services@).take(i as int), |s: Seq<char>| auto_plan(s, str_option(url))),
        decreases services.len() - i,
    {
        let ghost before = ops_view(ops@);
        match url {
            Some(v) => ops.push(ProxyOp::SetAutoProxy {
                service: services[i].clone(),
                state: AutoProxyState { enabled: true, url: Some(String::from_str(v)) },
            }),
            None => ops.push(ProxyOp::SetAutoProxyEnabled { service: services[i].clone(), enabled: false }),
        }
        assert(ops_view(ops@) =~= before + auto_plan(services@[i as int]@, u));
        assert(strings_view(services@).take(i + 1).drop_last() =~= strings_view(services@).take(i as int));
        i = i + 1;
    }
    assert(strings_view(services@).take(services@.len() as int) =~= strings_view(services@));
    ops
}

pub open spec fn bypass_plan(service: Seq<char>, domains: Seq<Seq<char>>) -> Seq<OpView> {
    seq![OpView::SetBypass(service, domains)]
}

/// Every service: these bypass domains.
pub fn bypass_ops(services: &Vec<String>, domains: &Vec<String>) -> (r: Vec<ProxyOp>)
    ensures
        ops_view(r@) == plan_all(strings_view(services@), |s: Seq<char>| bypass_plan(s, strings_view(domains@))),
{
    let mut ops: Vec<ProxyOp> = Vec::new();
    let mut i: usize = 0;
    while i < services.len()
        invariant
            i <= services@.len(),
            ops_view(ops@) == plan_all(strings_view(services@).take(i as int), |s: Seq<char>| bypass_plan(s, strings_view(domains@))),
        decreases services.len() - i,
    {
        let ghost before = ops_view(ops@);
        let d = copy_strings(domains);
        assert(strings_view(d@) =~= strings_view(domains@));
        ops.push(ProxyOp::SetBypass { service: services[i].clone(), domains: d });
        assert(ops_view(ops@) =~= before + bypass_plan(services@[i as int]@, strings_view(domains@)));
        assert(strings_view(services@).take(i + 1).drop_last() =~= strings_view(services@).take(i as int));
        i = i + 1;
    }
    assert(strings_view(services@).take(services@.len() as int) =~= strings_view(services@));
    ops
}

pub open spec fn same_endpoint(a: ProxyEndpoint, b: ProxyEndpoint) -> bool {
    a.host@ == b.host@ && a.port == b.port
}

/// A protocol is moved to `new` only where it is on and still points to the
/// endpoint it had before.
pub open spec fn remap_one(
    kind: ProxyKind,
    service: Seq<char>,
    value: ProxyProtocolState,
    old: Option<ProxyEndpoint>,
    new: ProxyEndpoint,
) -> Seq<OpView> {
    if value.enabled && (old matches Some(o) && same_endpoint(o, value.endpoint)) && !same_endpoint(value.endpoint, new) {
        seq![OpView::SetProtocol(kind, service, enabled_at(new))]
    } else {
        seq![]
    }
}

pub open spec fn remap_plan(
    s: SystemProxyServiceState,
    old_http: ProxyEndpoint,
    old_socks: Option<ProxyEndpoint>,
    new: ProxyEndpoint,
) -> Seq<OpView> {
    remap_one(ProxyKind::Http, s.service@, s.web, Some(old_http), new) + remap_one(
        ProxyKind::Https,
        s.service@,
        s.secure_web,
        Some(old_http),
        new,
    ) + remap_one(ProxyKind::Socks, s.service@, s.socks, old_socks, new)
}

pub open spec fn remap_all(
    states: Seq<SystemProxyServiceState>,
    old_http: ProxyEndpoint,
    old_socks: Option<ProxyEndpoint>,
    new: ProxyEndpoint,
) -> Seq<OpView>
    decreases states.len(),
{
    if states.len() == 0 {
        seq![]
    } else {
        remap_all(states.drop_last(), old_http, old_socks, new) + remap_plan(states.last(), old_http, old_socks, new)
    }
}

fn push_remap(
    ops: &mut Vec<ProxyOp>,
    kind: ProxyKind,
    service: &String,
    value: &ProxyProtocolState,
    previous: Option<&ProxyEndpoint>,
    new: &ProxyEndpoint,
)
    ensures
        ops_view(final(ops)@) == ops_view(old(ops)@) + remap_one(
            kind,
            service@,
            *value,
            match previous { Some(o) => Some(*o), None => None },
            *new,
        ),
{
    let ghost before = ops_view(ops@);
    let was = match previous {
        Some(o) => o.same_as(&value.endpoint),
        None => false,
    };
    if value.enabled && was && !value.endpoint.same_as(new) {
        ops.push(ProxyOp::SetProtocol { kind, service: service.clone(), state: enabled_state(new) });
        assert(ops_view(ops@) =~= before.push(OpView::SetProtocol(kind, service@, enabled_at(*new))));
    } else {
        assert(ops_view(ops@) =~= before + Seq::<OpView>::empty());
    }
}

/// The writes that move the protocols still pointing at the old endpoints
/// to the new one; others are left alone.
pub fn remap_ops(
    states: &Vec<SystemProxyServiceState>,
    old_http: &ProxyEndpoint,
    old_socks: Option<&ProxyEndpoint>,
    new: &ProxyEndpoint,
) -> (r: Vec<ProxyOp>)
    ensures
        ops_view(r@) == remap_all(states@, *old_http, match old_socks { Some(o) => Some(*o), None => None }, *new),
{
    let ghost os = match old_socks { Some(o) => Some(*o), None => None };
    let mut ops: Vec<ProxyOp> = Vec::new();
    let mut i: usize = 0;
    while i < states.len()
        invariant
            i <= states@.len(),
            os == match old_socks { Some(o) => Some(*o), None => None },
            ops_view(ops@) == remap_all(states@.take(i as int), *old_http, os, *new),
        decreases states.len() - i,
    {
        let s = &states[i];
        let ghost before = ops_view(ops@);
        push_remap(&mut ops, ProxyKind::Http, &s.service, &s.web, Some(old_http), new);
        push_remap(&mut ops, ProxyKind::Https, &s.service, &s.secure_web, Some(old_http), new);
        push_remap(&mut ops, ProxyKind::Socks, &s.service, &s.socks, old_socks, new);
        assert(ops_view(ops@) =~= before + remap_plan(*s, *old_http, os, *new));
        assert(states@.take(i + 1).drop_last() =~= states@.take(i as int));
        i = i + 1;
    }
    assert(states@.take(states@.len() as int) =~= states@);
    ops
}

/// How one saved protocol is written back: a legacy switched-off endpoint
/// only by its switch, any other by switch and endpoint.
pub open spec fn restore_protocol(kind: ProxyKind, service: Seq<char>, value: ProtocolView) -> OpView {
    if legacy_view(value) {
        OpView::SetProtocolEnabled(kind, service, false)
    } else {
        OpView::SetProtocol(kind, service, value)
    }
}

/// The writes that put one saved service state back, in order.
pub open spec fn restore_plan(s: ServiceView) -> Seq<OpView> {
    seq![
        restore_protocol(ProxyKind::Http, s.service, s.web),
        restore_protocol(ProxyKind::Https, s.service, s.secure_web),
        restore_protocol(ProxyKind::Socks, s.service, s.socks),
        OpView::SetAutoProxy(s.service, s.auto_proxy),
        OpView::SetBypass(s.service, s.bypass),
    ]
}

/// What each write of `restore_plan` is called in an error report.
pub open spec fn restore_labels(s: ServiceView) -> Seq<Seq<char>> {
    seq![
        s.service + " web"@,
        s.service + " secure web"@,
        s.service + " socks"@,
        s.service + " automatic proxy"@,
        s.service + " bypass domains"@,
    ]
}

pub open spec fn restore_all(states: Seq<ServiceView>) -> Seq<OpView>
    decreases states.len(),
{
    if states.len() == 0 {
        seq![]
    } else {
        restore_all(states.drop_last()) + restore_plan(states.last())
    }
}

pub open spec fn labels_all(states: Seq<ServiceView>) -> Seq<Seq<char>>
    decreases states.len(),
{
    if states.len() == 0 {
        seq![]
    } else {
        labels_all(states.drop_last()) + restore_labels(states.last())
    }
}

fn restore_protocol_op(kind: ProxyKind, service: &String, value: &ProxyProtocolState) -> (r: ProxyOp)
    ensures
        op_view(r) == restore_protocol(kind, service@, protocol_view(*value)),
{
    if legacy_disabled_endpoint(value) {
        ProxyOp::SetProtocolEnabled { kind, service: service.clone(), enabled: false }
    } else {
        ProxyOp::SetProtocol { kind, service: service.clone(), state: value.clone() }
    }
}

/// The writes that restore saved service states, with the label of each.
pub fn restore_ops(states: &Vec<SystemProxyServiceState>) -> (r: (Vec<ProxyOp>, Vec<String>))
    ensures
        ops_view(r.0@) == restore_all(services_view(states@)),
        strings_view(r.1@) == labels_all(services_view(states@)),
{
    let mut ops: Vec<ProxyOp> = Vec::new();
    let mut labels: Vec<String> = Vec::new();
    let mut i: usize = 0;
    while i < states.len()
        invariant
            i <= states@.len(),
            ops_view(ops@) == restore_all(services_view(states@.take(i as int))),
            strings_view(labels@) == labels_all(services_view(states@.take(i as int))),
        decreases states.len() - i,
    {
        let s = &states[i];
        let ghost before = ops_view(ops@);
        let ghost before_labels = strings_view(labels@);
        ops.push(restore_protocol_op(ProxyKind::Http, &s.service, &s.web));
        ops.push(restore_protocol_op(ProxyKind::Https, &s.service, &s.secure_web));
        ops.push(restore_protocol_op(ProxyKind::Socks, &s.service, &s.socks));
        ops.push(ProxyOp::SetAutoProxy { service: s.service.clone(), state: s.auto_proxy.clone() });
        let d = copy_strings(&s.bypass);
        assert(strings_view(d@) =~= strings_view(s.bypass@));
        ops.push(ProxyOp::SetBypass { service: s.service.clone(), domains: d });
        assert(ops_view(ops@) =~= before + restore_plan(service_view(*s)));
        labels.push(s.service.clone().concat(" web"));
        labels.push(s.service.clone().concat(" secure web"));
        labels.push(s.service.clone().concat(" socks"));
        labels.push(s.service.clone().concat(" automatic proxy"));
        labels.push(s.service.clone().concat(" bypass domains"));
        assert(strings_view(labels@) =~= before_labels + restore_labels(service_view(*s)));
        assert(services_view(states@.take(i + 1)).drop_last() =~= services_view(states@.take(i as int)));
        i = i + 1;
    }
    assert(states@.take(states@.len() as int) =~= states@);
    assert(services_view(states@.take(0)) =~= Seq::<ServiceView>::empty());
    (ops, labels)
}

/// The protocol of `kind` in a service's settings.
pub open spec fn protocol_in(s: SystemProxyServiceState, kind: ProxyKind) -> ProxyProtocolState {
    match kind {
        ProxyKind::Http => s.web,
        ProxyKind::Https => s.secure_web,
        ProxyKind::Socks => s.socks,
    }
}

/// The endpoint that a move starts from, for protocols of `kind`.
pub open spec fn moved_from(kind: ProxyKind, old_http: ProxyEndpoint, old_socks: Option<ProxyEndpoint>) -> Option<ProxyEndpoint> {
    match kind {
        ProxyKind::Socks => old_socks,
        _ => Some(old_http),
    }
}

/// Service `j` had protocol `kind` switched on, pointing at the endpoint the
/// move starts from and not yet at the new one.
pub open spec fn movable_at(
    states: Seq<SystemProxyServiceState>,
    j: int,
    kind: ProxyKind,
    service: Seq<char>,
    old_http: ProxyEndpoint,
    old_socks: Option<ProxyEndpoint>,
    new: ProxyEndpoint,
) -> bool {
    let v = protocol_in(states[j], kind);
    &&& 0 <= j < states.len()
    &&& states[j].service@ == service
    &&& v.enabled
    &&& (moved_from(kind, old_http, old_socks) matches Some(o) && o.host@ == v.endpoint.host@ && o.port
        == v.endpoint.port)
    &&& !(v.endpoint.host@ == new.host@ && v.endpoint.port == new.port)
}

/// A planned write points a protocol that was on, at the endpoint the move
/// starts from, to the new endpoint, switched on.
pub open spec fn remap_write_ok(
    states: Seq<SystemProxyServiceState>,
    old_http: ProxyEndpoint,
    old_socks: Option<ProxyEndpoint>,
    new: ProxyEndpoint,
    op: OpView,
) -> bool {
    &&& op is SetProtocol
    &&& op->SetProtocol_2 == enabled_at(new)
    &&& exists|j: int| #[trigger] movable_at(states, j, op->SetProtocol_0, op->SetProtocol_1, old_http, old_socks, new)
}

/// An endpoint move never switches a protocol on, nor touches one that was
/// elsewhere: every write it plans moves a protocol that was on and pointed
/// at the endpoint the move starts from.
pub proof fn law_remap_moves_only_enabled_protocols(
    states: Seq<SystemProxyServiceState>,
    old_http: ProxyEndpoint,
    old_socks: Option<ProxyEndpoint>,
    new: ProxyEndpoint,
)
    ensures
        forall|i: int| 0 <= i < remap_all(states, old_http, old_socks, new).len() ==> remap_write_ok(
            states,
            old_http,
            old_socks,
            new,
            #[trigger] remap_all(states, old_http, old_socks, new)[i],
        ),
    decreases states.len(),
{
    if states.len() > 0 {
        let d = states.drop_last();
        let last = states.len() - 1;
        law_remap_moves_only_enabled_protocols(d, old_http, old_socks, new);
        let before = remap_all(d, old_http, old_socks, new);
        let all = remap_all(states, old_http, old_socks, new);
        let s = states.last();
        let h = remap_one(ProxyKind::Http, s.service@, s.web, Some(old_http), new);
        let t = remap_one(ProxyKind::Https, s.service@, s.secure_web, Some(old_http), new);
        let k = remap_one(ProxyKind::Socks, s.service@, s.socks, old_socks, new);
        assert(all == before + (h + t + k));
        assert forall|i: int| 0 <= i < all.len() implies remap_write_ok(states, old_http, old_socks, new, #[trigger] all[i]) by {
            let op = all[i];
            if i < before.len() {
                assert(op == before[i]);
                assert(remap_write_ok(d, old_http, old_socks, new, op));
                let j = choose|j: int| #[trigger] movable_at(d, j, op->SetProtocol_0, op->SetProtocol_1, old_http, old_socks, new);
                assert(d[j] == states[j]);
                assert(movable_at(states, j, op->SetProtocol_0, op->SetProtocol_1, old_http, old_socks, new));
            } else {
                let r = i - before.len();
                assert(op == (h + t + k)[r]);
                assert(states[last] == s);
                if r < h.len() {
                    assert(op == h[0]);
                } else if r < h.len() + t.len() {
                    assert(op == t[0]);
                } else {
                    assert(op == k[0]);
                }
                assert(movable_at(states, last, op->SetProtocol_0, op->SetProtocol_1, old_http, old_socks, new));
            }
        }
    }
}

/// Every protocol that was on and pointed at the endpoint the move starts
/// from, and not yet at the new one, is moved.
pub proof fn law_remap_moves_every_enabled_protocol(
    states: Seq<SystemProxyServiceState>,
    old_http: ProxyEndpoint,
    old_socks: Option<ProxyEndpoint>,
    new: ProxyEndpoint,
    j: int,
    kind: ProxyKind,
)
    requires
        movable_at(states, j, kind, states[j].service@, old_http, old_socks, new),
    ensures
        remap_all(states, old_http, old_socks, new).contains(OpView::SetProtocol(kind, states[j].service@, enabled_at(new))),
    decreases states.len(),
{
    let d = states.drop_last();
    let last = states.len() - 1;
    let before = remap_all(d, old_http, old_socks, new);
    let all = remap_all(states, old_http, old_socks, new);
    let s = states.last();
    let h = remap_one(ProxyKind::Http, s.service@, s.web, Some(old_http), new);
    let t = remap_one(ProxyKind::Https, s.service@, s.secure_web, Some(old_http), new);
    let k = remap_one(ProxyKind::Socks, s.service@, s.socks, old_socks, new);
    let op = OpView::SetProtocol(kind, states[j].service@, enabled_at(new));
    assert(all == before + (h + t + k));
    if j < last {
        assert(d[j] == states[j]);
        law_remap_moves_every_enabled_protocol(d, old_http, old_socks, new, j, kind);
        let i = choose|i: int| 0 <= i < before.len() && before[i] == op;
        assert(all[i] == op);
    } else {
        assert(states[j] == s);
        match kind {
            ProxyKind::Http => {
                assert(h == seq![op]);
                assert(all[before.len() as int] == op);
            },
            ProxyKind::Https => {
                assert(t == seq![op]);
                assert(all[(before.len() + h.len()) as int] == op);
            },
            ProxyKind::Socks => {
                assert(k == seq![op]);
                assert(all[(before.len() + h.len() + t.len()) as int] == op);
            },
        }
    }
}

} // verus!
