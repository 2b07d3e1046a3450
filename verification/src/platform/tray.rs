//! The status-bar menu: which entries it shows for a given state, and the
//! traffic figures of its tooltip.
use vstd::prelude::*;

use std::sync::Arc;

use crate::domain::{ProfileId, ProxyGroup, RunMode};
use crate::text::{decimal, decimal_string, str_eq};

verus! {

#[derive(Clone, Debug, PartialEq, Eq)]
pub enum TrayCommand {
    ShowMainWindow,
    ToggleSystemProxy,
    SetMode(RunMode),
    SelectProfile(ProfileId),
    SelectProxy { group: String, proxy: String },
    UpdateCurrentProfile,
    OpenDirectory(TrayDirectory),
    RestartCore,
    RestartApplication,
    Quit,
}

#[derive(Clone, Copy, Debug, PartialEq, Eq)]
pub enum TrayDirectory {
    Data,
    Profiles,
    Logs,
}

#[derive(Clone, Debug, Default, PartialEq, Eq)]
pub struct TrayMenuState {
    pub language: String,
    pub system_proxy_enabled: bool,
    pub can_enable_system_proxy: bool,
    pub mode: Option<RunMode>,
    pub profiles: Vec<(ProfileId, String)>,
    pub selected_profile: Option<ProfileId>,
    pub can_update_profile: bool,
    pub can_restart_application: bool,
    pub groups: Vec<ProxyGroup>,
}

#[derive(Clone, Debug, Default, PartialEq, Eq)]
pub struct TraySnapshot {
    pub menu: Arc<TrayMenuState>,
    pub upload_bytes_per_second: u64,
    pub download_bytes_per_second: u64,
}

/// A menu entry, independent of the native toolkit.
#[derive(Debug, PartialEq, Eq)]
pub enum Entry {
    Item { label: String, command: Option<TrayCommand>, checked: Option<bool>, enabled: bool },
    Submenu(String, Vec<Entry>),
    Separator,
}

impl Entry {
    pub fn action(label: String, command: TrayCommand, enabled: bool) -> (e: Entry)
        ensures
            e == (Entry::Item { label, command: Some(command), checked: None, enabled }),
    {
        Entry::Item { label, command: Some(command), checked: None, enabled }
    }

    pub fn check(label: String, command: TrayCommand, checked: bool, enabled: bool) -> (e: Entry)
        ensures
            e == (Entry::Item { label, command: Some(command), checked: Some(checked), enabled }),
    {
        Entry::Item { label, command: Some(command), checked: Some(checked), enabled }
    }
}

pub open spec fn zh(state: TrayMenuState) -> bool {
    state.language@ == "zh-CN"@
}

/// The Chinese or the English text, by the menu language.
pub open spec fn tr(state: TrayMenuState, zh_text: Seq<char>, en_text: Seq<char>) -> Seq<char> {
    if zh(state) { zh_text } else { en_text }
}

pub open spec fn mode_label(state: TrayMenuState, mode: Option<RunMode>) -> Seq<char> {
    match mode {
        Some(RunMode::Rule) => tr(state, "规则"@, "Rule"@),
        Some(RunMode::Global) => tr(state, "全局"@, "Global"@),
        Some(RunMode::Direct) => tr(state, "直连"@, "Direct"@),
        None => tr(state, "内核未运行"@, "Core offline"@),
    }
}

pub open spec fn is_item(e: Entry, label: Seq<char>, command: Option<TrayCommand>, checked: Option<bool>, enabled: bool) -> bool {
    e matches Entry::Item { label: l, command: c, checked: k, enabled: n } && l@ == label && c == command
        && k == checked && n == enabled
}

pub open spec fn same_profile(a: Option<ProfileId>, b: ProfileId) -> bool {
    a matches Some(x) && x.value@ == b.value@
}

pub open spec fn same_text(a: Option<String>, b: String) -> bool {
    a matches Some(x) && x@ == b@
}

/// Members of selectable group kinds can be chosen from the menu.
pub open spec fn selectable_kind(kind: Seq<char>) -> bool {
    kind == "Selector"@ || kind == "URLTest"@ || kind == "Fallback"@
}

/// The entries of a group: one check item per member, checked for the
/// selected member.
pub open spec fn group_items_ok(group: ProxyGroup, items: Seq<Entry>) -> bool {
    items.len() == group.members@.len() && forall|i: int| 0 <= i < items.len() ==> is_item(
        #[trigger] items[i],
        group.members@[i]@,
        Some(TrayCommand::SelectProxy { group: group.name, proxy: group.members@[i] }),
        Some(same_text(group.selected, group.members@[i])),
        selectable_kind(group.kind@),
    )
}

pub open spec fn group_title(group: ProxyGroup) -> Seq<char> {
    match group.selected {
        None => group.name@,
        Some(s) => group.name@ + " · "@ + s@,
    }
}

pub open spec fn group_submenu_ok(group: ProxyGroup, e: Entry) -> bool {
    e matches Entry::Submenu(t, c) && t@ == group_title(group) && group_items_ok(group, c@)
}

/// In rule mode: one submenu per group other than `GLOBAL`, in order.
pub open spec fn rule_entries_ok(groups: Seq<ProxyGroup>, entries: Seq<Entry>) -> bool
    decreases groups.len(),
{
    if groups.len() == 0 {
        entries.len() == 0
    } else if groups.last().name@ == "GLOBAL"@ {
        rule_entries_ok(groups.drop_last(), entries)
    } else {
        entries.len() > 0 && rule_entries_ok(groups.drop_last(), entries.drop_last()) && group_submenu_ok(
            groups.last(),
            entries.last(),
        )
    }
}

pub open spec fn first_global(groups: Seq<ProxyGroup>, i: int) -> bool {
    0 <= i < groups.len() && groups[i].name@ == "GLOBAL"@ && forall|j: int|
        0 <= j < i ==> groups[j].name@ != "GLOBAL"@
}

/// The proxy entries: in global mode the members of the first `GLOBAL`
/// group, in rule mode the other groups as submenus, otherwise none.
pub open spec fn proxy_entries_ok(state: TrayMenuState, entries: Seq<Entry>) -> bool {
    match state.mode {
        Some(RunMode::Global) => if exists|i: int| first_global(state.groups@, i) {
            group_items_ok(state.groups@[choose|i: int| first_global(state.groups@, i)], entries)
        } else {
            entries.len() == 0
        },
        Some(RunMode::Rule) => rule_entries_ok(state.groups@, entries),
        _ => entries.len() == 0,
    }
}

pub open spec fn profile_entries_ok(state: TrayMenuState, entries: Seq<Entry>) -> bool {
    entries.len() == state.profiles@.len() && forall|i: int| 0 <= i < entries.len() ==> is_item(
        #[trigger] entries[i],
        state.profiles@[i].1@,
        Some(TrayCommand::SelectProfile(state.profiles@[i].0)),
        Some(same_profile(state.selected_profile, state.profiles@[i].0)),
        true,
    )
}

pub open spec fn mode_entries_ok(state: TrayMenuState, entries: Seq<Entry>) -> bool {
    let modes = seq![RunMode::Rule, RunMode::Global, RunMode::Direct];
    entries.len() == 3 && forall|i: int| 0 <= i < 3 ==> is_item(
        #[trigger] entries[i],
        mode_label(state, Some(modes[i])),
        Some(TrayCommand::SetMode(modes[i])),
        Some(state.mode == Some(modes[i])),
        state.mode is Some,
    )
}

/// The whole menu for a state; `version` is the application version shown
/// at the bottom of "More".
pub open spec fn menu_ok(state: TrayMenuState, version: Seq<char>, m: Seq<Entry>) -> bool {
    &&& m.len() == 13
    &&& is_item(m[0], tr(state, "显示 Verge"@, "Show Verge"@), Some(TrayCommand::ShowMainWindow), None, true)
    &&& m[1] is Separator
    &&& (m[2] matches Entry::Submenu(t, c) && t@ == tr(state, "出站模式"@, "Outbound mode"@) + "（"@
        + mode_label(state, state.mode) + "）"@ && mode_entries_ok(state, c@))
    &&& m[3] is Separator
    &&& (m[4] matches Entry::Submenu(t, c) && t@ == tr(state, "配置"@, "Profiles"@) && profile_entries_ok(
        state,
        c@,
    ))
    &&& (m[5] matches Entry::Submenu(t, c) && t@ == tr(state, "代理"@, "Proxies"@) && proxy_entries_ok(
        state,
        c@,
    ))
    &&& m[6] is Separator
    &&& is_item(
        m[7],
        tr(state, "系统代理"@, "System Proxy"@),
        Some(TrayCommand::ToggleSystemProxy),
        Some(state.system_proxy_enabled),
        state.system_proxy_enabled || state.can_enable_system_proxy,
    )
    &&& m[8] is Separator
    &&& (m[9] matches Entry::Submenu(t, c) && t@ == tr(state, "打开目录"@, "Open Directory"@) && c@.len() == 3
        && is_item(c@[0], tr(state, "数据目录"@, "Data"@), Some(TrayCommand::OpenDirectory(TrayDirectory::Data)), None, true)
        && is_item(c@[1], tr(state, "配置目录"@, "Profiles"@), Some(TrayCommand::OpenDirectory(TrayDirectory::Profiles)), None, true)
        && is_item(c@[2], tr(state, "日志目录"@, "Logs"@), Some(TrayCommand::OpenDirectory(TrayDirectory::Logs)), None, true))
    &&& (m[10] matches Entry::Submenu(t, c) && t@ == tr(state, "更多"@, "More"@) && c@.len() == 5
        && is_item(c@[0], tr(state, "更新当前订阅"@, "Update Current Subscription"@), Some(TrayCommand::UpdateCurrentProfile), None, state.can_update_profile)
        && is_item(c@[1], tr(state, "重启内核"@, "Restart Core"@), Some(TrayCommand::RestartCore), None, state.selected_profile is Some)
        && is_item(c@[2], tr(state, "重启 Verge"@, "Restart Verge"@), Some(TrayCommand::RestartApplication), None, state.can_restart_application)
        && c@[3] is Separator
        && is_item(c@[4], "Verge "@ + version, None, None, false))
    &&& m[11] is Separator
    &&& is_item(m[12], tr(state, "退出"@, "Quit"@), Some(TrayCommand::Quit), None, true)
}

fn is_zh(state: &TrayMenuState) -> (r: bool)
    ensures
        r == zh(*state),
{
    str_eq(state.language.as_str(), "zh-CN")
}

fn text(state: &TrayMenuState, zh_text: &str, en_text: &str) -> (r: String)
    ensures
        r@ == tr(*state, zh_text@, en_text@),
{
    if is_zh(state) {
        String::from_str(zh_text)
    } else {
        String::from_str(en_text)
    }
}

fn mode_text(state: &TrayMenuState, mode: Option<RunMode>) -> (r: String)
    ensures
        r@ == mode_label(*state, mode),
{
    match mode {
        Some(RunMode::Rule) => text(state, "规则", "Rule"),
        Some(RunMode::Global) => text(state, "全局", "Global"),
        Some(RunMode::Direct) => text(state, "直连", "Direct"),
        None => text(state, "内核未运行", "Core offline"),
    }
}

fn option_text_is(a: &Option<String>, b: &String) -> (r: bool)
    ensures
        r == same_text(*a, *b),
{
    match a {
        Some(x) => *x == *b,
        None => false,
    }
}

fn group_items(group: &ProxyGroup) -> (r: Vec<Entry>)
    ensures
        group_items_ok(*group, r@),
{
    let selectable = str_eq(group.kind.as_str(), "Selector") || str_eq(group.kind.as_str(), "URLTest")
        || str_eq(group.kind.as_str(), "Fallback");
    let mut items: Vec<Entry> = Vec::new();
    let mut i: usize = 0;
    while i < group.members.len()
        invariant
            i <= group.members@.len(),
            selectable == selectable_kind(group.kind@),
            items@.len() == i,
            forall|j: int| 0 <= j < i ==> is_item(
                #[trigger] items@[j],
                group.members@[j]@,
                Some(TrayCommand::SelectProxy { group: group.name, proxy: group.members@[j] }),
                Some(same_text(group.selected, group.members@[j])),
                selectable_kind(group.kind@),
            ),
        decreases group.members.len() - i,
    {
        let proxy = &group.members[i];
        let checked = option_text_is(&group.selected, proxy);
        items.push(Entry::check(
            proxy.clone(),
            TrayCommand::SelectProxy { group: group.name.clone(), proxy: proxy.clone() },
            checked,
            selectable,
        ));
        i = i + 1;
    }
    items
}

fn group_title_text(group: &ProxyGroup) -> (r: String)
    ensures
        r@ == group_title(*group),
{
    match &group.selected {
        None => group.name.clone(),
        Some(s) => group.name.clone().concat(" · ").concat(s.as_str()),
    }
}

proof fn lemma_rule_entries_step(groups: Seq<ProxyGroup>, entries: Seq<Entry>, i: int)
    requires
        0 <= i < groups.len(),
        rule_entries_ok(groups.take(i), entries),
    ensures
        groups[i].name@ == "GLOBAL"@ ==> rule_entries_ok(groups.take(i + 1), entries),
        forall|e: Entry| groups[i].name@ != "GLOBAL"@ && group_submenu_ok(groups[i], e) ==> rule_entries_ok(
            groups.take(i + 1),
            #[trigger] entries.push(e),
        ),
{
    assert(groups.take(i + 1).drop_last() =~= groups.take(i));
    assert(groups.take(i + 1).last() == groups[i]);
    assert forall|e: Entry| groups[i].name@ != "GLOBAL"@ && group_submenu_ok(groups[i], e) implies rule_entries_ok(
        groups.take(i + 1),
        #[trigger] entries.push(e),
    ) by {
        assert(entries.push(e).drop_last() =~= entries);
    }
}

fn proxy_entries(state: &TrayMenuState) -> (r: Vec<Entry>)
    ensures
        proxy_entries_ok(*state, r@),
{
    match state.mode {
        Some(RunMode::Global) => {
            let mut i: usize = 0;
            while i < state.groups.len()
                invariant
                    state.mode == Some(RunMode::Global),
                    i <= state.groups@.len(),
                    forall|j: int| 0 <= j < i ==> state.groups@[j].name@ != "GLOBAL"@,
                decreases state.groups.len() - i,
            {
                if str_eq(state.groups[i].name.as_str(), "GLOBAL") {
                    assert(first_global(state.groups@, i as int));
                    let ghost c = choose|k: int| first_global(state.groups@, k);
                    assert(c == i) by {
                        if c < i {
                            assert(state.groups@[c].name@ != "GLOBAL"@);
                        } else if c > i {
                            assert(state.groups@[i as int].name@ != "GLOBAL"@);
                        }
                    }
                    return group_items(&state.groups[i]);
                }
                i = i + 1;
            }
            Vec::new()
        },
        Some(RunMode::Rule) => {
            let mut entries: Vec<Entry> = Vec::new();
            let mut i: usize = 0;
            assert(state.groups@.take(0) =~= seq![]);
            while i < state.groups.len()
                invariant
                    state.mode == Some(RunMode::Rule),
                    i <= state.groups@.len(),
                    rule_entries_ok(state.groups@.take(i as int), entries@),
                decreases state.groups.len() - i,
            {
                let group = &state.groups[i];
                proof {
                    lemma_rule_entries_step(state.groups@, entries@, i as int);
                }
                if !str_eq(group.name.as_str(), "GLOBAL") {
                    let title = group_title_text(group);
                    let items = group_items(group);
                    let e = Entry::Submenu(title, items);
                    assert(group_submenu_ok(*group, e));
                    entries.push(e);
                }
                i = i + 1;
            }
            assert(state.groups@.take(state.groups@.len() as int) =~= state.groups@);
            entries
        },
        _ => Vec::new(),
    }
}

fn profile_entries(state: &TrayMenuState) -> (r: Vec<Entry>)
    ensures
        profile_entries_ok(*state, r@),
{
    let mut items: Vec<Entry> = Vec::new();
    let mut i: usize = 0;
    while i < state.profiles.len()
        invariant
            i <= state.profiles@.len(),
            items@.len() == i,
            forall|j: int| 0 <= j < i ==> is_item(
                #[trigger] items@[j],
                state.profiles@[j].1@,
                Some(TrayCommand::SelectProfile(state.profiles@[j].0)),
                Some(same_profile(state.selected_profile, state.profiles@[j].0)),
                true,
            ),
        decreases state.profiles.len() - i,
    {
        let (id, name) = &state.profiles[i];
        let checked = match &state.selected_profile {
            Some(selected) => selected.same_as(id),
            None => false,
        };
        items.push(Entry::check(name.clone(), TrayCommand::SelectProfile(id.clone()), checked, true));
        i = i + 1;
    }
    items
}

fn same_mode(a: Option<RunMode>, b: RunMode) -> (r: bool)
    ensures
        r == (a == Some(b)),
{
    match (a, b) {
        (Some(RunMode::Rule), RunMode::Rule) => true,
        (Some(RunMode::Global), RunMode::Global) => true,
        (Some(RunMode::Direct), RunMode::Direct) => true,
        _ => false,
    }
}

fn mode_entries(state: &TrayMenuState) -> (r: Vec<Entry>)
    ensures
        mode_entries_ok(*state, r@),
{
    let online = state.mode.is_some();
    let mut items: Vec<Entry> = Vec::new();
    items.push(Entry::check(mode_text(state, Some(RunMode::Rule)), TrayCommand::SetMode(RunMode::Rule), same_mode(state.mode, RunMode::Rule), online));
    items.push(Entry::check(mode_text(state, Some(RunMode::Global)), TrayCommand::SetMode(RunMode::Global), same_mode(state.mode, RunMode::Global), online));
    items.push(Entry::check(mode_text(state, Some(RunMode::Direct)), TrayCommand::SetMode(RunMode::Direct), same_mode(state.mode, RunMode::Direct), online));
    let ghost modes = seq![RunMode::Rule, RunMode::Global, RunMode::Direct];
    assert forall|i: int| 0 <= i < 3 implies is_item(
        #[trigger] items@[i],
        mode_label(*state, Some(modes[i])),
        Some(TrayCommand::SetMode(modes[i])),
        Some(state.mode == Some(modes[i])),
        state.mode is Some,
    ) by {
        if i == 0 {
        } else if i == 1 {
        } else {
        }
    }
    items
}

/// The members of a Selector, URLTest or Fallback group can be chosen from
/// the menu, and those of any other kind cannot; every member item selects
/// that member of the group and is checked exactly for the selected member.
pub proof fn law_group_members_selectable_by_kind(group: ProxyGroup, items: Seq<Entry>, i: int)
    requires
        group_items_ok(group, items),
        0 <= i < group.members@.len(),
    ensures
        items[i] matches Entry::Item { label, command, checked, enabled } && label@ == group.members@[i]@
            && command == Some(TrayCommand::SelectProxy { group: group.name, proxy: group.members@[i] })
            && checked == Some(group.selected matches Some(s) && s@ == group.members@[i]@)
            && (enabled <==> (group.kind@ == "Selector"@ || group.kind@ == "URLTest"@ || group.kind@ == "Fallback"@)),
{
    assert(is_item(items[i], group.members@[i]@, Some(TrayCommand::SelectProxy { group: group.name, proxy: group.members@[i] }), Some(same_text(group.selected, group.members@[i])), selectable_kind(group.kind@)));
}

/// The menu for a state.
pub fn menu_entries(state: &TrayMenuState, version: &str) -> (m: Vec<Entry>)
    ensures
        menu_ok(*state, version@, m@),
{
    let mut m: Vec<Entry> = Vec::new();
    m.push(Entry::action(text(state, "显示 Verge", "Show Verge"), TrayCommand::ShowMainWindow, true));
    m.push(Entry::Separator);
    let mode_title = text(state, "出站模式", "Outbound mode").concat("（").concat(mode_text(state, state.mode).as_str()).concat("）");
    m.push(Entry::Submenu(mode_title, mode_entries(state)));
    m.push(Entry::Separator);
    m.push(Entry::Submenu(text(state, "配置", "Profiles"), profile_entries(state)));
    m.push(Entry::Submenu(text(state, "代理", "Proxies"), proxy_entries(state)));
    m.push(Entry::Separator);
    m.push(Entry::check(
        text(state, "系统代理", "System Proxy"),
        TrayCommand::ToggleSystemProxy,
        state.system_proxy_enabled,
        state.system_proxy_enabled || state.can_enable_system_proxy,
    ));
    m.push(Entry::Separator);
    let mut dirs: Vec<Entry> = Vec::new();
    dirs.push(Entry::action(text(state, "数据目录", "Data"), TrayCommand::OpenDirectory(TrayDirectory::Data), true));
    dirs.push(Entry::action(text(state, "配置目录", "Profiles"), TrayCommand::OpenDirectory(TrayDirectory::Profiles), true));
    dirs.push(Entry::action(text(state, "日志目录", "Logs"), TrayCommand::OpenDirectory(TrayDirectory::Logs), true));
    m.push(Entry::Submenu(text(state, "打开目录", "Open Directory"), dirs));
    let mut more: Vec<Entry> = Vec::new();
    more.push(Entry::action(text(state, "更新当前订阅", "Update Current Subscription"), TrayCommand::UpdateCurrentProfile, state.can_update_profile));
    more.push(Entry::action(text(state, "重启内核", "Restart Core"), TrayCommand::RestartCore, state.selected_profile.is_some()));
    more.push(Entry::action(text(state, "重启 Verge", "Restart Verge"), TrayCommand::RestartApplication, state.can_restart_application));
    more.push(Entry::Separator);
    more.push(Entry::Item {
        label: String::from_str("Verge ").concat(version),
        command: None,
        checked: None,
        enabled: false,
    });
    m.push(Entry::Submenu(text(state, "更多", "More"), more));
    m.push(Entry::Separator);
    m.push(Entry::action(text(state, "退出", "Quit"), TrayCommand::Quit, true));
    m
}

/// Tenths of `value / unit`, rounded to nearest with ties to even.
pub open spec fn tenths(value: nat, unit: nat) -> nat
    recommends
        unit > 0,
{
    let q = (value * 10) / unit;
    let r = (value * 10) % unit;
    if 2 * r > unit || (2 * r == unit && q % 2 == 1) { q + 1 } else { q }
}

pub open spec fn one_decimal(t: nat) -> Seq<char> {
    decimal(t / 10) + "."@ + decimal(t % 10)
}

/// A byte count as the tooltip shows it: bytes below 1 KiB, otherwise KiB or
/// MiB with one decimal.
pub open spec fn bytes_text(bytes: u64) -> Seq<char> {
    if bytes >= 1_048_576 {
        one_decimal(tenths(bytes as nat, 1_048_576)) + " MiB"@
    } else if bytes >= 1024 {
        one_decimal(tenths(bytes as nat, 1024)) + " KiB"@
    } else {
        decimal(bytes as nat) + " B"@
    }
}

fn tenths_of(value: u64, unit: u64) -> (t: u64)
    requires
        unit == 1024 || unit == 1_048_576,
    ensures
        t == tenths(value as nat, unit as nat),
{
    let wide: u128 = (value as u128) * 10;
    let q: u128 = wide / (unit as u128);
    let r: u128 = wide % (unit as u128);
    assert(q <= u64::MAX as u128) by (nonlinear_arith)
        requires
            wide == value as u128 * 10,
            q == wide / (unit as u128),
            unit >= 1024,
            value <= u64::MAX,
    ;
    let t = if 2 * r > unit as u128 || (2 * r == unit as u128 && q % 2 == 1) { q + 1 } else { q };
    assert(t <= u64::MAX as u128) by (nonlinear_arith)
        requires
            wide == value as u128 * 10,
            q == wide / (unit as u128),
            t <= q + 1,
            unit >= 1024,
            value <= u64::MAX,
    ;
    t as u64
}

fn one_decimal_text(t: u64) -> (r: String)
    ensures
        r@ == one_decimal(t as nat),
{
    decimal_string(t / 10).concat(".").concat(decimal_string(t % 10).as_str())
}

/// The tooltip figure for a byte count (see `bytes_text`).
pub fn format_bytes(bytes: u64) -> (r: String)
    ensures
        r@ == bytes_text(bytes),
{
    if bytes >= 1_048_576 {
        one_decimal_text(tenths_of(bytes, 1_048_576)).concat(" MiB")
    } else if bytes >= 1024 {
        one_decimal_text(tenths_of(bytes, 1024)).concat(" KiB")
    } else {
        decimal_string(bytes).concat(" B")
    }
}

/// The tooltip text: upload and download rates.
pub fn tooltip(snapshot: &TraySnapshot) -> (r: String)
    ensures
        r@ == "Verge · ↑ "@ + bytes_text(snapshot.upload_bytes_per_second) + "/s   ↓ "@ + bytes_text(
            snapshot.download_bytes_per_second,
        ) + "/s"@,
{
    String::from_str("Verge · ↑ ").concat(format_bytes(snapshot.upload_bytes_per_second).as_str()).concat(
        "/s   ↓ ",
    ).concat(format_bytes(snapshot.download_bytes_per_second).as_str()).concat("/s")
}

} // verus!
