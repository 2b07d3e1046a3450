//! The model of the proxies page: which group headers and node rows are
//! visible for a run mode, the expanded groups and a search query.
use vstd::prelude::*;

use crate::domain::{AppError, ErrorCode, ProxyGroup, ProxyInfo, ProxySnapshot, RunMode};
use crate::text::{contains_seq, contains_str, lowercase, str_eq, to_lowercase, trim, trimmed_of};
use crate::ui::tables::{name_set, name_set_contains};

verus! {

/// How quickly a proxy answered its delay test.
#[derive(Clone, Copy, Debug, PartialEq, Eq)]
pub enum DelayTone {
    /// Under 200 ms.
    Fast,
    /// From 200 ms to under 800 ms.
    Moderate,
    /// 800 ms or more.
    Slow,
}

/// What a proxy card shows for its delay.
#[derive(Clone, Copy, Debug, PartialEq, Eq)]
pub enum DelayPresentation {
    Testing,
    Timeout,
    Failed,
    Measured { ms: u32, tone: DelayTone },
    Untested,
}

pub open spec fn tone_of(ms: u32) -> DelayTone {
    if ms < 200 {
        DelayTone::Fast
    } else if ms < 800 {
        DelayTone::Moderate
    } else {
        DelayTone::Slow
    }
}

/// A test in flight comes first, then a failed test (a timeout or another
/// failure), then the measured delay, where zero counts as a timeout.
pub open spec fn presentation(pending: bool, delay: Option<u32>, error: Option<AppError>) -> DelayPresentation {
    if pending {
        DelayPresentation::Testing
    } else if error is Some {
        if error->0.code == ErrorCode::RequestTimeout {
            DelayPresentation::Timeout
        } else {
            DelayPresentation::Failed
        }
    } else {
        match delay {
            Some(ms) => if ms == 0 {
                DelayPresentation::Timeout
            } else {
                DelayPresentation::Measured { ms, tone: tone_of(ms) }
            },
            None => DelayPresentation::Untested,
        }
    }
}

impl DelayPresentation {
    /// The delay shown on a proxy card (see `presentation`).
    pub fn new(pending: bool, delay: Option<u32>, error: Option<&AppError>) -> (r: Self)
        ensures
            r == presentation(pending, delay, match error {
                Some(e) => Some(*e),
                None => None,
            }),
    {
        if pending {
            return DelayPresentation::Testing;
        }
        if let Some(e) = error {
            return match e.code {
                ErrorCode::RequestTimeout => DelayPresentation::Timeout,
                _ => DelayPresentation::Failed,
            };
        }
        match delay {
            Some(ms) => if ms == 0 {
                DelayPresentation::Timeout
            } else {
                let tone = if ms < 200 {
                    DelayTone::Fast
                } else if ms < 800 {
                    DelayTone::Moderate
                } else {
                    DelayTone::Slow
                };
                DelayPresentation::Measured { ms, tone }
            },
            None => DelayPresentation::Untested,
        }
    }
}

#[derive(Clone, Debug, PartialEq, Eq)]
pub enum Row {
    Group(usize),
    Nodes { group: usize, members: Vec<usize> },
}

/// A row with its member indices as a sequence.
pub enum RowView {
    Group(int),
    Nodes(int, Seq<usize>),
}

pub open spec fn row_view(r: Row) -> RowView {
    match r {
        Row::Group(i) => RowView::Group(i as int),
        Row::Nodes { group, members } => RowView::Nodes(group as int, members@),
    }
}

pub open spec fn rows_view(rows: Seq<Row>) -> Seq<RowView> {
    rows.map_values(|r: Row| row_view(r))
}

/// The description of the proxy named `name`: the first entry of that name.
pub open spec fn proxy_info(proxies: Seq<(String, ProxyInfo)>, name: Seq<char>) -> Option<ProxyInfo> {
    if exists|i: int| 0 <= i < proxies.len() && #[trigger] proxies[i].0@ == name {
        let i = choose|i: int|
            0 <= i < proxies.len() && proxies[i].0@ == name && forall|j: int| 0 <= j < i ==> proxies[j].0@ != name;
        Some(proxies[i].1)
    } else {
        None
    }
}

pub open spec fn is_hidden(proxies: Seq<(String, ProxyInfo)>, name: Seq<char>) -> bool {
    proxy_info(proxies, name) matches Some(p) && p.hidden
}

/// A member is shown for query `q` (already trimmed and lower-cased), with
/// names lower-cased by `low`.
pub open spec fn member_matches(
    s: ProxySnapshot,
    q: Seq<char>,
    group_matches: bool,
    name: Seq<char>,
    low: spec_fn(Seq<char>) -> Seq<char>,
) -> bool {
    ||| q.len() == 0
    ||| group_matches
    ||| contains_seq(low(name), q)
    ||| (proxy_info(s.proxies@, name) matches Some(p) && contains_seq(low(p.kind@), q))
}

/// Indices among the first `k` members of `g` that are shown.
pub open spec fn matching_members(
    s: ProxySnapshot,
    q: Seq<char>,
    gm: bool,
    g: ProxyGroup,
    k: nat,
    low: spec_fn(Seq<char>) -> Seq<char>,
) -> Seq<usize>
    decreases k,
{
    if k == 0 {
        seq![]
    } else {
        let rest = matching_members(s, q, gm, g, (k - 1) as nat, low);
        if member_matches(s, q, gm, g.members@[k - 1]@, low) {
            rest.push((k - 1) as usize)
        } else {
            rest
        }
    }
}

/// `members` cut into rows of `width` (the last one may be shorter).
pub open spec fn chunked(members: Seq<usize>, width: nat) -> Seq<Seq<usize>>
    decreases members.len(),
{
    if members.len() == 0 || width == 0 {
        seq![]
    } else if members.len() <= width {
        seq![members]
    } else {
        seq![members.take(width as int)] + chunked(members.skip(width as int), width)
    }
}

pub open spec fn node_rows(group: int, chunks: Seq<Seq<usize>>) -> Seq<RowView> {
    chunks.map_values(|c: Seq<usize>| RowView::Nodes(group, c))
}

/// The rows of group `index`.
pub open spec fn group_rows(
    s: ProxySnapshot,
    mode: Option<RunMode>,
    expanded: Set<Seq<char>>,
    q: Seq<char>,
    collapsed: Set<Seq<char>>,
    width: nat,
    index: int,
    low: spec_fn(Seq<char>) -> Seq<char>,
) -> Seq<RowView> {
    let g = s.groups@[index];
    let global = mode == Some(RunMode::Global);
    if mode == Some(RunMode::Direct) || global != (g.name@ == "GLOBAL"@) {
        seq![]
    } else if !global && is_hidden(s.proxies@, g.name@) {
        seq![]
    } else if !global && q.len() == 0 && !expanded.contains(g.name@) {
        seq![RowView::Group(index)]
    } else {
        let gm = !global && contains_seq(low(g.name@), q);
        let members = matching_members(s, q, gm, g, g.members@.len(), low);
        if q.len() > 0 && members.len() == 0 && !gm {
            seq![]
        } else {
            let header = if global { seq![] } else { seq![RowView::Group(index)] };
            let show = global || (if q.len() == 0 {
                expanded.contains(g.name@)
            } else {
                !collapsed.contains(g.name@)
            });
            header + if show { node_rows(index, chunked(members, width)) } else { seq![] }
        }
    }
}

/// The rows of the first `k` groups.
pub open spec fn rows_upto(
    s: ProxySnapshot,
    mode: Option<RunMode>,
    expanded: Set<Seq<char>>,
    q: Seq<char>,
    collapsed: Set<Seq<char>>,
    width: nat,
    k: nat,
    low: spec_fn(Seq<char>) -> Seq<char>,
) -> Seq<RowView>
    decreases k,
{
    if k == 0 {
        seq![]
    } else {
        rows_upto(s, mode, expanded, q, collapsed, width, (k - 1) as nat, low) + group_rows(
            s,
            mode,
            expanded,
            q,
            collapsed,
            width,
            k - 1,
            low,
        )
    }
}

/// The query as it is matched: trimmed, then lower-cased.
pub open spec fn normalized_query(query: Seq<char>, q: Seq<char>) -> bool {
    exists|t: Seq<char>| trimmed_of(query, t) && q == lowercase(t)
}

fn find_proxy(proxies: &Vec<(String, ProxyInfo)>, name: &str) -> (r: Option<usize>)
    ensures
        match r {
            Some(i) => proxy_info(proxies@, name@) == Some(proxies@[i as int].1) && i < proxies@.len(),
            None => proxy_info(proxies@, name@) is None,
        },
{
    let mut i: usize = 0;
    while i < proxies.len()
        invariant
            i <= proxies@.len(),
            forall|j: int| 0 <= j < i ==> proxies@[j].0@ != name@,
        decreases proxies.len() - i,
    {
        if str_eq(proxies[i].0.as_str(), name) {
            let ghost c = choose|c: int|
                0 <= c < proxies@.len() && proxies@[c].0@ == name@ && forall|j: int|
                    0 <= j < c ==> proxies@[j].0@ != name@;
            assert(0 <= i < proxies@.len() && proxies@[i as int].0@ == name@ && forall|j: int|
                0 <= j < i ==> proxies@[j].0@ != name@);
            assert(c == i) by {
                if c < i {
                    assert(proxies@[c].0@ != name@);
                } else if c > i {
                    assert(proxies@[i as int].0@ != name@);
                }
            }
            return Some(i);
        }
        i = i + 1;
    }
    None
}

fn hidden(proxies: &Vec<(String, ProxyInfo)>, name: &str) -> (r: bool)
    ensures
        r == is_hidden(proxies@, name@),
{
    match find_proxy(proxies, name) {
        Some(i) => proxies[i].1.hidden,
        None => false,
    }
}

/// A table that maps names to their lower-case forms. `lower_of` reads it:
/// the value of the first entry for `name`, or `name` itself where none is.
pub open spec fn lower_of(table: Seq<(String, String)>, name: Seq<char>) -> Seq<char> {
    if exists|i: int| 0 <= i < table.len() && #[trigger] table[i].0@ == name {
        let i = choose|i: int|
            0 <= i < table.len() && table[i].0@ == name && forall|j: int| 0 <= j < i ==> table[j].0@ != name;
        table[i].1@
    } else {
        name
    }
}

/// The lower-casing that a table of names stands for.
pub open spec fn by_table(table: Seq<(String, String)>) -> spec_fn(Seq<char>) -> Seq<char> {
    |n: Seq<char>| lower_of(table, n)
}

/// Unicode lower-casing (`str::to_lowercase`).
pub open spec fn by_lowercase() -> spec_fn(Seq<char>) -> Seq<char> {
    |n: Seq<char>| lowercase(n)
}

pub open spec fn has_key(table: Seq<(String, String)>, name: Seq<char>) -> bool {
    exists|i: int| 0 <= i < table.len() && #[trigger] table[i].0@ == name
}

/// Every entry maps its name to the name's Unicode lower-case form.
pub open spec fn faithful(table: Seq<(String, String)>) -> bool {
    forall|i: int| 0 <= i < table.len() ==> (#[trigger] table[i]).1@ == lowercase(table[i].0@)
}

/// The table holds every group name, member name and proxy kind of `s`.
pub open spec fn covers(s: ProxySnapshot, table: Seq<(String, String)>) -> bool {
    &&& forall|g: int| 0 <= g < s.groups@.len() ==> has_key(table, #[trigger] s.groups@[g].name@)
    &&& forall|g: int, m: int|
        0 <= g < s.groups@.len() && 0 <= m < s.groups@[g].members@.len() ==> has_key(
            table,
            #[trigger] s.groups@[g].members@[m]@,
        )
    &&& forall|j: int| 0 <= j < s.proxies@.len() ==> has_key(table, #[trigger] s.proxies@[j].1.kind@)
}

/// An entry keyed `name` at `i` means that a first such entry exists.
proof fn lemma_first_key<X>(t: Seq<(String, X)>, name: Seq<char>, i: int)
    requires
        0 <= i < t.len(),
        t[i].0@ == name,
    ensures
        exists|c: int| 0 <= c < t.len() && t[c].0@ == name && forall|j: int| 0 <= j < c ==> t[j].0@ != name,
    decreases i,
{
    if exists|j: int| 0 <= j < i && t[j].0@ == name {
        let j = choose|j: int| 0 <= j < i && t[j].0@ == name;
        lemma_first_key(t, name, j);
    } else {
        assert(0 <= i < t.len() && t[i].0@ == name && forall|j: int| 0 <= j < i ==> t[j].0@ != name);
    }
}

/// The description found by name is the description of one of the proxies.
proof fn lemma_proxy_info_entry(proxies: Seq<(String, ProxyInfo)>, name: Seq<char>)
    ensures
        proxy_info(proxies, name) matches Some(p) ==> exists|j: int| 0 <= j < proxies.len() && proxies[j].1 == p,
{
    if exists|i: int| 0 <= i < proxies.len() && #[trigger] proxies[i].0@ == name {
        let i = choose|i: int| 0 <= i < proxies.len() && #[trigger] proxies[i].0@ == name;
        lemma_first_key(proxies, name, i);
    }
}

/// A faithful table lower-cases each name that it holds as `lowercase` does.
proof fn lemma_lower_of_key(t: Seq<(String, String)>, name: Seq<char>)
    requires
        faithful(t),
        has_key(t, name),
    ensures
        lower_of(t, name) == lowercase(name),
{
    let i = choose|i: int| 0 <= i < t.len() && #[trigger] t[i].0@ == name;
    lemma_first_key(t, name, i);
    let c = choose|c: int| 0 <= c < t.len() && t[c].0@ == name && forall|j: int| 0 <= j < c ==> t[j].0@ != name;
    assert(t[c].1@ == lowercase(t[c].0@));
}

fn find_entry(table: &Vec<(String, String)>, name: &str) -> (r: Option<usize>)
    ensures
        match r {
            Some(i) => i < table@.len() && lower_of(table@, name@) == table@[i as int].1@,
            None => lower_of(table@, name@) == name@,
        },
{
    let mut i: usize = 0;
    while i < table.len()
        invariant
            i <= table@.len(),
            forall|j: int| 0 <= j < i ==> table@[j].0@ != name@,
        decreases table.len() - i,
    {
        if str_eq(table[i].0.as_str(), name) {
            let ghost c = choose|c: int|
                0 <= c < table@.len() && table@[c].0@ == name@ && forall|j: int|
                    0 <= j < c ==> table@[j].0@ != name@;
            assert(0 <= i < table@.len() && table@[i as int].0@ == name@ && forall|j: int|
                0 <= j < i ==> table@[j].0@ != name@);
            assert(c == i) by {
                if c < i {
                    assert(table@[c].0@ != name@);
                } else if c > i {
                    assert(table@[i as int].0@ != name@);
                }
            }
            return Some(i);
        }
        i = i + 1;
    }
    None
}

/// `name` as the table lower-cases it.
fn lowered<'a>(table: &'a Vec<(String, String)>, name: &'a str) -> (r: &'a str)
    ensures
        r@ == lower_of(table@, name@),
{
    match find_entry(table, name) {
        Some(i) => table[i].1.as_str(),
        None => name,
    }
}

fn matches_member(
    s: &ProxySnapshot,
    q: &str,
    group_matches: bool,
    name: &str,
    names: &Vec<(String, String)>,
) -> (r: bool)
    ensures
        r == member_matches(*s, q@, group_matches, name@, by_table(names@)),
{
    if q.unicode_len() == 0 || group_matches {
        return true;
    }
    if contains_str(lowered(names, name), q) {
        return true;
    }
    match find_proxy(&s.proxies, name) {
        Some(i) => contains_str(lowered(names, s.proxies[i].1.kind.as_str()), q),
        None => false,
    }
}

fn members_of(s: &ProxySnapshot, q: &str, gm: bool, g: &ProxyGroup, names: &Vec<(String, String)>) -> (r: Vec<usize>)
    ensures
        r@ == matching_members(*s, q@, gm, *g, g.members@.len(), by_table(names@)),
{
    let mut out: Vec<usize> = Vec::new();
    let mut k: usize = 0;
    while k < g.members.len()
        invariant
            k <= g.members@.len(),
            out@ == matching_members(*s, q@, gm, *g, k as nat, by_table(names@)),
        decreases g.members.len() - k,
    {
        if matches_member(s, q, gm, g.members[k].as_str(), names) {
            out.push(k);
        }
        k = k + 1;
    }
    out
}

fn push_chunks(rows: &mut Vec<Row>, group: usize, members: &Vec<usize>, width: usize)
    requires
        width > 0,
    ensures
        rows_view(final(rows)@) == rows_view(old(rows)@) + node_rows(group as int, chunked(members@, width as nat)),
{
    let n = members.len();
    let mut start: usize = 0;
    let ghost base = rows_view(old(rows)@);
    assert(members@.skip(0) =~= members@);
    while start < n
        invariant
            n == members@.len(),
            start <= n,
            width > 0,
            rows_view(rows@) + node_rows(group as int, chunked(members@.skip(start as int), width as nat))
                == base + node_rows(group as int, chunked(members@, width as nat)),
        decreases n - start,
    {
        let end = if n - start <= width { n } else { start + width };
        let mut chunk: Vec<usize> = Vec::new();
        let mut i: usize = start;
        while i < end
            invariant
                start <= i <= end <= n,
                n == members@.len(),
                chunk@ == members@.subrange(start as int, i as int),
            decreases end - i,
        {
            chunk.push(members[i]);
            i = i + 1;
            assert(chunk@ =~= members@.subrange(start as int, i as int));
        }
        let ghost rest = members@.skip(start as int);
        let ghost before = rows@;
        rows.push(Row::Nodes { group, members: chunk });
        proof {
            assert(rest.len() > 0);
            if rest.len() <= width {
                assert(chunked(rest, width as nat) == seq![rest]);
                assert(chunk@ =~= rest);
                assert(members@.skip(end as int) =~= seq![]);
                assert(chunked(members@.skip(end as int), width as nat) == Seq::<Seq<usize>>::empty());
            } else {
                assert(chunk@ =~= rest.take(width as int));
                assert(rest.skip(width as int) =~= members@.skip(end as int));
            }
            assert(rows_view(rows@) =~= rows_view(before).push(RowView::Nodes(group as int, chunk@)));
            assert(node_rows(group as int, chunked(rest, width as nat)) =~= seq![RowView::Nodes(group as int, chunk@)]
                + node_rows(group as int, chunked(members@.skip(end as int), width as nat)));
            assert(rows_view(rows@) + node_rows(group as int, chunked(members@.skip(end as int), width as nat))
                =~= rows_view(before) + node_rows(group as int, chunked(rest, width as nat)));
        }
        start = end;
    }
    assert(members@.skip(n as int) =~= seq![]);
    assert(chunked(members@.skip(n as int), width as nat) == Seq::<Seq<usize>>::empty());
    assert(node_rows(group as int, Seq::<Seq<usize>>::empty()) =~= seq![]);
}

/// The visible rows for a query that is already trimmed and lower-cased,
/// with the lower-case form of each name read from `names` (see
/// `lower_of`): group headers and, for shown groups, their matching members
/// cut into rows of `columns` (at least one).
pub fn rows_lowered(
    snapshot: &ProxySnapshot,
    mode: Option<RunMode>,
    expanded: &Vec<String>,
    query: &str,
    filter_collapsed: &Vec<String>,
    columns: usize,
    names: &Vec<(String, String)>,
) -> (r: Vec<Row>)
    ensures
        rows_view(r@) == rows_upto(
            *snapshot,
            mode,
            name_set(expanded@),
            query@,
            name_set(filter_collapsed@),
            if columns == 0 { 1 } else { columns as nat },
            snapshot.groups@.len(),
            by_table(names@),
        ),
{
    let width: usize = if columns == 0 { 1 } else { columns };
    let global = match mode {
        Some(RunMode::Global) => true,
        _ => false,
    };
    let direct = match mode {
        Some(RunMode::Direct) => true,
        _ => false,
    };
    let ghost low = by_table(names@);
    let mut out: Vec<Row> = Vec::new();
    let mut index: usize = 0;
    while index < snapshot.groups.len()
        invariant
            index <= snapshot.groups@.len(),
            width == (if columns == 0 { 1 } else { columns }),
            global == (mode == Some(RunMode::Global)),
            direct == (mode == Some(RunMode::Direct)),
            low == by_table(names@),
            rows_view(out@) == rows_upto(
                *snapshot,
                mode,
                name_set(expanded@),
                query@,
                name_set(filter_collapsed@),
                width as nat,
                index as nat,
                low,
            ),
        decreases snapshot.groups.len() - index,
    {
        let ghost before = rows_view(out@);
        let group = &snapshot.groups[index];
        let is_global_group = str_eq(group.name.as_str(), "GLOBAL");
        let ghost expected = group_rows(
            *snapshot,
            mode,
            name_set(expanded@),
            query@,
            name_set(filter_collapsed@),
            width as nat,
            index as int,
            low,
        );
        if direct || global != is_global_group {
            assert(expected =~= seq![]);
        } else if !global && hidden(&snapshot.proxies, group.name.as_str()) {
            assert(expected =~= seq![]);
        } else if !global && query.unicode_len() == 0 && !name_set_contains(expanded, group.name.as_str()) {
            out.push(Row::Group(index));
            assert(rows_view(out@) =~= before.push(RowView::Group(index as int)));
            assert(expected =~= seq![RowView::Group(index as int)]);
        } else {
            let lower_name = lowered(names, group.name.as_str());
            assert(lower_name@ == low(group.name@));
            let group_matches = !global && contains_str(lower_name, query);
            let members = members_of(snapshot, query, group_matches, group, names);
            if query.unicode_len() > 0 && members.len() == 0 && !group_matches {
                assert(expected =~= seq![]);
            } else {
                if !global {
                    out.push(Row::Group(index));
                }
                let ghost mid = rows_view(out@);
                let ghost header: Seq<RowView> = if global { seq![] } else { seq![RowView::Group(index as int)] };
                assert(mid =~= before + header);
                let show = global || (if query.unicode_len() == 0 {
                    name_set_contains(expanded, group.name.as_str())
                } else {
                    !name_set_contains(filter_collapsed, group.name.as_str())
                });
                if show {
                    push_chunks(&mut out, index, &members, width);
                    assert(rows_view(out@) =~= before + expected);
                } else {
                    assert(rows_view(out@) =~= before + expected);
                }
            }
        }
        assert(rows_view(out@) =~= before + expected);
        index = index + 1;
    }
    out
}

/// Adds `name` with its lower-case form.
fn push_lowered(t: &mut Vec<(String, String)>, name: &str)
    requires
        faithful(old(t)@),
    ensures
        faithful(final(t)@),
        has_key(final(t)@, name@),
        forall|n: Seq<char>| has_key(old(t)@, n) ==> #[trigger] has_key(final(t)@, n),
{
    let ghost before = t@;
    t.push((String::from_str(name), to_lowercase(name)));
    proof {
        assert(t@[before.len() as int].0@ == name@);
        assert forall|n: Seq<char>| has_key(before, n) implies #[trigger] has_key(t@, n) by {
            let i = choose|i: int| 0 <= i < before.len() && #[trigger] before[i].0@ == n;
            assert(t@[i] == before[i]);
        }
    }
}

/// Every group name, member name and proxy kind of `s`, lower-cased.
fn lowered_names(s: &ProxySnapshot) -> (t: Vec<(String, String)>)
    ensures
        faithful(t@),
        covers(*s, t@),
{
    let mut t: Vec<(String, String)> = Vec::new();
    let mut g: usize = 0;
    while g < s.groups.len()
        invariant
            g <= s.groups@.len(),
            faithful(t@),
            forall|a: int| 0 <= a < g ==> has_key(t@, #[trigger] s.groups@[a].name@),
            forall|a: int, m: int|
                0 <= a < g && 0 <= m < s.groups@[a].members@.len() ==> has_key(t@, #[trigger] s.groups@[a].members@[m]@),
        decreases s.groups.len() - g,
    {
        let group = &s.groups[g];
        push_lowered(&mut t, group.name.as_str());
        let mut m: usize = 0;
        while m < group.members.len()
            invariant
                g < s.groups@.len(),
                *group == s.groups@[g as int],
                m <= group.members@.len(),
                faithful(t@),
                has_key(t@, group.name@),
                forall|a: int| 0 <= a < g ==> has_key(t@, #[trigger] s.groups@[a].name@),
                forall|a: int, k: int|
                    0 <= a < g && 0 <= k < s.groups@[a].members@.len() ==> has_key(t@, #[trigger] s.groups@[a].members@[k]@),
                forall|k: int| 0 <= k < m ==> has_key(t@, #[trigger] group.members@[k]@),
            decreases group.members.len() - m,
        {
            push_lowered(&mut t, group.members[m].as_str());
            m = m + 1;
        }
        g = g + 1;
    }
    let mut j: usize = 0;
    while j < s.proxies.len()
        invariant
            j <= s.proxies@.len(),
            faithful(t@),
            forall|a: int| 0 <= a < s.groups@.len() ==> has_key(t@, #[trigger] s.groups@[a].name@),
            forall|a: int, m: int|
                0 <= a < s.groups@.len() && 0 <= m < s.groups@[a].members@.len() ==> has_key(
                    t@,
                    #[trigger] s.groups@[a].members@[m]@,
                ),
            forall|k: int| 0 <= k < j ==> has_key(t@, #[trigger] s.proxies@[k].1.kind@),
        decreases s.proxies.len() - j,
    {
        push_lowered(&mut t, s.proxies[j].1.kind.as_str());
        j = j + 1;
    }
    t
}

/// The visible rows: group headers and, for shown groups, their matching
/// members cut into rows of `columns` (at least one). The query is trimmed
/// and lower-cased, and names and kinds are lower-cased, before matching.
pub fn rows(
    snapshot: &ProxySnapshot,
    mode: Option<RunMode>,
    expanded: &Vec<String>,
    query: &str,
    filter_collapsed: &Vec<String>,
    columns: usize,
) -> (r: Vec<Row>)
    ensures
        exists|q: Seq<char>| normalized_query(query@, q) && rows_view(r@) == rows_upto(
            *snapshot,
            mode,
            name_set(expanded@),
            q,
            name_set(filter_collapsed@),
            if columns == 0 { 1 } else { columns as nat },
            snapshot.groups@.len(),
            by_lowercase(),
        ),
{
    let trimmed = trim(query);
    let q = to_lowercase(trimmed.as_str());
    assert(normalized_query(query@, q@));
    let names = lowered_names(snapshot);
    let r = rows_lowered(snapshot, mode, expanded, q.as_str(), filter_collapsed, columns, &names);
    proof {
        lemma_table_agrees(*snapshot, names@);
        lemma_rows_congruent(
            *snapshot,
            mode,
            name_set(expanded@),
            q@,
            name_set(filter_collapsed@),
            if columns == 0 { 1 } else { columns as nat },
            snapshot.groups@.len(),
            by_table(names@),
            by_lowercase(),
        );
    }
    r
}

/// `low1` and `low2` agree on every name that the listing lower-cases:
/// group names, member names and proxy kinds.
pub open spec fn lows_agree(
    s: ProxySnapshot,
    low1: spec_fn(Seq<char>) -> Seq<char>,
    low2: spec_fn(Seq<char>) -> Seq<char>,
) -> bool {
    &&& forall|g: int| 0 <= g < s.groups@.len() ==> low1(#[trigger] s.groups@[g].name@) == low2(s.groups@[g].name@)
    &&& forall|g: int, m: int|
        0 <= g < s.groups@.len() && 0 <= m < s.groups@[g].members@.len() ==> low1(
            #[trigger] s.groups@[g].members@[m]@,
        ) == low2(s.groups@[g].members@[m]@)
    &&& forall|j: int| 0 <= j < s.proxies@.len() ==> low1(#[trigger] s.proxies@[j].1.kind@) == low2(s.proxies@[j].1.kind@)
}

proof fn lemma_table_agrees(s: ProxySnapshot, t: Seq<(String, String)>)
    requires
        faithful(t),
        covers(s, t),
    ensures
        lows_agree(s, by_table(t), by_lowercase()),
{
    assert forall|g: int| 0 <= g < s.groups@.len() implies by_table(t)(#[trigger] s.groups@[g].name@) == by_lowercase()(
        s.groups@[g].name@,
    ) by {
        lemma_lower_of_key(t, s.groups@[g].name@);
    }
    assert forall|g: int, m: int| 0 <= g < s.groups@.len() && 0 <= m < s.groups@[g].members@.len() implies by_table(t)(
        #[trigger] s.groups@[g].members@[m]@,
    ) == by_lowercase()(s.groups@[g].members@[m]@) by {
        lemma_lower_of_key(t, s.groups@[g].members@[m]@);
    }
    assert forall|j: int| 0 <= j < s.proxies@.len() implies by_table(t)(#[trigger] s.proxies@[j].1.kind@)
        == by_lowercase()(s.proxies@[j].1.kind@) by {
        lemma_lower_of_key(t, s.proxies@[j].1.kind@);
    }
}

proof fn lemma_matching_congruent(
    s: ProxySnapshot,
    q: Seq<char>,
    gm: bool,
    gi: int,
    k: nat,
    low1: spec_fn(Seq<char>) -> Seq<char>,
    low2: spec_fn(Seq<char>) -> Seq<char>,
)
    requires
        lows_agree(s, low1, low2),
        0 <= gi < s.groups@.len(),
        k <= s.groups@[gi].members@.len(),
    ensures
        matching_members(s, q, gm, s.groups@[gi], k, low1) == matching_members(s, q, gm, s.groups@[gi], k, low2),
    decreases k,
{
    if k > 0 {
        let g = s.groups@[gi];
        lemma_matching_congruent(s, q, gm, gi, (k - 1) as nat, low1, low2);
        let name = g.members@[k - 1]@;
        assert(low1(s.groups@[gi].members@[k - 1]@) == low2(s.groups@[gi].members@[k - 1]@));
        lemma_proxy_info_entry(s.proxies@, name);
        if let Some(p) = proxy_info(s.proxies@, name) {
            let j = choose|j: int| 0 <= j < s.proxies@.len() && s.proxies@[j].1 == p;
            assert(low1(s.proxies@[j].1.kind@) == low2(s.proxies@[j].1.kind@));
        }
        assert(member_matches(s, q, gm, name, low1) == member_matches(s, q, gm, name, low2));
    }
}

/// The listing depends on the lower-casing only through the names it lower-cases.
proof fn lemma_rows_congruent(
    s: ProxySnapshot,
    mode: Option<RunMode>,
    expanded: Set<Seq<char>>,
    q: Seq<char>,
    collapsed: Set<Seq<char>>,
    width: nat,
    k: nat,
    low1: spec_fn(Seq<char>) -> Seq<char>,
    low2: spec_fn(Seq<char>) -> Seq<char>,
)
    requires
        lows_agree(s, low1, low2),
        k <= s.groups@.len(),
    ensures
        rows_upto(s, mode, expanded, q, collapsed, width, k, low1) == rows_upto(
            s,
            mode,
            expanded,
            q,
            collapsed,
            width,
            k,
            low2,
        ),
    decreases k,
{
    if k > 0 {
        lemma_rows_congruent(s, mode, expanded, q, collapsed, width, (k - 1) as nat, low1, low2);
        let index = k - 1;
        let g = s.groups@[index];
        assert(low1(s.groups@[index].name@) == low2(s.groups@[index].name@));
        let global = mode == Some(RunMode::Global);
        let gm = !global && contains_seq(low1(g.name@), q);
        lemma_matching_congruent(s, q, gm, index, g.members@.len(), low1, low2);
        assert(group_rows(s, mode, expanded, q, collapsed, width, index, low1) == group_rows(
            s,
            mode,
            expanded,
            q,
            collapsed,
            width,
            index,
            low2,
        ));
    }
}

/// The first row of group `group` that holds its selected member.
pub open spec fn row_holds_selected(s: ProxySnapshot, r: RowView, group: int, selected: Seq<char>) -> bool {
    r matches RowView::Nodes(g, members) && g == group && exists|k: int|
        0 <= k < members.len() && s.groups@[group].members@[members[k] as int]@ == selected
}

/// Member indices of the node rows of `group` are members of that group.
pub open spec fn rows_in_range(s: ProxySnapshot, rows: Seq<Row>, group: int) -> bool {
    forall|i: int| 0 <= i < rows.len() ==> row_in_range(s, #[trigger] rows_view(rows)[i], group)
}

pub open spec fn row_in_range(s: ProxySnapshot, r: RowView, group: int) -> bool {
    r matches RowView::Nodes(g, members) ==> (g == group ==> forall|k: int|
        0 <= k < members.len() ==> (members[k] as int) < s.groups@[group].members@.len())
}

/// The row to scroll to when locating a group's selected proxy.
#[verifier::loop_isolation(false)]
pub fn selected_row(snapshot: &ProxySnapshot, rows: &Vec<Row>, group: usize) -> (r: Option<usize>)
    requires
        group < snapshot.groups@.len() ==> rows_in_range(*snapshot, rows@, group as int),
    ensures
        match r {
            None => group >= snapshot.groups@.len() || snapshot.groups@[group as int].selected is None
                || forall|i: int| 0 <= i < rows@.len() ==> !row_holds_selected(
                    *snapshot,
                    rows_view(rows@)[i],
                    group as int,
                    snapshot.groups@[group as int].selected.unwrap()@,
                ),
            Some(i) => group < snapshot.groups@.len() && snapshot.groups@[group as int].selected is Some
                && i < rows@.len() && row_holds_selected(
                *snapshot,
                rows_view(rows@)[i as int],
                group as int,
                snapshot.groups@[group as int].selected.unwrap()@,
            ) && forall|j: int| 0 <= j < i ==> !row_holds_selected(
                *snapshot,
                rows_view(rows@)[j],
                group as int,
                snapshot.groups@[group as int].selected.unwrap()@,
            ),
        },
{
    if group >= snapshot.groups.len() {
        return None;
    }
    let g = &snapshot.groups[group];
    let selected = match &g.selected {
        Some(s) => s,
        None => {
            return None;
        },
    };
    let mut i: usize = 0;
    while i < rows.len()
        invariant
            i <= rows@.len(),
            group < snapshot.groups@.len(),
            *g == snapshot.groups@[group as int],
            g.selected == Some(*selected),
            rows_in_range(*snapshot, rows@, group as int),
            forall|j: int| 0 <= j < i ==> !row_holds_selected(*snapshot, rows_view(rows@)[j], group as int, selected@),
        decreases rows.len() - i,
    {
        assert(rows_view(rows@)[i as int] == row_view(rows@[i as int]));
        assert(row_in_range(*snapshot, rows_view(rows@)[i as int], group as int));
        match &rows[i] {
            Row::Nodes { group: index, members } => {
                if *index == group {
                    assert(rows_view(rows@)[i as int] == RowView::Nodes(group as int, members@));
                    assert forall|m: int| 0 <= m < members@.len() implies (members@[m] as int) < g.members@.len() by {
                        let r = RowView::Nodes(group as int, members@);
                        assert(row_in_range(*snapshot, r, group as int));
                        assert(r matches RowView::Nodes(g2, m2) && g2 == group && m2 == members@);
                    }
                    let mut k: usize = 0;
                    while k < members.len()
                        invariant
                            k <= members@.len(),
                            *g == snapshot.groups@[group as int],
                            forall|m: int| 0 <= m < members@.len() ==> (members@[m] as int) < g.members@.len(),
                            forall|m: int| 0 <= m < k ==> g.members@[members@[m] as int]@ != selected@,
                        decreases members.len() - k,
                    {
                        if str_eq(g.members[members[k]].as_str(), selected.as_str()) {
                            assert(row_holds_selected(*snapshot, rows_view(rows@)[i as int], group as int, selected@));
                            return Some(i);
                        }
                        k = k + 1;
                    }
                }
            },
            Row::Group(_) => {},
        }
        i = i + 1;
    }
    None
}

} // verus!

verus! {

/// In direct mode no group is listed.
pub proof fn law_direct_mode_lists_nothing(
    s: ProxySnapshot,
    expanded: Set<Seq<char>>,
    q: Seq<char>,
    collapsed: Set<Seq<char>>,
    width: nat,
    k: nat,
    low: spec_fn(Seq<char>) -> Seq<char>,
)
    ensures
        rows_upto(s, Some(RunMode::Direct), expanded, q, collapsed, width, k, low) == Seq::<RowView>::empty(),
    decreases k,
{
    if k > 0 {
        law_direct_mode_lists_nothing(s, expanded, q, collapsed, width, (k - 1) as nat, low);
        assert(group_rows(s, Some(RunMode::Direct), expanded, q, collapsed, width, k - 1, low) =~= Seq::<RowView>::empty());
        assert(rows_upto(s, Some(RunMode::Direct), expanded, q, collapsed, width, k, low) =~= Seq::<RowView>::empty());
    }
}

pub open spec fn row_group(r: RowView) -> int {
    match r {
        RowView::Group(g) => g,
        RowView::Nodes(g, _) => g,
    }
}

pub open spec fn chunk_sizes_ok(chunks: Seq<Seq<usize>>, width: nat) -> bool {
    forall|i: int| 0 <= i < chunks.len() ==> 0 < (#[trigger] chunks[i]).len() <= width
}

proof fn lemma_chunk_sizes(members: Seq<usize>, width: nat)
    ensures
        chunk_sizes_ok(chunked(members, width), width),
    decreases members.len(),
{
    if members.len() == 0 || width == 0 {
    } else if members.len() <= width {
    } else {
        lemma_chunk_sizes(members.skip(width as int), width);
        let rest = chunked(members.skip(width as int), width);
        let all = seq![members.take(width as int)] + rest;
        assert forall|i: int| 0 <= i < all.len() implies 0 < (#[trigger] all[i]).len() <= width by {
            if i > 0 {
                assert(all[i] == rest[i - 1]);
            }
        }
    }
}

/// The shape of a listed row: a header, or a row of one group's nodes
/// holding between one and `width` of them.
pub open spec fn row_shape_ok(r: RowView, width: nat) -> bool {
    match r {
        RowView::Group(_) => true,
        RowView::Nodes(_, members) => 0 < members.len() <= width,
    }
}

pub open spec fn rows_shape_ok(rows: Seq<RowView>, width: nat) -> bool {
    forall|i: int| 0 <= i < rows.len() ==> row_shape_ok(#[trigger] rows[i], width)
}

proof fn lemma_node_rows_shape(group: int, chunks: Seq<Seq<usize>>, width: nat)
    requires
        chunk_sizes_ok(chunks, width),
    ensures
        rows_shape_ok(node_rows(group, chunks), width),
{
    let rows = node_rows(group, chunks);
    assert forall|i: int| 0 <= i < rows.len() implies row_shape_ok(#[trigger] rows[i], width) by {
        assert(rows[i] == RowView::Nodes(group, chunks[i]));
        assert(0 < chunks[i].len() <= width);
    }
}

proof fn lemma_concat_shape(a: Seq<RowView>, b: Seq<RowView>, width: nat)
    requires
        rows_shape_ok(a, width),
        rows_shape_ok(b, width),
    ensures
        rows_shape_ok(a + b, width),
{
    assert forall|i: int| 0 <= i < (a + b).len() implies row_shape_ok(#[trigger] (a + b)[i], width) by {
        if i < a.len() {
            assert((a + b)[i] == a[i]);
        } else {
            assert((a + b)[i] == b[i - a.len()]);
        }
    }
}

/// Every node row holds at least one node and no more than the column count.
pub proof fn law_node_rows_fit_columns(
    s: ProxySnapshot,
    mode: Option<RunMode>,
    expanded: Set<Seq<char>>,
    q: Seq<char>,
    collapsed: Set<Seq<char>>,
    width: nat,
    k: nat,
    low: spec_fn(Seq<char>) -> Seq<char>,
)
    ensures
        rows_shape_ok(rows_upto(s, mode, expanded, q, collapsed, width, k, low), width),
    decreases k,
{
    if k > 0 {
        law_node_rows_fit_columns(s, mode, expanded, q, collapsed, width, (k - 1) as nat, low);
        let index = k - 1;
        let g = s.groups@[index];
        let global = mode == Some(RunMode::Global);
        let gm = !global && contains_seq(low(g.name@), q);
        let members = matching_members(s, q, gm, g, g.members@.len(), low);
        lemma_chunk_sizes(members, width);
        lemma_node_rows_shape(index, chunked(members, width), width);
        let header: Seq<RowView> = if global { seq![] } else { seq![RowView::Group(index)] };
        assert(rows_shape_ok(header, width));
        assert(rows_shape_ok(Seq::<RowView>::empty(), width));
        assert(rows_shape_ok(seq![RowView::Group(index)], width));
        lemma_concat_shape(header, node_rows(index, chunked(members, width)), width);
        lemma_concat_shape(header, Seq::<RowView>::empty(), width);
        let g_rows = group_rows(s, mode, expanded, q, collapsed, width, index, low);
        assert(rows_shape_ok(g_rows, width));
        lemma_concat_shape(rows_upto(s, mode, expanded, q, collapsed, width, (k - 1) as nat, low), g_rows, width);
    }
}

/// In global mode only the `GLOBAL` group is listed, as node rows without a header.
pub proof fn law_global_mode_is_flat(
    s: ProxySnapshot,
    expanded: Set<Seq<char>>,
    q: Seq<char>,
    collapsed: Set<Seq<char>>,
    width: nat,
    k: nat,
    low: spec_fn(Seq<char>) -> Seq<char>,
)
    ensures
        forall|i: int| 0 <= i < rows_upto(s, Some(RunMode::Global), expanded, q, collapsed, width, k, low).len() ==> {
            let r = #[trigger] rows_upto(s, Some(RunMode::Global), expanded, q, collapsed, width, k, low)[i];
            r is Nodes && s.groups@[row_group(r)].name@ == "GLOBAL"@
        },
    decreases k,
{
    if k > 0 {
        law_global_mode_is_flat(s, expanded, q, collapsed, width, (k - 1) as nat, low);
        let index = k - 1;
        let prev = rows_upto(s, Some(RunMode::Global), expanded, q, collapsed, width, (k - 1) as nat, low);
        let g_rows = group_rows(s, Some(RunMode::Global), expanded, q, collapsed, width, index, low);
        let all = rows_upto(s, Some(RunMode::Global), expanded, q, collapsed, width, k, low);
        assert(all == prev + g_rows);
        assert forall|i: int| 0 <= i < g_rows.len() implies (#[trigger] g_rows[i]) is Nodes && s.groups@[row_group(g_rows[i])].name@
            == "GLOBAL"@ by {
            let g = s.groups@[index];
            let members = matching_members(s, q, false, g, g.members@.len(), low);
            let chunks = chunked(members, width);
            if s.groups@[index].name@ == "GLOBAL"@ && !(q.len() > 0 && members.len() == 0) {
                assert(g_rows =~= Seq::<RowView>::empty() + node_rows(index, chunks));
                assert(g_rows[i] == RowView::Nodes(index, chunks[i]));
            }
        }
        assert forall|i: int| 0 <= i < all.len() implies (#[trigger] all[i]) is Nodes && s.groups@[row_group(all[i])].name@
            == "GLOBAL"@ by {
            if i < prev.len() {
                assert(all[i] == prev[i]);
            } else {
                assert(all[i] == g_rows[i - prev.len()]);
            }
        }
    }
}

} // verus!
