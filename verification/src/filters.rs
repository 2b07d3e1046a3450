//! Local display filters for the rules, connections and logs pages. A
//! filter only decides which rows are shown; it changes no data.
use vstd::prelude::*;

use crate::digest::{ascii_lower, to_ascii_lower};
use crate::domain::{Connection, LogEvent, ProviderSummary, RuleEntry, strings_view};
use crate::text::{
    all_whitespace, char_at, char_string, contains_seq, contains_str, is_blank, is_whitespace, join_with, joined,
    lowercase, str_eq, substring, to_lowercase, char_is_whitespace,
};
use crate::ui::Page;

verus! {

/// The words of the rest `s` of a text after the partial word `cur`, as
/// `str::split_whitespace` yields them.
pub open spec fn words_after(s: Seq<char>, cur: Seq<char>) -> Seq<Seq<char>>
    decreases s.len(),
{
    if s.len() == 0 {
        if cur.len() > 0 { seq![cur] } else { seq![] }
    } else if is_whitespace(s[0]) {
        (if cur.len() > 0 { seq![cur] } else { seq![] }) + words_after(s.drop_first(), seq![])
    } else {
        words_after(s.drop_first(), cur.push(s[0]))
    }
}

pub open spec fn words(s: Seq<char>) -> Seq<Seq<char>> {
    words_after(s, seq![])
}

/// The words of a text.
pub fn split_words(text: &str) -> (r: Vec<String>)
    ensures
        strings_view(r@) == words(text@),
{
    let n = text.unicode_len();
    let mut out: Vec<String> = Vec::new();
    let mut start: usize = 0;
    let mut i: usize = 0;
    assert(text@.skip(0) =~= text@);
    assert(text@.subrange(0, 0) =~= Seq::<char>::empty());
    assert(strings_view(out@) =~= Seq::<Seq<char>>::empty());
    while i < n
        invariant
            n == text@.len(),
            start <= i <= n,
            strings_view(out@) + words_after(text@.skip(i as int), text@.subrange(start as int, i as int)) == words(
                text@,
            ),
        decreases n - i,
    {
        let ghost rest = text@.skip(i as int);
        let ghost cur = text@.subrange(start as int, i as int);
        assert(rest.drop_first() =~= text@.skip(i + 1));
        if char_is_whitespace(char_at(text, i)) {
            let ghost before = strings_view(out@);
            let ghost head: Seq<Seq<char>> = if cur.len() > 0 { seq![cur] } else { seq![] };
            if i > start {
                out.push(substring(text, start, i));
                assert(strings_view(out@) =~= before + head);
            } else {
                assert(strings_view(out@) =~= before + head);
            }
            assert(text@.subrange(i + 1, i + 1) =~= Seq::<char>::empty());
            assert(strings_view(out@) + words_after(text@.skip(i + 1), text@.subrange(i + 1, i + 1)) =~= before
                + words_after(rest, cur));
            start = i + 1;
        } else {
            assert(cur.push(text@[i as int]) =~= text@.subrange(start as int, i + 1));
        }
        i = i + 1;
    }
    let ghost cur = text@.subrange(start as int, n as int);
    assert(text@.skip(n as int) =~= Seq::<char>::empty());
    if start < n {
        let ghost before = strings_view(out@);
        out.push(substring(text, start, n));
        assert(strings_view(out@) =~= before.push(cur));
    } else {
        assert(cur =~= Seq::<char>::empty());
        assert(strings_view(out@) + Seq::<Seq<char>>::empty() =~= strings_view(out@));
    }
    out
}

/// Some field holds the term, both taken in lower case.
pub open spec fn term_found(fields: Seq<Seq<char>>, term: Seq<char>) -> bool {
    exists|j: int| 0 <= j < fields.len() && contains_seq(lowercase(#[trigger] fields[j]), lowercase(term))
}

/// Every word of the query occurs in at least one field, ignoring case; a
/// blank query matches everything.
pub open spec fn includes_all(query: Seq<char>, fields: Seq<Seq<char>>) -> bool {
    forall|i: int| 0 <= i < words(query).len() ==> term_found(fields, #[trigger] words(query)[i])
}

/// Some field holds the term.
pub open spec fn term_in(fields: Seq<Seq<char>>, term: Seq<char>) -> bool {
    exists|j: int| 0 <= j < fields.len() && contains_seq(#[trigger] fields[j], term)
}

/// Every term occurs in at least one field, both given in lower case.
pub open spec fn all_terms_found(terms: Seq<Seq<char>>, fields: Seq<Seq<char>>) -> bool {
    forall|i: int| 0 <= i < terms.len() ==> term_in(fields, #[trigger] terms[i])
}

/// The matching of `includes` once terms and fields are in lower case.
pub fn includes_lowered(terms: &Vec<String>, fields: &Vec<String>) -> (r: bool)
    ensures
        r == all_terms_found(strings_view(terms@), strings_view(fields@)),
{
    let ghost tv = strings_view(terms@);
    let ghost fv = strings_view(fields@);
    let mut i: usize = 0;
    while i < terms.len()
        invariant
            i <= terms@.len(),
            tv == strings_view(terms@),
            fv == strings_view(fields@),
            forall|t: int| 0 <= t < i ==> term_in(fv, #[trigger] tv[t]),
        decreases terms.len() - i,
    {
        let mut found = false;
        let mut k: usize = 0;
        assert(tv[i as int] == terms@[i as int]@);
        while k < fields.len()
            invariant
                k <= fields@.len(),
                i < terms@.len(),
                tv == strings_view(terms@),
                fv == strings_view(fields@),
                tv[i as int] == terms@[i as int]@,
                found == exists|m: int| 0 <= m < k && contains_seq(#[trigger] fv[m], tv[i as int]),
            decreases fields.len() - k,
        {
            assert(fv[k as int] == fields@[k as int]@);
            if contains_str(fields[k].as_str(), terms[i].as_str()) {
                found = true;
            }
            k = k + 1;
        }
        if !found {
            assert(!term_in(fv, tv[i as int]));
            return false;
        }
        i = i + 1;
    }
    true
}

pub fn includes(query: &str, fields: &Vec<String>) -> (r: bool)
    ensures
        r == includes_all(query@, strings_view(fields@)),
{
    let ghost fv = strings_view(fields@);
    let mut lowered: Vec<String> = Vec::new();
    let mut j: usize = 0;
    while j < fields.len()
        invariant
            j <= fields@.len(),
            fv == strings_view(fields@),
            lowered@.len() == j,
            forall|k: int| 0 <= k < j ==> (#[trigger] lowered@[k])@ == lowercase(fv[k]),
        decreases fields.len() - j,
    {
        lowered.push(to_lowercase(fields[j].as_str()));
        j = j + 1;
    }
    let split = split_words(query);
    let mut terms: Vec<String> = Vec::new();
    let mut i: usize = 0;
    while i < split.len()
        invariant
            i <= split@.len(),
            strings_view(split@) == words(query@),
            terms@.len() == i,
            forall|k: int| 0 <= k < i ==> (#[trigger] terms@[k])@ == lowercase(words(query@)[k]),
        decreases split.len() - i,
    {
        assert(words(query@)[i as int] == split@[i as int]@);
        terms.push(to_lowercase(split[i].as_str()));
        i = i + 1;
    }
    let r = includes_lowered(&terms, &lowered);
    proof {
        let tv = strings_view(terms@);
        let lv = strings_view(lowered@);
        let ws = words(query@);
        assert(tv.len() == ws.len());
        assert forall|t: int| 0 <= t < ws.len() implies (term_found(fv, #[trigger] ws[t]) <==> term_in(lv, tv[t])) by {
            assert(tv[t] == terms@[t]@);
            assert(tv[t] == lowercase(ws[t]));
            if term_found(fv, ws[t]) {
                let m = choose|m: int| 0 <= m < fv.len() && contains_seq(lowercase(#[trigger] fv[m]), lowercase(ws[t]));
                assert(lv[m] == lowered@[m]@);
                assert(lv[m] == lowercase(fv[m]));
            }
            if term_in(lv, tv[t]) {
                let m = choose|m: int| 0 <= m < lv.len() && contains_seq(#[trigger] lv[m], tv[t]);
                assert(lv[m] == lowered@[m]@);
                assert(lv[m] == lowercase(fv[m]));
            }
        }
        assert(r == includes_all(query@, fv)) by {
            if r {
                assert forall|t: int| 0 <= t < ws.len() implies term_found(fv, #[trigger] ws[t]) by {
                    assert(term_in(lv, tv[t]));
                }
            } else {
                let t = choose|t: int| 0 <= t < tv.len() && !term_in(lv, #[trigger] tv[t]);
                assert(!term_found(fv, ws[t]));
            }
        }
    }
    r
}

fn same_text(a: &Option<String>, b: &String) -> (r: bool)
    ensures
        r == (a matches Some(v) && v@ == b@),
{
    match a {
        Some(v) => str_eq(v.as_str(), b.as_str()),
        None => false,
    }
}

/// Rules: by kind, by target and by words in kind, payload and target.
#[derive(Clone, Debug, Default, PartialEq, Eq)]
pub struct RuleFilter {
    pub query: String,
    pub kind: Option<String>,
    pub target: Option<String>,
}

pub open spec fn facet_ok(facet: Option<String>, value: Seq<char>) -> bool {
    match facet {
        Some(v) => v@ == value,
        None => true,
    }
}

impl RuleFilter {
    pub fn matches(&self, rule: &RuleEntry) -> (r: bool)
        ensures
            r == (facet_ok(self.kind, rule.kind@) && facet_ok(self.target, rule.proxy@) && includes_all(
                self.query@,
                seq![rule.kind@, rule.payload@, rule.proxy@],
            )),
    {
        let kind_ok = self.kind.is_none() || same_text(&self.kind, &rule.kind);
        let target_ok = self.target.is_none() || same_text(&self.target, &rule.proxy);
        let fields = vec![rule.kind.clone(), rule.payload.clone(), rule.proxy.clone()];
        assert(strings_view(fields@) =~= seq![rule.kind@, rule.payload@, rule.proxy@]);
        kind_ok && target_ok && includes(self.query.as_str(), &fields)
    }

    /// A provider is shown only without facets, by words in its name and vehicle.
    pub fn matches_provider(&self, provider: &ProviderSummary) -> (r: bool)
        ensures
            r == (self.kind is None && self.target is None && includes_all(
                self.query@,
                seq![provider.name@, provider.vehicle@],
            )),
    {
        let fields = vec![provider.name.clone(), provider.vehicle.clone()];
        assert(strings_view(fields@) =~= seq![provider.name@, provider.vehicle@]);
        self.kind.is_none() && self.target.is_none() && includes(self.query.as_str(), &fields)
    }

    pub fn active(&self) -> (r: bool)
        ensures
            r == (!all_whitespace(self.query@) || self.kind is Some || self.target is Some),
    {
        !is_blank(self.query.as_str()) || self.kind.is_some() || self.target.is_some()
    }
}

/// Connections: by network (ignoring ASCII case), process, proxy chain, and
/// words in the connection's fields.
#[derive(Clone, Debug, Default, PartialEq, Eq)]
pub struct ConnectionFilter {
    pub query: String,
    pub network: Option<String>,
    pub process: Option<String>,
    pub chain: Option<String>,
}

pub open spec fn chain_ok(chain: Option<String>, chains: Seq<Seq<char>>) -> bool {
    match chain {
        Some(v) => (exists|i: int| 0 <= i < chains.len() && #[trigger] chains[i] == v@) || (chains.len() == 0
            && v@ == "DIRECT"@),
        None => true,
    }
}

pub open spec fn network_ok(network: Option<String>, value: Seq<char>) -> bool {
    match network {
        Some(v) => ascii_lower(value) == ascii_lower(v@),
        None => true,
    }
}

pub open spec fn connection_fields(row: Connection) -> Seq<Seq<char>> {
    seq![
        row.process@,
        row.host@,
        row.destination@,
        row.source@,
        row.network@,
        row.rule@,
        row.rule_payload@,
        joined(strings_view(row.chains@), " "@),
    ]
}

fn has_chain(chains: &Vec<String>, v: &String) -> (r: bool)
    ensures
        r == exists|i: int| 0 <= i < chains@.len() && #[trigger] strings_view(chains@)[i] == v@,
{
    let mut i: usize = 0;
    while i < chains.len()
        invariant
            i <= chains@.len(),
            forall|k: int| 0 <= k < i ==> strings_view(chains@)[k] != v@,
        decreases chains.len() - i,
    {
        if str_eq(chains[i].as_str(), v.as_str()) {
            assert(strings_view(chains@)[i as int] == v@);
            return true;
        }
        i = i + 1;
    }
    false
}

/// A connection passes the filter: its network, process and proxy chain
/// facets, and every query word found in one of its fields.
pub open spec fn connection_shown(f: ConnectionFilter, row: Connection) -> bool {
    network_ok(f.network, row.network@) && facet_ok(f.process, row.process@) && chain_ok(
        f.chain,
        strings_view(row.chains@),
    ) && includes_all(f.query@, connection_fields(row))
}

/// Connections are searched by process, host, destination, source, network,
/// rule, rule payload and proxy chain (its names joined by spaces): a connection with one of these that holds every
/// query word (ignoring case) passes a filter without facets.
pub proof fn law_connection_searched_by_its_fields(f: ConnectionFilter, row: Connection, field: Seq<char>)
    requires
        f.network is None,
        f.process is None,
        f.chain is None,
        field == row.process@ || field == row.host@ || field == row.destination@ || field == row.source@ || field
            == row.network@ || field == row.rule@ || field == row.rule_payload@ || field == joined(
            strings_view(row.chains@),
            " "@,
        ),
        forall|i: int| 0 <= i < words(f.query@).len() ==> contains_seq(lowercase(field), lowercase(#[trigger] words(f.query@)[i])),
    ensures
        connection_shown(f, row),
{
    let fields = connection_fields(row);
    let j: int = if field == row.process@ {
        0
    } else if field == row.host@ {
        1
    } else if field == row.destination@ {
        2
    } else if field == row.source@ {
        3
    } else if field == row.network@ {
        4
    } else if field == row.rule@ {
        5
    } else if field == row.rule_payload@ {
        6
    } else {
        7
    };
    assert(fields[j] == field);
    assert forall|i: int| 0 <= i < words(f.query@).len() implies term_found(fields, #[trigger] words(f.query@)[i]) by {
        assert(contains_seq(lowercase(fields[j]), lowercase(words(f.query@)[i])));
    }
}

impl ConnectionFilter {
    pub fn matches(&self, row: &Connection) -> (r: bool)
        ensures
            r == (network_ok(self.network, row.network@) && facet_ok(self.process, row.process@) && chain_ok(
                self.chain,
                strings_view(row.chains@),
            ) && includes_all(self.query@, connection_fields(*row))),
            r == connection_shown(*self, *row),
    {
        let network_matches = match &self.network {
            Some(v) => str_eq(to_ascii_lower(row.network.as_str()).as_str(), to_ascii_lower(v.as_str()).as_str()),
            None => true,
        };
        let process_matches = self.process.is_none() || same_text(&self.process, &row.process);
        let chain_matches = match &self.chain {
            Some(v) => has_chain(&row.chains, v) || (row.chains.len() == 0 && str_eq(v.as_str(), "DIRECT")),
            None => true,
        };
        let fields = vec![
            row.process.clone(),
            row.host.clone(),
            row.destination.clone(),
            row.source.clone(),
            row.network.clone(),
            row.rule.clone(),
            row.rule_payload.clone(),
            join_with(&row.chains, " "),
        ];
        assert(strings_view(fields@) =~= connection_fields(*row));
        network_matches && process_matches && chain_matches && includes(self.query.as_str(), &fields)
    }

    pub fn active(&self) -> (r: bool)
        ensures
            r == (!all_whitespace(self.query@) || self.network is Some || self.process is Some || self.chain is Some),
    {
        !is_blank(self.query.as_str()) || self.network.is_some() || self.process.is_some() || self.chain.is_some()
    }
}

/// A log level in ASCII lower case, with `warn` spelled `warning`.
pub open spec fn level_name(level: Seq<char>) -> Seq<char> {
    if ascii_lower(level) == "warn"@ {
        "warning"@
    } else {
        ascii_lower(level)
    }
}

pub fn normalized_level(level: &str) -> (r: String)
    ensures
        r@ == level_name(level@),
{
    let lower = to_ascii_lower(level);
    if str_eq(lower.as_str(), "warn") {
        String::from_str("warning")
    } else {
        lower
    }
}

pub open spec fn is_problem(level: Seq<char>) -> bool {
    level == "warning"@ || level == "error"@ || level == "fatal"@ || level == "panic"@
}

/// The level facet: `problems` stands for warnings and worse.
pub open spec fn level_ok(facet: Option<String>, level: Seq<char>) -> bool {
    match facet {
        Some(v) => if v@ == "problems"@ {
            is_problem(level_name(level))
        } else {
            v@ == level_name(level)
        },
        None => true,
    }
}

pub open spec fn none_excluded(exclude: Seq<char>, payload: Seq<char>) -> bool {
    forall|i: int| 0 <= i < words(exclude).len() ==> !includes_all(#[trigger] words(exclude)[i], seq![payload])
}

/// Logs: by level, by words that must occur and by words that must not.
#[derive(Clone, Debug, Default, PartialEq, Eq)]
pub struct LogFilter {
    pub query: String,
    pub exclude: String,
    pub level: Option<String>,
}

impl LogFilter {
    pub fn matches(&self, row: &LogEvent) -> (r: bool)
        ensures
            r == (level_ok(self.level, row.level@) && includes_all(self.query@, seq![row.payload@]) && none_excluded(
                self.exclude@,
                row.payload@,
            )),
    {
        let level = normalized_level(row.level.as_str());
        let level_matches = match &self.level {
            Some(v) => if str_eq(v.as_str(), "problems") {
                let l = level.as_str();
                str_eq(l, "warning") || str_eq(l, "error") || str_eq(l, "fatal") || str_eq(l, "panic")
            } else {
                str_eq(v.as_str(), level.as_str())
            },
            None => true,
        };
        let fields = vec![row.payload.clone()];
        assert(strings_view(fields@) =~= seq![row.payload@]);
        if !level_matches || !includes(self.query.as_str(), &fields) {
            return false;
        }
        let excluded = split_words(self.exclude.as_str());
        let mut i: usize = 0;
        while i < excluded.len()
            invariant
                i <= excluded@.len(),
                strings_view(excluded@) == words(self.exclude@),
                strings_view(fields@) == seq![row.payload@],
                forall|t: int| 0 <= t < i ==> !includes_all(#[trigger] words(self.exclude@)[t], seq![row.payload@]),
            decreases excluded.len() - i,
        {
            assert(words(self.exclude@)[i as int] == excluded@[i as int]@);
            if includes(excluded[i].as_str(), &fields) {
                return false;
            }
            i = i + 1;
        }
        true
    }

    pub fn active(&self) -> (r: bool)
        ensures
            r == (!all_whitespace(self.query@) || !all_whitespace(self.exclude@) || self.level is Some),
    {
        !is_blank(self.query.as_str()) || !is_blank(self.exclude.as_str()) || self.level.is_some()
    }
}

/// The filters of the three filtered pages.
#[derive(Clone, Debug, Default, PartialEq, Eq)]
pub struct PageFilters {
    pub rules: RuleFilter,
    pub connections: ConnectionFilter,
    pub logs: LogFilter,
}

impl PageFilters {
    /// Whether the page shows a filtered view.
    pub fn active(&self, page: Page) -> (r: bool)
        ensures
            r == match page {
                Page::Rules => !all_whitespace(self.rules.query@) || self.rules.kind is Some || self.rules.target is Some,
                Page::Connections => !all_whitespace(self.connections.query@) || self.connections.network is Some
                    || self.connections.process is Some || self.connections.chain is Some,
                Page::Logs => !all_whitespace(self.logs.query@) || !all_whitespace(self.logs.exclude@)
                    || self.logs.level is Some,
                _ => false,
            },
    {
        match page {
            Page::Rules => self.rules.active(),
            Page::Connections => self.connections.active(),
            Page::Logs => self.logs.active(),
            _ => false,
        }
    }
}

/// A log text as the logs page shows it: each line break, `\r\n` or a lone
/// `\r`, becomes `\n`, and a tab becomes four spaces.
pub open spec fn shown(s: Seq<char>) -> Seq<char>
    decreases s.len(),
{
    if s.len() == 0 {
        seq![]
    } else if s[0] == '\r' && s.len() > 1 && s[1] == '\n' {
        seq!['\n'] + shown(s.skip(2))
    } else if s[0] == '\r' {
        seq!['\n'] + shown(s.drop_first())
    } else if s[0] == '\t' {
        seq![' ', ' ', ' ', ' '] + shown(s.drop_first())
    } else {
        seq![s[0]] + shown(s.drop_first())
    }
}

/// The text of a log row: its level in brackets, then its payload.
pub fn display_text(row: &LogEvent) -> (r: String)
    ensures
        r@ == shown("["@ + row.level@ + "] "@ + row.payload@),
{
    let text = String::from_str("[").concat(row.level.as_str()).concat("] ").concat(row.payload.as_str());
    let ghost t = text@;
    let n = text.as_str().unicode_len();
    let mut out = String::new();
    let mut i: usize = 0;
    assert(t.skip(0) =~= t);
    while i < n
        invariant
            n == t.len(),
            t == text@,
            i <= n,
            out@ + shown(t.skip(i as int)) == shown(t),
        decreases n - i,
    {
        let ghost rest = t.skip(i as int);
        let c = char_at(text.as_str(), i);
        assert(rest[0] == c);
        if c == '\r' && i + 1 < n && char_at(text.as_str(), i + 1) == '\n' {
            assert(rest.skip(2) =~= t.skip(i + 2));
            out = out.concat("\n");
            proof { reveal_strlit("\n"); }
            assert(out@ + shown(t.skip(i + 2)) =~= shown(t));
            i = i + 2;
        } else {
            assert(rest.drop_first() =~= t.skip(i + 1));
            if c == '\r' {
                out = out.concat("\n");
                proof { reveal_strlit("\n"); }
            } else if c == '\t' {
                out = out.concat("    ");
                proof { reveal_strlit("    "); }
            } else {
                out = out.concat(char_string(c).as_str());
            }
            assert(out@ + shown(t.skip(i + 1)) =~= shown(t));
            i = i + 1;
        }
    }
    assert(t.skip(n as int) =~= Seq::<char>::empty());
    out
}

/// A text of white space only has no words.
proof fn lemma_blank_has_no_words(s: Seq<char>, cur: Seq<char>)
    requires
        all_whitespace(s),
    ensures
        words_after(s, cur) == (if cur.len() > 0 { seq![cur] } else { Seq::<Seq<char>>::empty() }),
    decreases s.len(),
{
    if s.len() > 0 {
        assert(is_whitespace(s[0]));
        assert(all_whitespace(s.drop_first())) by {
            assert forall|i: int| 0 <= i < s.drop_first().len() implies is_whitespace(#[trigger] s.drop_first()[i]) by {
                assert(s.drop_first()[i] == s[i + 1]);
            }
        }
        lemma_blank_has_no_words(s.drop_first(), seq![]);
    }
}

/// A blank query (empty or only white space) matches every row.
pub proof fn law_blank_query_matches_everything(query: Seq<char>, fields: Seq<Seq<char>>)
    requires
        all_whitespace(query),
    ensures
        includes_all(query, fields),
{
    lemma_blank_has_no_words(query, seq![]);
}

/// Adding a word to a query never lets more rows through.
pub proof fn law_more_words_match_less(query: Seq<char>, fields: Seq<Seq<char>>, other: Seq<char>)
    requires
        forall|i: int| 0 <= i < words(query).len() ==> words(other).contains(#[trigger] words(query)[i]),
        includes_all(other, fields),
    ensures
        includes_all(query, fields),
{
    assert forall|i: int| 0 <= i < words(query).len() implies term_found(fields, #[trigger] words(query)[i]) by {
        let w = words(query)[i];
        assert(words(other).contains(w));
        let k = choose|k: int| 0 <= k < words(other).len() && words(other)[k] == w;
        assert(term_found(fields, words(other)[k]));
    }
}

} // verus!
