//! Character classes and string operations over the `Seq<char>` view of text.
use vstd::prelude::*;
use vstd::string::*;

verus! {

/// Unicode general category Cc: the C0 block, DEL and the C1 block.
pub open spec fn is_control(c: char) -> bool {
    (c as u32) <= 0x1f || (0x7f <= (c as u32) && (c as u32) <= 0x9f)
}

/// Unicode `White_Space`.
pub open spec fn is_whitespace(c: char) -> bool {
    let u = c as u32;
    ||| 0x09 <= u && u <= 0x0d
    ||| u == 0x20
    ||| u == 0x85
    ||| u == 0xa0
    ||| u == 0x1680
    ||| 0x2000 <= u && u <= 0x200a
    ||| u == 0x2028
    ||| u == 0x2029
    ||| u == 0x202f
    ||| u == 0x205f
    ||| u == 0x3000
}

pub open spec fn is_hex_digit(c: char) -> bool {
    ||| '0' <= c && c <= '9'
    ||| 'a' <= c && c <= 'f'
    ||| 'A' <= c && c <= 'F'
}

pub open spec fn has_control(s: Seq<char>) -> bool {
    exists|i: int| 0 <= i < s.len() && is_control(#[trigger] s[i])
}

pub open spec fn has_char(s: Seq<char>, c: char) -> bool {
    exists|i: int| 0 <= i < s.len() && #[trigger] s[i] == c
}

pub open spec fn all_hex(s: Seq<char>) -> bool {
    forall|i: int| 0 <= i < s.len() ==> is_hex_digit(#[trigger] s[i])
}

pub open spec fn all_whitespace(s: Seq<char>) -> bool {
    forall|i: int| 0 <= i < s.len() ==> is_whitespace(#[trigger] s[i])
}

pub open spec fn is_prefix(p: Seq<char>, s: Seq<char>) -> bool {
    p.len() <= s.len() && s.subrange(0, p.len() as int) == p
}

pub open spec fn is_suffix(p: Seq<char>, s: Seq<char>) -> bool {
    p.len() <= s.len() && s.subrange(s.len() - p.len(), s.len() as int) == p
}

/// `p` occurs in `s` starting at index `i`.
pub open spec fn occurs_at(s: Seq<char>, p: Seq<char>, i: int) -> bool {
    0 <= i && i + p.len() <= s.len() && s.subrange(i, i + p.len()) == p
}

pub open spec fn contains_seq(s: Seq<char>, p: Seq<char>) -> bool {
    exists|i: int| occurs_at(s, p, i)
}

/// The first index at which `p` occurs in `s` (meaningful when it occurs).
pub open spec fn first_occurrence(s: Seq<char>, p: Seq<char>) -> int {
    choose|i: int| occurs_at(s, p, i) && forall|j: int| 0 <= j < i ==> !occurs_at(s, p, j)
}

/// `t` is `s` without its leading and trailing white space.
pub open spec fn trimmed_of(s: Seq<char>, t: Seq<char>) -> bool {
    exists|a: int, b: int|
        0 <= a <= b <= s.len() && t == s.subrange(a, b) && all_whitespace(s.subrange(0, a))
            && all_whitespace(s.subrange(b, s.len() as int)) && (t.len() > 0 ==> !is_whitespace(t[0])
            && !is_whitespace(t[t.len() - 1]))
}

/// Decimal digits of a natural number, most significant first.
pub open spec fn decimal(n: nat) -> Seq<char>
    decreases n,
{
    if n < 10 {
        seq![digit_char((n % 10) as nat)]
    } else {
        decimal(n / 10) + seq![digit_char((n % 10) as nat)]
    }
}

pub open spec fn digit_char(d: nat) -> char {
    if d == 0 { '0' }
    else if d == 1 { '1' }
    else if d == 2 { '2' }
    else if d == 3 { '3' }
    else if d == 4 { '4' }
    else if d == 5 { '5' }
    else if d == 6 { '6' }
    else if d == 7 { '7' }
    else if d == 8 { '8' }
    else { '9' }
}

pub open spec fn is_digit(c: char) -> bool {
    '0' <= c && c <= '9'
}

pub open spec fn digits_value(s: Seq<char>) -> nat
    decreases s.len(),
{
    if s.len() == 0 {
        0
    } else {
        digits_value(s.drop_last()) * 10 + ((s.last() as nat) - ('0' as nat)) as nat
    }
}

pub open spec fn unsigned_digits(s: Seq<char>) -> Seq<char> {
    if s.len() > 0 && s[0] == '+' { s.drop_first() } else { s }
}

pub open spec fn all_digits(d: Seq<char>) -> bool {
    forall|i: int| 0 <= i < d.len() ==> is_digit(#[trigger] d[i])
}

/// `u64::from_str`: an optional `+`, then one or more decimal digits of a
/// value that fits.
pub open spec fn decimal_u64(s: Seq<char>) -> Option<u64> {
    let d = unsigned_digits(s);
    if d.len() > 0 && all_digits(d) && digits_value(d) <= u64::MAX {
        Some(digits_value(d) as u64)
    } else {
        None
    }
}

/// Unicode lower-case mapping of a string (`str::to_lowercase`).
pub uninterp spec fn lowercase(s: Seq<char>) -> Seq<char>;

/// Calls `str::to_lowercase`; its result is named by `lowercase`, a function of
/// the input alone (the full Unicode case-mapping tables are not restated).
#[verifier::external_body]
pub(crate) fn to_lowercase(s: &str) -> (r: String)
    ensures
        r@ == lowercase(s@),
{
    s.to_lowercase()
}

pub fn char_at(s: &str, i: usize) -> (c: char)
    requires
        i < s@.len(),
    ensures
        c == s@[i as int],
{
    s.get_char(i)
}

pub fn char_is_control(c: char) -> (r: bool)
    ensures
        r == is_control(c),
{
    let u = c as u32;
    u <= 0x1f || (0x7f <= u && u <= 0x9f)
}

pub fn char_is_whitespace(c: char) -> (r: bool)
    ensures
        r == is_whitespace(c),
{
    let u = c as u32;
    (0x09 <= u && u <= 0x0d) || u == 0x20 || u == 0x85 || u == 0xa0 || u == 0x1680 || (0x2000
        <= u && u <= 0x200a) || u == 0x2028 || u == 0x2029 || u == 0x202f || u == 0x205f || u
        == 0x3000
}

pub fn contains_control(s: &str) -> (r: bool)
    ensures
        r == has_control(s@),
{
    let n = s.unicode_len();
    let mut i: usize = 0;
    while i < n
        invariant
            n == s@.len(),
            i <= n,
            forall|j: int| 0 <= j < i ==> !is_control(#[trigger] s@[j]),
        decreases n - i,
    {
        if char_is_control(s.get_char(i)) {
            return true;
        }
        i = i + 1;
    }
    false
}

pub fn contains_char(s: &str, c: char) -> (r: bool)
    ensures
        r == has_char(s@, c),
{
    let n = s.unicode_len();
    let mut i: usize = 0;
    while i < n
        invariant
            n == s@.len(),
            i <= n,
            forall|j: int| 0 <= j < i ==> #[trigger] s@[j] != c,
        decreases n - i,
    {
        if s.get_char(i) == c {
            return true;
        }
        i = i + 1;
    }
    false
}

pub fn is_all_hex(s: &str) -> (r: bool)
    ensures
        r == all_hex(s@),
{
    let n = s.unicode_len();
    let mut i: usize = 0;
    while i < n
        invariant
            n == s@.len(),
            i <= n,
            forall|j: int| 0 <= j < i ==> is_hex_digit(#[trigger] s@[j]),
        decreases n - i,
    {
        let c = s.get_char(i);
        if !(('0' <= c && c <= '9') || ('a' <= c && c <= 'f') || ('A' <= c && c <= 'F')) {
            return false;
        }
        i = i + 1;
    }
    true
}

/// Whether `s[start..]` begins with `p`.
pub fn matches_at(s: &str, p: &str, start: usize) -> (r: bool)
    requires
        start <= s@.len(),
    ensures
        r == occurs_at(s@, p@, start as int),
{
    let n = s.unicode_len();
    let m = p.unicode_len();
    if m > n - start {
        return false;
    }
    let mut k: usize = 0;
    while k < m
        invariant
            n == s@.len(),
            m == p@.len(),
            start + m <= n,
            k <= m,
            forall|j: int| 0 <= j < k ==> #[trigger] s@[start + j] == p@[j],
        decreases m - k,
    {
        if s.get_char(start + k) != p.get_char(k) {
            assert(s@.subrange(start as int, start + m)[k as int] != p@[k as int]);
            return false;
        }
        k = k + 1;
    }
    assert forall|j: int| 0 <= j < m implies s@.subrange(start as int, start + m)[j] == p@[j] by {
        assert(s@[start + j] == p@[j]);
    }
    assert(s@.subrange(start as int, start + m) =~= p@);
    true
}

pub fn starts_with(s: &str, p: &str) -> (r: bool)
    ensures
        r == is_prefix(p@, s@),
{
    let r = matches_at(s, p, 0);
    assert(is_prefix(p@, s@) == occurs_at(s@, p@, 0));
    r
}

pub fn ends_with(s: &str, p: &str) -> (r: bool)
    ensures
        r == is_suffix(p@, s@),
{
    let n = s.unicode_len();
    let m = p.unicode_len();
    if m > n {
        return false;
    }
    matches_at(s, p, n - m)
}

/// The first index at or after `from` where `p` occurs in `s`.
pub fn find_from(s: &str, p: &str, from: usize) -> (r: Option<usize>)
    requires
        from <= s@.len(),
    ensures
        match r {
            Some(i) => from <= i && occurs_at(s@, p@, i as int) && forall|j: int|
                from <= j < i ==> !occurs_at(s@, p@, j),
            None => forall|j: int| from <= j ==> !occurs_at(s@, p@, j),
        },
{
    let n = s.unicode_len();
    let mut i: usize = from;
    while i < n
        invariant
            n == s@.len(),
            from <= i <= n,
            forall|j: int| from <= j < i ==> !occurs_at(s@, p@, j),
        decreases n - i,
    {
        if matches_at(s, p, i) {
            return Some(i);
        }
        i = i + 1;
    }
    if matches_at(s, p, n) {
        return Some(n);
    }
    assert forall|j: int| from <= j implies !occurs_at(s@, p@, j) by {
        if j > n {
            assert(!(j + p@.len() <= s@.len()));
        }
    }
    None
}

pub fn find(s: &str, p: &str) -> (r: Option<usize>)
    ensures
        match r {
            Some(i) => occurs_at(s@, p@, i as int) && forall|j: int|
                0 <= j < i ==> !occurs_at(s@, p@, j),
            None => !contains_seq(s@, p@),
        },
{
    let r = find_from(s, p, 0);
    if r.is_none() {
        assert forall|j: int| !occurs_at(s@, p@, j) by {
            if j < 0 {
            }
        }
    }
    r
}

pub fn contains_str(s: &str, p: &str) -> (r: bool)
    ensures
        r == contains_seq(s@, p@),
{
    match find(s, p) {
        Some(i) => {
            assert(occurs_at(s@, p@, i as int));
            true
        },
        None => false,
    }
}

/// Characters `from..to` of `s` as a new `String`.
pub fn substring(s: &str, from: usize, to: usize) -> (r: String)
    requires
        from <= to <= s@.len(),
    ensures
        r@ == s@.subrange(from as int, to as int),
{
    String::from_str(s.substring_char(from, to))
}

/// `s` without leading and trailing white space (`str::trim`).
pub fn trim(s: &str) -> (r: String)
    ensures
        trimmed_of(s@, r@),
{
    let n = s.unicode_len();
    let mut a: usize = 0;
    while a < n && char_is_whitespace(s.get_char(a))
        invariant
            n == s@.len(),
            a <= n,
            all_whitespace(s@.subrange(0, a as int)),
        decreases n - a,
    {
        assert(s@.subrange(0, a + 1) =~= s@.subrange(0, a as int).push(s@[a as int]));
        a = a + 1;
    }
    let mut b: usize = n;
    while b > a && char_is_whitespace(s.get_char(b - 1))
        invariant
            n == s@.len(),
            a <= b <= n,
            all_whitespace(s@.subrange(b as int, n as int)),
        decreases b,
    {
        assert(s@.subrange(b - 1, n as int) =~= seq![s@[b - 1]] + s@.subrange(b as int, n as int));
        b = b - 1;
    }
    let r = substring(s, a, b);
    proof {
        if r@.len() > 0 {
            assert(r@[0] == s@[a as int]);
            assert(r@[r@.len() - 1] == s@[b - 1]);
            if a == 0 || a < n {
            }
        }
        assert(trimmed_of(s@, r@)) by {
            if r@.len() > 0 {
                assert(a < n);
            }
        }
    }
    r
}

pub fn is_blank(s: &str) -> (r: bool)
    ensures
        r == all_whitespace(s@),
{
    let n = s.unicode_len();
    let mut i: usize = 0;
    while i < n
        invariant
            n == s@.len(),
            i <= n,
            forall|j: int| 0 <= j < i ==> is_whitespace(#[trigger] s@[j]),
        decreases n - i,
    {
        if !char_is_whitespace(s.get_char(i)) {
            return false;
        }
        i = i + 1;
    }
    true
}

pub fn digit_to_char(d: u64) -> (c: char)
    requires
        d < 10,
    ensures
        c == digit_char(d as nat),
{
    if d == 0 { '0' }
    else if d == 1 { '1' }
    else if d == 2 { '2' }
    else if d == 3 { '3' }
    else if d == 4 { '4' }
    else if d == 5 { '5' }
    else if d == 6 { '6' }
    else if d == 7 { '7' }
    else if d == 8 { '8' }
    else { '9' }
}

/// Decimal representation of `n` (what `Display` writes for an unsigned integer).
pub fn decimal_string(n: u64) -> (r: String)
    ensures
        r@ == decimal(n as nat),
    decreases n,
{
    let d = digit_to_char(n % 10);
    let one = char_string(d);
    if n < 10 {
        assert(one@ =~= decimal(n as nat));
        one
    } else {
        let head = decimal_string(n / 10);
        let r = head.concat(one.as_str());
        assert(r@ =~= decimal(n as nat));
        r
    }
}

/// Calls `char::to_string`: a `String` that holds the one character `c`.
#[verifier::external_body]
pub(crate) fn char_string(c: char) -> (r: String)
    ensures
        r@ == seq![c],
{
    c.to_string()
}

/// `parts` joined with `sep` between them.
pub open spec fn joined(parts: Seq<Seq<char>>, sep: Seq<char>) -> Seq<char>
    decreases parts.len(),
{
    if parts.len() == 0 {
        seq![]
    } else if parts.len() == 1 {
        parts[0]
    } else {
        joined(parts.drop_last(), sep) + sep + parts.last()
    }
}

/// `parts` joined with `sep`.
pub fn join_with(parts: &Vec<String>, sep: &str) -> (r: String)
    ensures
        r@ == joined(crate::domain::strings_view(parts@), sep@),
{
    if parts.len() == 0 {
        return String::new();
    }
    let mut acc = parts[0].clone();
    let mut k: usize = 1;
    assert(crate::domain::strings_view(parts@).take(1).drop_last() =~= Seq::<Seq<char>>::empty());
    while k < parts.len()
        invariant
            1 <= k <= parts@.len(),
            acc@ == joined(crate::domain::strings_view(parts@).take(k as int), sep@),
        decreases parts.len() - k,
    {
        acc = acc.concat(sep).concat(parts[k].as_str());
        assert(crate::domain::strings_view(parts@).take(k + 1).drop_last() =~= crate::domain::strings_view(parts@).take(k as int));
        k = k + 1;
    }
    assert(crate::domain::strings_view(parts@).take(parts@.len() as int) =~= crate::domain::strings_view(parts@));
    acc
}

} // verus!

verus! {

/// Character-wise equality of two strings.
pub fn str_eq(a: &str, b: &str) -> (r: bool)
    ensures
        r == (a@ == b@),
{
    let n = a.unicode_len();
    if n != b.unicode_len() {
        return false;
    }
    let mut i: usize = 0;
    while i < n
        invariant
            n == a@.len(),
            n == b@.len(),
            i <= n,
            forall|j: int| 0 <= j < i ==> a@[j] == b@[j],
        decreases n - i,
    {
        if a.get_char(i) != b.get_char(i) {
            return false;
        }
        i = i + 1;
    }
    assert(a@ =~= b@);
    true
}

} // verus!

verus! {

/// A string has exactly one trimmed form.
pub proof fn lemma_trimmed_unique(s: Seq<char>, t1: Seq<char>, t2: Seq<char>)
    requires
        trimmed_of(s, t1),
        trimmed_of(s, t2),
    ensures
        t1 == t2,
{
    let (a, b) = choose|a: int, b: int|
        0 <= a <= b <= s.len() && t1 == s.subrange(a, b) && all_whitespace(s.subrange(0, a))
            && all_whitespace(s.subrange(b, s.len() as int)) && (t1.len() > 0 ==> !is_whitespace(t1[0])
            && !is_whitespace(t1[t1.len() - 1]));
    let (c, d) = choose|c: int, d: int|
        0 <= c <= d <= s.len() && t2 == s.subrange(c, d) && all_whitespace(s.subrange(0, c))
            && all_whitespace(s.subrange(d, s.len() as int)) && (t2.len() > 0 ==> !is_whitespace(t2[0])
            && !is_whitespace(t2[t2.len() - 1]));
    if t1.len() > 0 {
        assert(t1[0] == s[a]);
        assert(t1[t1.len() - 1] == s[b - 1]);
        if c <= a && a < d {
        } else if a < c {
            assert(s.subrange(0, c)[a] == s[a]);
        } else {
            assert(s.subrange(d, s.len() as int)[a - d] == s[a]);
        }
    }
    if t2.len() > 0 {
        assert(t2[0] == s[c]);
        assert(t2[t2.len() - 1] == s[d - 1]);
        if a <= c && c < b {
        } else if c < a {
            assert(s.subrange(0, a)[c] == s[c]);
        } else {
            assert(s.subrange(b, s.len() as int)[c - b] == s[c]);
        }
    }
    if t1.len() > 0 && t2.len() > 0 {
        if a < c {
            assert(s.subrange(0, c)[a] == s[a]);
        } else if c < a {
            assert(s.subrange(0, a)[c] == s[c]);
        }
        if b < d {
            assert(s.subrange(b, s.len() as int)[d - 1 - b] == s[d - 1]);
        } else if d < b {
            assert(s.subrange(d, s.len() as int)[b - 1 - d] == s[b - 1]);
        }
        assert(a == c && b == d);
    }
}

/// The text of `s` without leading and trailing white space.
pub open spec fn trimmed(s: Seq<char>) -> Seq<char> {
    choose|t: Seq<char>| trimmed_of(s, t)
}

/// A text that `trim` gives is the one `trimmed` names; it is empty exactly
/// when `s` is all white space.
pub proof fn lemma_trimmed(s: Seq<char>, t: Seq<char>)
    requires
        trimmed_of(s, t),
    ensures
        trimmed(s) == t,
        t.len() == 0 <==> all_whitespace(s),
{
    assert(exists|u: Seq<char>| trimmed_of(s, u));
    lemma_trimmed_unique(s, t, trimmed(s));
    let (a, b) = choose|a: int, b: int|
        0 <= a <= b <= s.len() && t == s.subrange(a, b) && all_whitespace(s.subrange(0, a))
            && all_whitespace(s.subrange(b, s.len() as int)) && (t.len() > 0 ==> !is_whitespace(t[0])
            && !is_whitespace(t[t.len() - 1]));
    if t.len() == 0 {
        assert forall|i: int| 0 <= i < s.len() implies is_whitespace(#[trigger] s[i]) by {
            if i < a {
                assert(s.subrange(0, a)[i] == s[i]);
            } else {
                assert(s.subrange(b, s.len() as int)[i - b] == s[i]);
            }
        }
    } else {
        assert(t[0] == s[a]);
    }
}

/// The first place a pattern occurs is the one `first_occurrence` names.
pub proof fn lemma_first_occurrence(s: Seq<char>, p: Seq<char>, i: int)
    requires
        occurs_at(s, p, i),
        forall|j: int| 0 <= j < i ==> !occurs_at(s, p, j),
    ensures
        first_occurrence(s, p) == i,
        contains_seq(s, p),
{
    let c = first_occurrence(s, p);
    assert(occurs_at(s, p, c) && forall|j: int| 0 <= j < c ==> !occurs_at(s, p, j));
    if c < i {
        assert(!occurs_at(s, p, c));
    } else if c > i {
        assert(!occurs_at(s, p, i));
    }
}

/// Reads an unsigned decimal number as `u64::from_str` does.
pub fn parse_u64(s: &str) -> (r: Option<u64>)
    ensures
        r == decimal_u64(s@),
{
    let n = s.unicode_len();
    let mut i: usize = 0;
    if n > 0 && char_at(s, 0) == '+' {
        i = 1;
    }
    let ghost d = unsigned_digits(s@);
    assert(d =~= s@.skip(i as int));
    if i == n {
        assert(d.len() == 0);
        return None;
    }
    let start = i;
    // The value read so far, or the first value past `u64::MAX`.
    let cap: u128 = 0x1_0000_0000_0000_0000;
    let mut value: u128 = 0;
    while i < n
        invariant
            n == s@.len(),
            start <= i <= n,
            cap == u64::MAX + 1,
            d == s@.skip(start as int),
            d == unsigned_digits(s@),
            forall|k: int| start <= k < i ==> is_digit(#[trigger] s@[k]),
            value <= cap,
            value == (if digits_value(s@.subrange(start as int, i as int)) > u64::MAX { cap as nat } else {
                digits_value(s@.subrange(start as int, i as int))
            }),
        decreases n - i,
    {
        let c = char_at(s, i);
        if c < '0' || c > '9' {
            assert(!is_digit(d[i - start]));
            assert(!all_digits(d));
            return None;
        }
        let digit: u128 = (c as u32 - '0' as u32) as u128;
        let ghost prev = s@.subrange(start as int, i as int);
        let ghost next = s@.subrange(start as int, i + 1);
        assert(next.drop_last() =~= prev);
        assert(digits_value(next) == digits_value(prev) * 10 + digit);
        value = if value * 10 + digit > u64::MAX as u128 { cap } else { value * 10 + digit };
        i = i + 1;
    }
    assert(s@.subrange(start as int, n as int) =~= d);
    if value > u64::MAX as u128 {
        None
    } else {
        Some(value as u64)
    }
}

} // verus!

