//! SHA-256 digests (computed by the `sha2` crate) and their lower-case hex text.
use vstd::prelude::*;

use sha2::{Digest, Sha256};

use crate::text::{all_hex, is_all_hex};

verus! {

/// The SHA-256 digest of a byte string.
pub uninterp spec fn sha256(data: Seq<u8>) -> Seq<u8>;

/// Calls `sha2::Sha256::digest`: the 32-byte SHA-256 digest of `data`, named by
/// `sha256` (a function of the bytes alone; the hash itself is not restated).
#[verifier::external_body]
pub(crate) fn sha256_digest(data: &[u8]) -> (r: Vec<u8>)
    ensures
        r@ == sha256(data@),
        r@.len() == 32,
{
    Sha256::digest(data).to_vec()
}

pub open spec fn hex_digit(n: nat) -> char {
    if n < 10 {
        crate::text::digit_char(n)
    } else if n == 10 {
        'a'
    } else if n == 11 {
        'b'
    } else if n == 12 {
        'c'
    } else if n == 13 {
        'd'
    } else if n == 14 {
        'e'
    } else {
        'f'
    }
}

/// Lower-case hexadecimal text of bytes, two digits per byte (what `{:x}`
/// writes for a digest).
pub open spec fn hex_of(bytes: Seq<u8>) -> Seq<char>
    decreases bytes.len(),
{
    if bytes.len() == 0 {
        seq![]
    } else {
        let b = bytes.last() as nat;
        hex_of(bytes.drop_last()) + seq![hex_digit(b / 16), hex_digit(b % 16)]
    }
}

/// ASCII upper-case letters mapped to lower case (`str::to_ascii_lowercase`).
pub open spec fn ascii_lower(s: Seq<char>) -> Seq<char> {
    s.map_values(|c: char| if 'A' <= c && c <= 'Z' { ((c as u32) + 32) as char } else { c })
}

/// A SHA-256 digest written as exactly 64 hexadecimal digits.
pub open spec fn is_sha256_text(s: Seq<char>) -> bool {
    s.len() == 64 && all_hex(s)
}

fn hex_char(n: u8) -> (c: char)
    requires
        n < 16,
    ensures
        c == hex_digit(n as nat),
{
    if n < 10 {
        crate::text::digit_to_char(n as u64)
    } else if n == 10 {
        'a'
    } else if n == 11 {
        'b'
    } else if n == 12 {
        'c'
    } else if n == 13 {
        'd'
    } else if n == 14 {
        'e'
    } else {
        'f'
    }
}

pub fn hex_lower(bytes: &[u8]) -> (r: String)
    ensures
        r@ == hex_of(bytes@),
{
    let mut out = String::new();
    let mut i: usize = 0;
    while i < bytes.len()
        invariant
            i <= bytes@.len(),
            out@ == hex_of(bytes@.take(i as int)),
        decreases bytes.len() - i,
    {
        let b = bytes[i];
        let hi = crate::text::char_string(hex_char(b / 16));
        let lo = crate::text::char_string(hex_char(b % 16));
        out = out.concat(hi.as_str());
        out = out.concat(lo.as_str());
        assert(bytes@.take(i + 1).drop_last() =~= bytes@.take(i as int));
        assert(out@ =~= hex_of(bytes@.take(i + 1)));
        i = i + 1;
    }
    assert(bytes@.take(bytes@.len() as int) =~= bytes@);
    out
}

pub fn to_ascii_lower(s: &str) -> (r: String)
    ensures
        r@ == ascii_lower(s@),
{
    let n = s.unicode_len();
    let mut out = String::new();
    let mut i: usize = 0;
    while i < n
        invariant
            n == s@.len(),
            i <= n,
            out@ == ascii_lower(s@.take(i as int)),
        decreases n - i,
    {
        let c = s.get_char(i);
        let d = if 'A' <= c && c <= 'Z' {
            char_from_u32_checked((c as u32) + 32)
        } else {
            c
        };
        let piece = crate::text::char_string(d);
        out = out.concat(piece.as_str());
        assert(ascii_lower(s@.take(i + 1)) =~= ascii_lower(s@.take(i as int)).push(d));
        i = i + 1;
    }
    assert(s@.take(n as int) =~= s@);
    out
}

/// The character with code point `u`, for an ASCII letter's code point.
fn char_from_u32_checked(u: u32) -> (c: char)
    requires
        'a' as u32 <= u <= 'z' as u32,
    ensures
        c == u as char,
{
    let letters = "abcdefghijklmnopqrstuvwxyz";
    proof {
        reveal_strlit("abcdefghijklmnopqrstuvwxyz");
    }
    letters.get_char((u - 97) as usize)
}

/// Whether `s` is a SHA-256 digest written in hexadecimal.
pub fn is_sha256_hex(s: &str) -> (r: bool)
    ensures
        r == is_sha256_text(s@),
{
    s.unicode_len() == 64 && is_all_hex(s)
}

} // verus!
