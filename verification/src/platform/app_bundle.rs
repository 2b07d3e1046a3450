//! The version of the running application bundle, read from the
//! `CFBundleShortVersionString` entry of its `Info.plist`.
use vstd::prelude::*;

use crate::domain::{AppError, ErrorCode};
use crate::text::{contains_seq, find, first_occurrence, lemma_first_occurrence, substring, trim, trimmed_of};

verus! {

pub open spec fn key_marker(key: Seq<char>) -> Seq<char> {
    "<key>"@ + key + "</key>"@
}

/// The text between the first `<string>` after the first `<key>key</key>`
/// and the `</string>` that closes it, before trimming.
pub open spec fn plist_raw_value(text: Seq<char>, key: Seq<char>) -> Option<Seq<char>> {
    let marker = key_marker(key);
    if !contains_seq(text, marker) {
        None
    } else {
        let rest = text.skip(first_occurrence(text, marker) + marker.len());
        if !contains_seq(rest, "<string>"@) {
            None
        } else {
            let tail = rest.skip(first_occurrence(rest, "<string>"@) + "<string>"@.len());
            if !contains_seq(tail, "</string>"@) {
                None
            } else {
                Some(tail.take(first_occurrence(tail, "</string>"@)))
            }
        }
    }
}

/// The trimmed string value that follows `<key>key</key>` in an XML plist;
/// `None` where the key, the value or its end is missing, or the value is blank.
pub fn plist_string_value(text: &str, key: &str) -> (r: Option<String>)
    ensures
        match plist_raw_value(text@, key@) {
            None => r is None,
            Some(raw) => match r {
                Some(v) => trimmed_of(raw, v@) && v@.len() > 0,
                None => trimmed_of(raw, Seq::empty()),
            },
        },
{
    let marker = String::from_str("<key>").concat(key).concat("</key>");
    let ghost m = key_marker(key@);
    assert(marker@ == m);
    let at = match find(text, marker.as_str()) {
        Some(i) => i,
        None => {
            return None;
        },
    };
    proof {
        lemma_first_occurrence(text@, m, at as int);
    }
    let n = text.unicode_len();
    assert(at + marker@.len() <= text@.len());
    let start = at + marker.as_str().unicode_len();
    let rest = substring(text, start, n);
    assert(rest@ =~= text@.skip(start as int));
    let open = "<string>";
    let close = "</string>";
    let vs = match find(rest.as_str(), open) {
        Some(i) => i,
        None => {
            return None;
        },
    };
    proof {
        lemma_first_occurrence(rest@, open@, vs as int);
    }
    let value_start = vs + open.unicode_len();
    let tail = substring(rest.as_str(), value_start, rest.as_str().unicode_len());
    assert(tail@ =~= rest@.skip(value_start as int));
    let ve = match find(tail.as_str(), close) {
        Some(i) => i,
        None => {
            return None;
        },
    };
    proof {
        lemma_first_occurrence(tail@, close@, ve as int);
    }
    let raw = substring(tail.as_str(), 0, ve);
    assert(raw@ =~= tail@.take(ve as int));
    let value = trim(raw.as_str());
    if value.as_str().unicode_len() == 0 {
        assert(value@ =~= Seq::<char>::empty());
        None
    } else {
        Some(value)
    }
}

/// The bundle's short version from the text of its `Info.plist`; the error
/// names the plist when the entry is missing or blank.
pub fn short_version_from_plist(plist: &str, text: &str) -> (r: Result<String, AppError>)
    ensures
        match plist_raw_value(text@, "CFBundleShortVersionString"@) {
            Some(raw) if exists|v: Seq<char>| trimmed_of(raw, v) && v.len() > 0 => r matches Ok(v)
                && trimmed_of(raw, v@) && v@.len() > 0,
            _ => r matches Err(e) && e.code == ErrorCode::PlatformFailed && e.message@ == plist@
                + " has no CFBundleShortVersionString"@,
        },
{
    match plist_string_value(text, "CFBundleShortVersionString") {
        Some(v) => Ok(v),
        None => {
            proof {
                if let Some(raw) = plist_raw_value(text@, "CFBundleShortVersionString"@) {
                    assert forall|v: Seq<char>| trimmed_of(raw, v) implies v.len() == 0 by {
                        crate::text::lemma_trimmed_unique(raw, v, Seq::empty());
                    }
                }
            }
            Err(AppError::with_message(
                ErrorCode::PlatformFailed,
                String::from_str(plist).concat(" has no CFBundleShortVersionString"),
            ))
        },
    }
}

} // verus!
