//! The rotation policy of the application's log file: how much of a write
//! goes into the current file, and when the file is archived.
use vstd::prelude::*;

use crate::text::{decimal, decimal_string};

verus! {

/// The largest size of the active log file, in bytes.
pub const FILE_BYTES: usize = 2097152;

/// How many archived files are kept (`log.1` is the newest).
pub const ARCHIVES: usize = 3;

/// What to do with the active file before the next part of a write.
#[derive(Clone, Copy, Debug, PartialEq, Eq)]
pub struct AppendStep {
    /// The file is over the limit (written before rotation existed): keep only its last `limit` bytes.
    pub trim_to_tail: bool,
    /// The file is full: archive it and start an empty one.
    pub rotate: bool,
    /// How many of the remaining bytes go into the file now.
    pub take: usize,
}

pub open spec fn size_after_trim(size: usize, limit: usize) -> int {
    if size > limit { limit as int } else { size as int }
}

/// The next step of appending `remaining` bytes to a file of `size` bytes:
/// a file over the limit is cut to its tail, a full file is archived when
/// there is something to write, and as much is taken as fits.
pub open spec fn planned_step(size: usize, limit: usize, remaining: usize) -> AppendStep {
    let rotate = remaining > 0 && size_after_trim(size, limit) == limit;
    let room = limit - (if rotate { 0 } else { size_after_trim(size, limit) });
    AppendStep {
        trim_to_tail: size > limit,
        rotate,
        take: (if remaining == 0 { 0 } else if remaining < room { remaining as int } else { room }) as usize,
    }
}

pub fn append_step(size: usize, limit: usize, remaining: usize) -> (r: AppendStep)
    requires
        limit > 0,
    ensures
        r == planned_step(size, limit, remaining),
{
    let trim = size > limit;
    let current = if trim { limit } else { size };
    if remaining == 0 {
        return AppendStep { trim_to_tail: trim, rotate: false, take: 0 };
    }
    let rotate = current == limit;
    let room = if rotate { limit } else { limit - current };
    let take = if remaining < room { remaining } else { room };
    AppendStep { trim_to_tail: trim, rotate, take }
}

pub open spec fn archive_name(path: Seq<char>, index: nat) -> Seq<char> {
    path + seq!['.'] + decimal(index)
}

/// The path of archive `index` of the log at `path`.
pub fn archive(path: &str, index: usize) -> (r: String)
    ensures
        r@ == archive_name(path@, index as nat),
{
    let r = String::from_str(path).concat(".").concat(decimal_string(index as u64).as_str());
    proof {
        reveal_strlit(".");
    }
    r
}

/// The renames of a rotation, oldest archive first: each archive moves one
/// place up (the last one is overwritten), then the active file becomes the
/// first archive.
pub open spec fn rotation_renames(path: Seq<char>) -> Seq<(Seq<char>, Seq<char>)> {
    seq![
        (archive_name(path, 2), archive_name(path, 3)),
        (archive_name(path, 1), archive_name(path, 2)),
        (path, archive_name(path, 1)),
    ]
}

pub fn rotation(path: &str) -> (r: Vec<(String, String)>)
    ensures
        r@.len() == 3,
        forall|i: int| 0 <= i < 3 ==> (#[trigger] r@[i]).0@ == rotation_renames(path@)[i].0 && r@[i].1@
            == rotation_renames(path@)[i].1,
{
    let mut out: Vec<(String, String)> = Vec::new();
    out.push((archive(path, 2), archive(path, 3)));
    out.push((archive(path, 1), archive(path, 2)));
    out.push((String::from_str(path), archive(path, 1)));
    out
}

/// After a step the file holds no more than the limit, and every byte of a
/// non-empty write that fits is taken in order.
pub proof fn law_file_stays_within_limit(size: usize, limit: usize, remaining: usize)
    requires
        limit > 0,
    ensures
        ({
            let step = planned_step(size, limit, remaining);
            &&& (if step.rotate { 0 } else { size_after_trim(size, limit) }) + step.take <= limit
            &&& remaining > 0 ==> step.take > 0
            &&& step.take <= remaining
        }),
{
}

} // verus!
