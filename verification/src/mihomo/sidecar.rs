//! The manifest of the bundled Mihomo core and the digests that its
//! downloaded artifacts must match.
use vstd::prelude::*;

use crate::digest::{
    ascii_lower, hex_lower, hex_of, is_sha256_hex, is_sha256_text, sha256, sha256_digest,
    to_ascii_lower,
};
use crate::domain::{AppError, ErrorCode};
use crate::text::{decimal, decimal_string, is_prefix, lemma_trimmed_unique, starts_with, str_eq, trim, trimmed_of};

verus! {

#[derive(Clone, Debug, PartialEq, Eq)]
pub struct SidecarTarget {
    pub asset: String,
    pub download_url: String,
    pub archive_sha256: String,
    pub executable_sha256: String,
}

/// The release manifest; `targets` maps target triples to their assets, in
/// ascending order of the triple.
#[derive(Clone, Debug, PartialEq, Eq)]
pub struct SidecarManifest {
    pub schema_version: u32,
    pub version: String,
    pub release_url: String,
    pub targets: Vec<(String, SidecarTarget)>,
}

/// No target triple occurs twice.
pub open spec fn targets_unique(t: Seq<(String, SidecarTarget)>) -> bool {
    forall|a: int, b: int| 0 <= a < b < t.len() ==> #[trigger] t[a].0@ != #[trigger] t[b].0@
}

/// The targets as a map from triple to asset; a later entry for a triple
/// replaces an earlier one.
pub open spec fn targets_map(t: Seq<(String, SidecarTarget)>) -> Map<Seq<char>, SidecarTarget>
    decreases t.len(),
{
    if t.len() == 0 {
        Map::empty()
    } else {
        targets_map(t.drop_last()).insert(t.last().0@, t.last().1)
    }
}

proof fn lemma_update_unique(t: Seq<(String, SidecarTarget)>, j: int, e: (String, SidecarTarget))
    requires
        targets_unique(t),
        0 <= j < t.len(),
        t[j].0@ == e.0@,
    ensures
        targets_unique(t.update(j, e)),
        targets_map(t.update(j, e)) == targets_map(t).insert(e.0@, e.1),
    decreases t.len(),
{
    let u = t.update(j, e);
    assert forall|a: int, b: int| 0 <= a < b < u.len() implies #[trigger] u[a].0@ != #[trigger] u[b].0@ by {
        assert(t[a].0@ != t[b].0@);
    }
    if j == t.len() - 1 {
        assert(u.drop_last() =~= t.drop_last());
        assert(targets_map(u) =~= targets_map(t).insert(e.0@, e.1));
    } else {
        let d = t.drop_last();
        assert(targets_unique(d)) by {
            assert forall|a: int, b: int| 0 <= a < b < d.len() implies #[trigger] d[a].0@ != #[trigger] d[b].0@ by {
                assert(t[a].0@ != t[b].0@);
            }
        }
        lemma_update_unique(d, j, e);
        assert(u.drop_last() =~= d.update(j, e));
        assert(t.last().0@ != e.0@) by {
            assert(t[j].0@ != t[t.len() - 1].0@);
        }
        assert(targets_map(u) =~= targets_map(t).insert(e.0@, e.1));
    }
}

/// With unique triples, each entry is what the map holds for its triple.
proof fn lemma_targets_map_entry(t: Seq<(String, SidecarTarget)>, i: int)
    requires
        targets_unique(t),
        0 <= i < t.len(),
    ensures
        targets_map(t).contains_key(t[i].0@),
        targets_map(t)[t[i].0@] == t[i].1,
    decreases t.len(),
{
    if i < t.len() - 1 {
        let d = t.drop_last();
        assert(targets_unique(d)) by {
            assert forall|a: int, b: int| 0 <= a < b < d.len() implies #[trigger] d[a].0@ != #[trigger] d[b].0@ by {
                assert(t[a].0@ != t[b].0@);
            }
        }
        assert(d[i] == t[i]);
        lemma_targets_map_entry(d, i);
        assert(t[i].0@ != t[t.len() - 1].0@);
    }
}

/// The map holds only the triples of the entries.
proof fn lemma_targets_map_keys(t: Seq<(String, SidecarTarget)>, name: Seq<char>)
    requires
        targets_map(t).contains_key(name),
    ensures
        exists|i: int| 0 <= i < t.len() && #[trigger] t[i].0@ == name,
    decreases t.len(),
{
    if t.len() > 0 && t.last().0@ != name {
        let d = t.drop_last();
        lemma_targets_map_keys(d, name);
        let i = choose|i: int| 0 <= i < d.len() && #[trigger] d[i].0@ == name;
        assert(t[i] == d[i]);
    } else if t.len() > 0 {
        assert(t[t.len() - 1].0@ == name);
    }
}

/// The first index whose triple is `name`.
fn find_target(t: &Vec<(String, SidecarTarget)>, name: &str) -> (r: Option<usize>)
    ensures
        r matches Some(j) ==> j < t@.len() && t@[j as int].0@ == name@,
        r is None ==> forall|a: int| 0 <= a < t@.len() ==> t@[a].0@ != name@,
{
    let mut i: usize = 0;
    while i < t.len()
        invariant
            i <= t@.len(),
            forall|a: int| 0 <= a < i ==> t@[a].0@ != name@,
        decreases t.len() - i,
    {
        if str_eq(t[i].0.as_str(), name) {
            return Some(i);
        }
        i = i + 1;
    }
    None
}

/// Where an installed artifact now lives, and the artifact it replaced.
#[derive(Clone, Debug, PartialEq, Eq)]
pub struct ArtifactInstall {
    pub active: String,
    pub previous: Option<String>,
}

pub open spec fn release_prefix() -> Seq<char> {
    "https://github.com/MetaCubeX/mihomo/releases/"@
}

pub open spec fn target_ok(t: SidecarTarget) -> bool {
    is_sha256_text(t.archive_sha256@) && is_sha256_text(t.executable_sha256@) && is_prefix(
        release_prefix(),
        t.download_url@,
    )
}

/// The error that an invalid target is reported with.
pub open spec fn target_error(t: SidecarTarget, e: AppError) -> bool {
    &&& e.code == ErrorCode::CoreUnavailable
    &&& if !is_sha256_text(t.archive_sha256@) || !is_sha256_text(t.executable_sha256@) {
        e.message@ == "Mihomo manifest contains an invalid SHA-256"@
    } else {
        e.message@ == "Mihomo asset URL is not an official GitHub release URL"@
    }
}

pub open spec fn blank(s: Seq<char>) -> bool {
    forall|t: Seq<char>| trimmed_of(s, t) ==> t.len() == 0
}

pub open spec fn manifest_header_ok(m: SidecarManifest) -> bool {
    m.schema_version == 1 && !blank(m.version@) && m.targets@.len() > 0
}

pub open spec fn manifest_ok(m: SidecarManifest) -> bool {
    manifest_header_ok(m) && forall|i: int| 0 <= i < m.targets@.len() ==> target_ok(#[trigger] m.targets@[i].1)
}

/// Whether a string is empty once white space is trimmed.
pub fn is_blank_text(s: &str) -> (r: bool)
    ensures
        r == blank(s@),
{
    let t = trim(s);
    let r = t.as_str().unicode_len() == 0;
    assert forall|u: Seq<char>| trimmed_of(s@, u) implies (u.len() == 0) == r by {
        lemma_trimmed_unique(s@, t@, u);
    }
    r
}

/// Checks that text is a SHA-256 digest in hexadecimal.
pub fn validate_sha256(value: &str) -> (r: Result<(), AppError>)
    ensures
        r is Ok <==> is_sha256_text(value@),
        r matches Err(e) ==> e.code == ErrorCode::CoreUnavailable && e.message@
            == "Mihomo manifest contains an invalid SHA-256"@,
{
    if is_sha256_hex(value) {
        Ok(())
    } else {
        Err(AppError::new(ErrorCode::CoreUnavailable, "Mihomo manifest contains an invalid SHA-256"))
    }
}

fn validate_target(t: &SidecarTarget) -> (r: Result<(), AppError>)
    ensures
        r is Ok <==> target_ok(*t),
        r matches Err(e) ==> target_error(*t, e),
{
    validate_sha256(t.archive_sha256.as_str())?;
    validate_sha256(t.executable_sha256.as_str())?;
    if !starts_with(t.download_url.as_str(), "https://github.com/MetaCubeX/mihomo/releases/") {
        return Err(AppError::new(ErrorCode::CoreUnavailable, "Mihomo asset URL is not an official GitHub release URL"));
    }
    Ok(())
}

impl SidecarManifest {
    /// Checks the schema version, that there is a version and a target, and
    /// each target's digests and download URL, in order.
    #[verifier::loop_isolation(false)]
    pub fn validate(&self) -> (r: Result<(), AppError>)
        ensures
            r is Ok <==> manifest_ok(*self),
            r matches Err(e) ==> e.code == ErrorCode::CoreUnavailable,
            self.schema_version != 1 ==> (r matches Err(e) && e.message@
                == "unsupported Mihomo manifest schema version: "@ + decimal(
                self.schema_version as nat,
            )),
            self.schema_version == 1 && (blank(self.version@) || self.targets@.len() == 0) ==> (r matches Err(e)
                && e.message@ == "Mihomo manifest has no version or targets"@),
            manifest_header_ok(*self) && r is Err ==> exists|i: int|
                0 <= i < self.targets@.len() && !target_ok(#[trigger] self.targets@[i].1) && (forall|
                    j: int,
                | 0 <= j < i ==> target_ok(self.targets@[j].1)) && (r matches Err(e) && target_error(
                    self.targets@[i].1,
                    e,
                )),
    {
        if self.schema_version != 1 {
            let message = String::from_str("unsupported Mihomo manifest schema version: ").concat(
                decimal_string(self.schema_version as u64).as_str(),
            );
            return Err(AppError::with_message(ErrorCode::CoreUnavailable, message));
        }
        if is_blank_text(self.version.as_str()) || self.targets.len() == 0 {
            return Err(AppError::new(ErrorCode::CoreUnavailable, "Mihomo manifest has no version or targets"));
        }
        let mut i: usize = 0;
        while i < self.targets.len()
            invariant
                i <= self.targets@.len(),
                forall|j: int| 0 <= j < i ==> target_ok(#[trigger] self.targets@[j].1),
            decreases self.targets.len() - i,
        {
            match validate_target(&self.targets[i].1) {
                Ok(()) => {},
                Err(e) => {
                    assert(!target_ok(self.targets@[i as int].1));
                    return Err(e);
                },
            }
            i = i + 1;
        }
        Ok(())
    }

    /// A manifest whose targets are `entries` as a map: one entry per target
    /// triple, where a later entry for a triple replaces the earlier one.
    pub fn from_targets(
        schema_version: u32,
        version: String,
        release_url: String,
        entries: Vec<(String, SidecarTarget)>,
    ) -> (m: SidecarManifest)
        ensures
            m.schema_version == schema_version,
            m.version == version,
            m.release_url == release_url,
            targets_unique(m.targets@),
            targets_map(m.targets@) == targets_map(entries@),
    {
        let ghost all = entries@;
        let n = entries.len();
        let mut rest = entries;
        let mut out: Vec<(String, SidecarTarget)> = Vec::new();
        let mut i: usize = 0;
        assert(all.take(0) =~= Seq::<(String, SidecarTarget)>::empty());
        assert(all.skip(0) =~= all);
        while rest.len() > 0
            invariant
                n == all.len(),
                i <= n,
                rest@ == all.skip(i as int),
                targets_unique(out@),
                targets_map(out@) == targets_map(all.take(i as int)),
            decreases rest.len(),
        {
            let pair = rest.remove(0);
            assert(pair == all[i as int]);
            assert(all.take(i + 1) =~= all.take(i as int).push(pair));
            assert(all.take(i + 1).drop_last() =~= all.take(i as int));
            assert(rest@ =~= all.skip(i + 1));
            match find_target(&out, pair.0.as_str()) {
                Some(j) => {
                    proof {
                        lemma_update_unique(out@, j as int, pair);
                    }
                    out.set(j, pair);
                },
                None => {
                    let ghost pushed = out@.push(pair);
                    assert(targets_unique(pushed)) by {
                        assert forall|a: int, b: int| 0 <= a < b < pushed.len() implies
                            #[trigger] pushed[a].0@ != #[trigger] pushed[b].0@ by {
                            if b == out@.len() {
                                assert(out@[a].0@ != pair.0@);
                            }
                        }
                    }
                    assert(pushed.drop_last() =~= out@);
                    out.push(pair);
                },
            }
            i = i + 1;
        }
        assert(all.take(i as int) =~= all);
        SidecarManifest { schema_version, version, release_url, targets: out }
    }

    /// The asset of a target triple.
    pub fn target(&self, target: &str) -> (r: Result<&SidecarTarget, AppError>)
        ensures
            r is Ok <==> exists|i: int| 0 <= i < self.targets@.len() && #[trigger] self.targets@[i].0@ == target@,
            r matches Ok(t) ==> exists|i: int|
                0 <= i < self.targets@.len() && self.targets@[i].0@ == target@ && *t == #[trigger] self.targets@[i].1
                && forall|j: int| 0 <= j < i ==> self.targets@[j].0@ != target@,
            r matches Err(e) ==> e.code == ErrorCode::CoreUnavailable && e.message@
                == "Mihomo manifest has no asset for target "@ + target@,
            targets_unique(self.targets@) ==> match r {
                Ok(t) => targets_map(self.targets@).contains_key(target@) && *t == targets_map(self.targets@)[target@],
                Err(_) => !targets_map(self.targets@).contains_key(target@),
            },
    {
        let mut i: usize = 0;
        while i < self.targets.len()
            invariant
                i <= self.targets@.len(),
                forall|j: int| 0 <= j < i ==> self.targets@[j].0@ != target@,
            decreases self.targets.len() - i,
        {
            if str_eq(self.targets[i].0.as_str(), target) {
                proof {
                    if targets_unique(self.targets@) {
                        lemma_targets_map_entry(self.targets@, i as int);
                    }
                }
                return Ok(&self.targets[i].1);
            }
            i = i + 1;
        }
        proof {
            if targets_map(self.targets@).contains_key(target@) {
                lemma_targets_map_keys(self.targets@, target@);
            }
        }
        let message = String::from_str("Mihomo manifest has no asset for target ").concat(target);
        Err(AppError::with_message(ErrorCode::CoreUnavailable, message))
    }
}

/// The error reported when a file's digest is not the expected one.
pub open spec fn mismatch_message(path: Seq<char>, expected: Seq<char>, actual: Seq<char>) -> Seq<char> {
    "Mihomo SHA-256 mismatch for "@ + path + ": expected "@ + expected + ", got "@ + actual
}

/// Compares the SHA-256 of `bytes` (the content of the file at `path`) with
/// the expected hex digest.
pub fn verify_sha256(path: &str, bytes: &[u8], expected: &str) -> (r: Result<(), AppError>)
    ensures
        r is Ok <==> hex_of(sha256(bytes@)) == expected@,
        r matches Err(e) ==> e.code == ErrorCode::CoreUnavailable && e.message@ == mismatch_message(
            path@,
            expected@,
            hex_of(sha256(bytes@)),
        ),
{
    let digest = sha256_digest(bytes);
    let actual = hex_lower(digest.as_slice());
    if str_eq(actual.as_str(), expected) {
        Ok(())
    } else {
        let message = String::from_str("Mihomo SHA-256 mismatch for ").concat(path).concat(
            ": expected ",
        ).concat(expected).concat(", got ").concat(actual.as_str());
        Err(AppError::with_message(ErrorCode::CoreUnavailable, message))
    }
}

impl SidecarTarget {
    /// Checks the downloaded archive (its bytes, read from `path`).
    pub fn verify_archive(&self, path: &str, bytes: &[u8]) -> (r: Result<(), AppError>)
        ensures
            r is Ok <==> hex_of(sha256(bytes@)) == self.archive_sha256@,
            r matches Err(e) ==> e.code == ErrorCode::CoreUnavailable && e.message@ == mismatch_message(
                path@,
                self.archive_sha256@,
                hex_of(sha256(bytes@)),
            ),
    {
        verify_sha256(path, bytes, self.archive_sha256.as_str())
    }

    /// Checks the extracted executable (its bytes, read from `path`).
    pub fn verify_executable(&self, path: &str, bytes: &[u8]) -> (r: Result<(), AppError>)
        ensures
            r is Ok <==> hex_of(sha256(bytes@)) == self.executable_sha256@,
            r matches Err(e) ==> e.code == ErrorCode::CoreUnavailable && e.message@ == mismatch_message(
                path@,
                self.executable_sha256@,
                hex_of(sha256(bytes@)),
            ),
    {
        verify_sha256(path, bytes, self.executable_sha256.as_str())
    }
}

/// Before an artifact is installed: the expected digest must be well formed
/// and equal (ignoring ASCII case) to the digest of the candidate's bytes.
pub fn check_artifact_digest(bytes: &[u8], expected: &str) -> (r: Result<(), AppError>)
    ensures
        r is Ok <==> (is_sha256_text(expected@) && hex_of(sha256(bytes@)) == ascii_lower(expected@)),
        !is_sha256_text(expected@) ==> (r matches Err(e) && e.code == ErrorCode::CoreUnavailable),
        is_sha256_text(expected@) && r is Err ==> (r matches Err(e) && e.code == ErrorCode::ValidationFailed
            && e.message@ == "artifact digest mismatch: expected "@ + expected@ + ", got "@ + hex_of(
            sha256(bytes@),
        )),
{
    validate_sha256(expected)?;
    let digest = sha256_digest(bytes);
    let actual = hex_lower(digest.as_slice());
    let lowered = to_ascii_lower(expected);
    if !str_eq(actual.as_str(), lowered.as_str()) {
        let message = String::from_str("artifact digest mismatch: expected ").concat(expected).concat(
            ", got ",
        ).concat(actual.as_str());
        return Err(AppError::with_message(ErrorCode::ValidationFailed, message));
    }
    Ok(())
}

} // verus!
