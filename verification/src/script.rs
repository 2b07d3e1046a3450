//! Profile scripts: the stored drafts and the limits that bound what a
//! script run may take in and give back.
use vstd::prelude::*;

use crate::domain::{AppError, ErrorCode};

verus! {

pub const CAPABILITY: &'static str = "profile_scripts_v1";

pub const TEMPLATE: &'static str = "function main(config, profileName, context) {\n  // Modify the configuration, then return it.\n  return config;\n}\n";

/// The largest script source, in bytes of UTF-8.
pub const SOURCE_LIMIT: usize = 262144;

/// The largest request handed to the script worker, in bytes.
pub const WIRE_LIMIT: usize = 12582912;

/// The largest worker response and preview, in bytes.
pub const OUTPUT_LIMIT: usize = 8388608;

/// A profile's script: the draft being edited and the version in effect.
/// Editing or saving a draft never changes the enabled version.
#[derive(Clone, Debug, Default, PartialEq, Eq)]
pub struct ProfileScript {
    pub draft: String,
    pub active: Option<String>,
}

/// What a script run produced: the transformed configuration and its log lines.
#[derive(Clone, Debug, PartialEq, Eq)]
pub struct ScriptPreview {
    pub yaml: String,
    pub logs: Vec<String>,
}

/// The length of a text in bytes of UTF-8.
pub open spec fn utf8_len(s: Seq<char>) -> nat {
    vstd::utf8::encode_utf8(s).len()
}

pub open spec fn is_script_error(e: AppError, message: Seq<char>) -> bool {
    e.code == ErrorCode::ValidationFailed && e.message@ == message
}

/// A script source is accepted up to `SOURCE_LIMIT` bytes.
pub fn validate_source(source: &str) -> (r: Result<(), AppError>)
    ensures
        r is Ok <==> utf8_len(source@) <= SOURCE_LIMIT,
        r matches Err(e) ==> is_script_error(e, "Script exceeds 256 KiB"@),
{
    if source.as_bytes().len() > SOURCE_LIMIT {
        return Err(AppError::new(ErrorCode::ValidationFailed, "Script exceeds 256 KiB"));
    }
    Ok(())
}

/// Every source of a run is checked before the run starts; the first one
/// over the limit decides the error.
pub fn validate_sources(sources: &Vec<String>) -> (r: Result<(), AppError>)
    ensures
        r is Ok <==> forall|i: int| 0 <= i < sources@.len() ==> utf8_len(#[trigger] sources@[i]@)
            <= SOURCE_LIMIT,
        r matches Err(e) ==> is_script_error(e, "Script exceeds 256 KiB"@),
{
    let mut i: usize = 0;
    while i < sources.len()
        invariant
            i <= sources@.len(),
            forall|j: int| 0 <= j < i ==> utf8_len(#[trigger] sources@[j]@) <= SOURCE_LIMIT,
        decreases sources.len() - i,
    {
        validate_source(sources[i].as_str())?;
        i = i + 1;
    }
    Ok(())
}

/// The serialized request to the worker is bounded by `WIRE_LIMIT` bytes.
pub fn check_worker_input(bytes: usize) -> (r: Result<(), AppError>)
    ensures
        r is Ok <==> bytes <= WIRE_LIMIT,
        r matches Err(e) ==> is_script_error(e, "Script input exceeds 12 MiB"@),
{
    if bytes > WIRE_LIMIT {
        return Err(AppError::new(ErrorCode::ValidationFailed, "Script input exceeds 12 MiB"));
    }
    Ok(())
}

/// The worker's raw output is bounded by `OUTPUT_LIMIT` bytes.
pub fn check_worker_output(bytes: usize) -> (r: Result<(), AppError>)
    ensures
        r is Ok <==> bytes <= OUTPUT_LIMIT,
        r matches Err(e) ==> is_script_error(e, "Script output exceeds 8 MiB"@),
{
    if bytes > OUTPUT_LIMIT {
        return Err(AppError::new(ErrorCode::ValidationFailed, "Script output exceeds 8 MiB"));
    }
    Ok(())
}

/// The serialized preview is bounded by `OUTPUT_LIMIT` bytes.
pub fn check_preview(bytes: usize) -> (r: Result<(), AppError>)
    ensures
        r is Ok <==> bytes <= OUTPUT_LIMIT,
        r matches Err(e) ==> is_script_error(e, "Script preview exceeds 8 MiB"@),
{
    if bytes > OUTPUT_LIMIT {
        return Err(AppError::new(ErrorCode::ValidationFailed, "Script preview exceeds 8 MiB"));
    }
    Ok(())
}

} // verus!
