//! Version extraction support: the rendering of a module's fixed version
//! quadruple; reading the version resource itself is platform work that
//! stays with the embedding application.

use crate::strfmt::{append_dec_u64, push_char, spec_dec};
use vstd::prelude::*;

verus! {

/// Errors that can occur when extracting version information.
#[derive(Debug, Clone)]
pub enum VersionError {
    /// The file could not be read or accessed.
    IoError(String),
    /// The file carries no version information.
    NoVersionInfo,
    /// The version information could not be parsed.
    ParseError,
}

/// The descriptive text of a version error.
pub open spec fn version_error_text(e: VersionError) -> Seq<char> {
    match e {
        VersionError::IoError(m) => "Failed to read file: "@ + m@,
        VersionError::NoVersionInfo => "No version info found"@,
        VersionError::ParseError => "Failed to parse version info"@,
    }
}

impl VersionError {
    /// Renders the error for logs and operators.
    pub fn message(&self) -> (r: String)
        ensures
            r@ == version_error_text(*self),
    {
        let mut out = String::new();
        match self {
            VersionError::IoError(m) => {
                out.append("Failed to read file: ");
                out.append(m.as_str());
            },
            VersionError::NoVersionInfo => {
                out.append("No version info found");
            },
            VersionError::ParseError => {
                out.append("Failed to parse version info");
            },
        }
        out
    }
}

/// The `major.minor.build.revision` rendering of the two 32-bit halves of
/// a fixed version record: each half holds two 16-bit components.
pub open spec fn spec_file_version(ms: u32, ls: u32) -> Seq<char> {
    spec_dec(ms as int / 65536) + seq!['.'] + spec_dec(ms as int % 65536) + seq!['.'] + spec_dec(
        ls as int / 65536,
    ) + seq!['.'] + spec_dec(ls as int % 65536)
}

/// Renders the four 16-bit components of a fixed version record as
/// `major.minor.build.revision`.
pub fn format_file_version(ms: u32, ls: u32) -> (r: String)
    ensures
        r@ == spec_file_version(ms, ls),
{
    let mut out = String::new();
    append_dec_u64(&mut out, (ms / 65536) as u64);
    push_char(&mut out, '.');
    append_dec_u64(&mut out, (ms % 65536) as u64);
    push_char(&mut out, '.');
    append_dec_u64(&mut out, (ls / 65536) as u64);
    push_char(&mut out, '.');
    append_dec_u64(&mut out, (ls % 65536) as u64);
    assert(out@ =~= spec_file_version(ms, ls));
    out
}

} // verus!
