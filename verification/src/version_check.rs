//! Version verification.
//!
//! The located binary reports its version on its short-version flag; the
//! verifier asserts that the expected version, with any leading
//! version-prefix character stripped, is a substring of that report.
//! Substring match, not equality, because the report may surround the bare
//! version number with build metadata.

use vstd::prelude::*;

use crate::errors::PipelineError;
use crate::strutil::{contains_substr, is_substring, strip_v, strip_version_prefix};

verus! {

/// Whether a captured version report satisfies the expected version: the
/// expected string, stripped of its leading prefix characters, occurs in
/// the report.
pub open spec fn version_accepted(expected_version: Seq<char>, output: Seq<char>) -> bool {
    is_substring(strip_v(expected_version), output)
}

/// Checks the captured short-version output against the expected version,
/// treating the expected string alike with or without its leading prefix
/// character; on mismatch the error carries both strings.
pub fn check_version_output(expected_version: &str, output: &str) -> (r: Result<
    (),
    PipelineError,
>)
    ensures
        r is Ok <==> version_accepted(expected_version@, output@),
        r matches Err(e) ==> e matches PipelineError::VersionMismatch { expected, actual }
            && expected@ == strip_v(expected_version@) && actual@ == output@,
{
    let stripped = strip_version_prefix(expected_version);
    if contains_substr(output, stripped) {
        Ok(())
    } else {
        Err(
            PipelineError::VersionMismatch {
                expected: String::from_str(stripped),
                actual: String::from_str(output),
            },
        )
    }
}

} // verus!
