//! Release-verification smoke test for a packaged command-line tool.
//!
//! The pipeline unpacks a release archive, locates the packaged executable
//! inside the unpacked tree, confirms that it reports the expected version,
//! and exercises its scaffold/build/test workflow. This crate holds the
//! decision logic of that pipeline; the surrounding process and filesystem
//! work is done by the caller, which feeds the observed outcomes back in.

use vstd::prelude::*;

pub mod errors;
pub mod extractor;
pub mod locator;
pub mod pipeline;
pub mod strutil;
pub mod version_check;

verus! {

/// The two inputs of a verification run: the path of the release archive
/// and the version string the packaged executable is expected to report.
pub struct Args {
    pub archive: String,
    pub expected_version: String,
}

} // verus!
