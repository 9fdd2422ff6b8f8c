//! Archive format dispatch.
//!
//! The format is detected from the archive's filename alone: a name ending
//! in `.tar.gz` (case-sensitive) is handed to the tape-archive tool with
//! gzip decompression; every other name is handed to the general-purpose
//! archive tool. This is a closed two-way branch, not a format sniffer.

use vstd::prelude::*;

verus! {

/// Which external decompression tool an archive is dispatched to.
#[derive(PartialEq, Eq, Structural, Clone, Copy, Debug)]
pub enum ArchiveTool {
    /// Tape-archive utility with gzip decompression, for `.tar.gz` names.
    TarGzip,
    /// General-purpose archive utility with overwrite-without-prompting
    /// semantics, for every other name.
    General,
}

/// The suffix that selects the tape-archive tool.
pub open spec fn tar_gz_suffix() -> Seq<char> {
    seq!['.', 't', 'a', 'r', '.', 'g', 'z']
}

/// Whether a filename ends in `.tar.gz`.
pub open spec fn is_tar_gz_name(name: Seq<char>) -> bool {
    name.len() >= tar_gz_suffix().len() && name.subrange(
        name.len() - tar_gz_suffix().len(),
        name.len() as int,
    ) == tar_gz_suffix()
}

/// The tool that a filename is dispatched to: the tape-archive tool for
/// every name ending in `.tar.gz`, the general tool for every other name.
pub open spec fn tool_for(name: Seq<char>) -> ArchiveTool {
    if is_tar_gz_name(name) {
        ArchiveTool::TarGzip
    } else {
        ArchiveTool::General
    }
}

/// Detects the archive format from the filename suffix and picks the tool.
pub fn select_tool(archive_name: &str) -> (t: ArchiveTool)
    ensures
        t == tool_for(archive_name@),
        t == ArchiveTool::TarGzip <==> is_tar_gz_name(archive_name@),
{
    let n = archive_name.unicode_len();
    if n < 7 {
        return ArchiveTool::General;
    }
    let c0 = archive_name.get_char(n - 7);
    let c1 = archive_name.get_char(n - 6);
    let c2 = archive_name.get_char(n - 5);
    let c3 = archive_name.get_char(n - 4);
    let c4 = archive_name.get_char(n - 3);
    let c5 = archive_name.get_char(n - 2);
    let c6 = archive_name.get_char(n - 1);
    let is_suffix = c0 == '.' && c1 == 't' && c2 == 'a' && c3 == 'r' && c4 == '.' && c5 == 'g'
        && c6 == 'z';
    proof {
        let tail = archive_name@.subrange(
            archive_name@.len() - tar_gz_suffix().len(),
            archive_name@.len() as int,
        );
        if is_suffix {
            assert(tail =~= tar_gz_suffix());
        } else {
            assert(tail != tar_gz_suffix());
        }
    }
    if is_suffix {
        ArchiveTool::TarGzip
    } else {
        ArchiveTool::General
    }
}

} // verus!
