//! Binary location inside the unpacked archive tree.
//!
//! The caller walks the extraction directory and hands the entries over in
//! walk order; the locator returns the path of the first entry that is a
//! regular file with the expected executable name, or fails naming the
//! missing filename and the searched root. Directories never match.

use vstd::prelude::*;

use crate::errors::PipelineError;
use crate::strutil::str_eq;

verus! {

/// One entry of the recursive directory walk, in the order the walk
/// surfaced it: its full path, its final filename component, and whether it
/// is a regular file (directories, links to directories and special files
/// are not).
pub struct WalkEntry {
    pub path: String,
    pub name: String,
    pub is_file: bool,
}

/// The fixed base name of the packaged executable.
pub open spec fn binary_base_name() -> Seq<char> {
    seq!['n', 'o', 'i', 'r', '-', 'l', 'i', 'b', 's']
}

/// Whether a walk entry is the packaged executable: a regular file whose
/// filename equals the target name exactly.
pub open spec fn entry_matches(e: WalkEntry, target: Seq<char>) -> bool {
    e.is_file && e.name@ == target
}

/// The expected executable filename: the fixed base name with the
/// platform's native executable suffix appended (empty on POSIX-like
/// platforms).
pub fn expected_binary_name(exe_suffix: &str) -> (r: String)
    ensures
        r@ == binary_base_name() + exe_suffix@,
{
    let mut name = String::from_str("noir-libs");
    proof {
        reveal_strlit("noir-libs");
        assert(name@ =~= binary_base_name());
    }
    name.append(exe_suffix);
    name
}

/// Returns the path of the first walk entry that matches the target
/// executable name; with no match anywhere, fails naming the expected
/// filename and the searched root.
pub fn locate(entries: &Vec<WalkEntry>, target: &str, root: &str) -> (r: Result<
    String,
    PipelineError,
>)
    ensures
        match r {
            Ok(path) => exists|i: int|
                0 <= i < entries@.len() && #[trigger] entry_matches(entries@[i], target@) && path@
                    == entries@[i].path@ && (forall|j: int|
                    0 <= j < i ==> !entry_matches(#[trigger] entries@[j], target@)),
            Err(e) => (forall|i: int|
                0 <= i < entries@.len() ==> !entry_matches(#[trigger] entries@[i], target@)) && (
            e matches PipelineError::BinaryNotFound { expected_name, root: searched }
                && expected_name@ == target@ && searched@ == root@),
        },
{
    let n = entries.len();
    let mut i: usize = 0;
    while i < n
        invariant
            n == entries@.len(),
            i <= n,
            forall|j: int| 0 <= j < i ==> !entry_matches(#[trigger] entries@[j], target@),
        decreases n - i,
    {
        let e = &entries[i];
        if e.is_file && str_eq(e.name.as_str(), target) {
            proof {
                assert(entry_matches(entries@[i as int], target@));
            }
            return Ok(e.path.clone());
        }
        i = i + 1;
    }
    Err(
        PipelineError::BinaryNotFound {
            expected_name: String::from_str(target),
            root: String::from_str(root),
        },
    )
}

} // verus!
