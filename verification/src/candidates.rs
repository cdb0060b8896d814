//! Which directory entries the scan considers at all.

use vstd::prelude::*;

verus! {

/// An entry is a candidate when it is a regular file whose reported
/// size is greater than zero. Directories, links and other special
/// entries are skipped, and so are empty files: a file without bytes
/// has no zero byte in it to find.
pub open spec fn spec_is_candidate(is_regular_file: bool, size: u64) -> bool {
    is_regular_file && size > 0
}

/// Decides whether one enumerated entry joins the candidate set.
pub fn is_candidate(is_regular_file: bool, size: u64) -> (r: bool)
    ensures
        r == spec_is_candidate(is_regular_file, size),
{
    is_regular_file && size > 0
}

/// A file of size zero is never a candidate, so it is never
/// classified and never reported.
pub proof fn lemma_size_zero_excluded(is_regular_file: bool)
    ensures
        !spec_is_candidate(is_regular_file, 0),
{
}

} // verus!
