//! What it means for a byte sequence to be all zero, and the checks
//! and lemmas the classifier builds on.

use vstd::prelude::*;

verus! {

/// Every byte of `s` equals zero.
pub open spec fn all_zero(s: Seq<u8>) -> bool {
    forall|i: int| 0 <= i < s.len() ==> s[i] == 0u8
}

/// A sequence holding one non-zero byte, wherever it stands, is not
/// all zero.
pub proof fn lemma_nonzero_byte_rejects(s: Seq<u8>, i: int)
    requires
        0 <= i < s.len(),
        s[i] != 0u8,
    ensures
        !all_zero(s),
{
}

/// A prefix holding a non-zero byte already decides the whole
/// sequence: it is not all zero either.
pub proof fn lemma_prefix_decides(s: Seq<u8>, n: int)
    requires
        0 <= n <= s.len(),
        !all_zero(s.take(n)),
    ensures
        !all_zero(s),
{
    let p = s.take(n);
    let i = choose|i: int| 0 <= i < p.len() && p[i] != 0u8;
    assert(s[i] == p[i]);
}

/// Checks that the first `n` bytes of `buf` are all zero.
pub fn prefix_all_zero(buf: &[u8], n: usize) -> (r: bool)
    requires
        n <= buf@.len(),
    ensures
        r == all_zero(buf@.take(n as int)),
{
    let mut i: usize = 0;
    while i < n
        invariant
            i <= n <= buf@.len(),
            forall|j: int| 0 <= j < i ==> buf@[j] == 0u8,
        decreases n - i,
    {
        if *vstd::slice::slice_index_get(buf, i) != 0u8 {
            assert(buf@.take(n as int)[i as int] != 0u8);
            return false;
        }
        i += 1;
    }
    true
}

} // verus!
