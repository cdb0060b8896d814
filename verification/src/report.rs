//! Turns the classified candidates into what the operator sees: the
//! reported paths in a fixed order, the list of files to remove, and
//! the two diagnostic lines.

use vstd::prelude::*;

use crate::digits::{spec_dec, u64_to_dec};

verus! {

/// The paths classified all-zero, kept in the order the candidate
/// list gave them.
pub open spec fn spec_select(paths: Seq<String>, zero: Seq<bool>) -> Seq<String>
    recommends
        paths.len() == zero.len(),
    decreases paths.len(),
{
    if paths.len() == 0 {
        Seq::empty()
    } else {
        let rest = spec_select(paths.drop_last(), zero.drop_last());
        if zero.last() {
            rest.push(paths.last())
        } else {
            rest
        }
    }
}

/// No more paths come out of the selection than candidates went in.
pub proof fn lemma_select_count_bound(paths: Seq<String>, zero: Seq<bool>)
    requires
        paths.len() == zero.len(),
    ensures
        spec_select(paths, zero).len() <= paths.len(),
    decreases paths.len(),
{
    if paths.len() > 0 {
        lemma_select_count_bound(paths.drop_last(), zero.drop_last());
    }
}

/// The selection is a function of the candidate list and the verdicts
/// alone: two runs over an unchanged tree report the same paths.
pub proof fn lemma_select_deterministic(
    paths: Seq<String>,
    zero: Seq<bool>,
    first: Seq<String>,
    second: Seq<String>,
)
    requires
        first == spec_select(paths, zero),
        second == spec_select(paths, zero),
    ensures
        first == second,
{
}

/// Collects the paths whose verdict is all-zero, in candidate order.
pub fn select_zero(paths: &Vec<String>, zero: &Vec<bool>) -> (r: Vec<String>)
    requires
        paths@.len() == zero@.len(),
    ensures
        r@ == spec_select(paths@, zero@),
        r@.len() <= paths@.len(),
{
    let mut out: Vec<String> = Vec::new();
    let mut i: usize = 0;
    proof {
        assert(paths@.take(0) =~= Seq::<String>::empty());
    }
    while i < paths.len()
        invariant
            i <= paths@.len() == zero@.len(),
            out@ == spec_select(paths@.take(i as int), zero@.take(i as int)),
            out@.len() <= i,
        decreases paths@.len() - i,
    {
        let ghost p1 = paths@.take(i + 1);
        let ghost z1 = zero@.take(i + 1);
        proof {
            assert(p1.drop_last() =~= paths@.take(i as int));
            assert(z1.drop_last() =~= zero@.take(i as int));
        }
        if zero[i] {
            out.push(paths[i].clone());
        }
        i += 1;
    }
    proof {
        assert(paths@.take(paths@.len() as int) =~= paths@);
        assert(zero@.take(zero@.len() as int) =~= zero@);
    }
    out
}

/// The diagnostic line reporting how many candidates were found.
pub open spec fn spec_found_line(n: nat) -> Seq<char> {
    "Found "@ + spec_dec(n) + " files to consider"@
}

/// The closing diagnostic line: `k` all-zero files out of `n`
/// candidates.
pub open spec fn spec_summary_line(k: nat, n: nat) -> Seq<char> {
    spec_dec(k) + " zero-byte files out of "@ + spec_dec(n)
}

/// Renders the candidate-count line.
pub fn found_line(n: u64) -> (s: String)
    ensures
        s@ == spec_found_line(n as nat),
{
    let mut s = String::from_str("Found ");
    let middle = u64_to_dec(n);
    s.append(middle.as_str());
    s.append(" files to consider");
    s
}

/// Renders the summary line.
pub fn summary_line(k: u64, n: u64) -> (s: String)
    ensures
        s@ == spec_summary_line(k as nat, n as nat),
{
    let mut s = u64_to_dec(k);
    s.append(" zero-byte files out of ");
    let tail = u64_to_dec(n);
    s.append(tail.as_str());
    s
}

/// Everything a run reports once classification is done.
pub struct ScanReport {
    /// The all-zero paths, in candidate order: one line of the primary
    /// output each.
    pub zero_paths: Vec<String>,
    /// The paths to remove from disk: the reported ones when deletion
    /// was asked for, none otherwise.
    pub to_delete: Vec<String>,
    /// The closing diagnostic line.
    pub summary: String,
}

/// Assembles the report for a run: `paths` are the candidates, in
/// enumeration order, and `zero[i]` says whether `paths[i]` was
/// classified all-zero.
pub fn report(paths: &Vec<String>, zero: &Vec<bool>, delete: bool) -> (r: ScanReport)
    requires
        paths@.len() == zero@.len(),
    ensures
        r.zero_paths@ == spec_select(paths@, zero@),
        r.to_delete@ == if delete {
            spec_select(paths@, zero@)
        } else {
            Seq::<String>::empty()
        },
        r.summary@ == spec_summary_line(
            spec_select(paths@, zero@).len(),
            paths@.len(),
        ),
        r.zero_paths@.len() <= paths@.len(),
{
    let zero_paths = select_zero(paths, zero);
    let to_delete = if delete {
        select_zero(paths, zero)
    } else {
        Vec::new()
    };
    let summary = summary_line(zero_paths.len() as u64, paths.len() as u64);
    ScanReport { zero_paths, to_delete, summary }
}

} // verus!
