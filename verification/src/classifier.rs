//! Classifies a candidate file's content as all-zero or not.
//!
//! The content arrives chunk by chunk, as a driver reads it: first a
//! small probe chunk, then larger bulk chunks until a read comes back
//! empty. A non-zero byte in any chunk settles the question at once,
//! so most files are rejected after the probe alone. The machine below
//! keeps, as ghost state, the bytes fed so far, and its verdict is
//! exactly whether those bytes were all zero.

use vstd::prelude::*;

use crate::zero::{all_zero, lemma_prefix_decides, prefix_all_zero};

verus! {

/// Bytes asked for by the first, probing read.
pub const PROBE_LEN: usize = 64;

/// Bytes asked for by each bulk read after a clean probe.
pub const BULK_LEN: usize = 1024;

/// Where the classification stands.
pub enum Phase {
    /// Waiting for the probe chunk.
    Probe,
    /// Probe was clean; waiting for bulk chunks.
    Bulk,
    /// An empty read ended the file with every byte zero.
    AllZero,
    /// A non-zero byte was seen; no further reads are needed.
    NotAllZero,
}

/// How one fed chunk moves the classification on. `phase` must be a
/// running phase (`Probe` or `Bulk`); an empty chunk means the reader
/// reached the end of the file.
pub open spec fn spec_step(phase: Phase, chunk: Seq<u8>) -> Phase {
    if !all_zero(chunk) {
        Phase::NotAllZero
    } else if phase is Probe {
        Phase::Bulk
    } else if chunk.len() == 0 {
        Phase::AllZero
    } else {
        Phase::Bulk
    }
}

/// The classification of one candidate's content.
pub struct Classifier {
    /// Where the classification stands.
    pub phase: Phase,
    /// The bytes fed so far.
    pub seen: Ghost<Seq<u8>>,
}

impl Classifier {
    /// The machine never concludes `NotAllZero` without a non-zero
    /// byte among the fed bytes, and never stays running or concludes
    /// `AllZero` while one is there.
    pub open spec fn inv(&self) -> bool {
        (self.phase is NotAllZero) <==> !all_zero(self.seen@)
    }

    /// The question is settled; the machine asks for no more reads.
    pub open spec fn finished(&self) -> bool {
        self.phase is AllZero || self.phase is NotAllZero
    }

    pub fn new() -> (c: Classifier)
        ensures
            c.inv(),
            c.phase is Probe,
            c.seen@ == Seq::<u8>::empty(),
    {
        Classifier { phase: Phase::Probe, seen: Ghost(Seq::empty()) }
    }

    /// How many bytes the driver should try to read next: the probe
    /// size first, the bulk size after, nothing once finished.
    pub fn next_read_len(&self) -> (n: usize)
        ensures
            n == match self.phase {
                Phase::Probe => PROBE_LEN,
                Phase::Bulk => BULK_LEN,
                _ => 0usize,
            },
            self.finished() <==> n == 0,
    {
        match self.phase {
            Phase::Probe => PROBE_LEN,
            Phase::Bulk => BULK_LEN,
            Phase::AllZero => 0,
            Phase::NotAllZero => 0,
        }
    }

    pub fn is_finished(&self) -> (r: bool)
        ensures
            r == self.finished(),
    {
        match self.phase {
            Phase::AllZero => true,
            Phase::NotAllZero => true,
            _ => false,
        }
    }

    /// Feeds the next chunk: the first `num_read` bytes of `buf`, as a
    /// read returned them. `num_read == 0` means end of file.
    pub fn feed(&mut self, buf: &[u8], num_read: usize)
        requires
            old(self).inv(),
            !old(self).finished(),
            num_read <= buf@.len(),
        ensures
            final(self).inv(),
            final(self).seen@ == old(self).seen@ + buf@.take(num_read as int),
            final(self).phase == spec_step(old(self).phase, buf@.take(num_read as int)),
    {
        let ghost chunk = buf@.take(num_read as int);
        proof {
            self.seen@ = self.seen@ + chunk;
        }
        if !prefix_all_zero(buf, num_read) {
            self.phase = Phase::NotAllZero;
            proof {
                let i = choose|i: int| 0 <= i < chunk.len() && chunk[i] != 0u8;
                assert(self.seen@[old(self).seen@.len() + i] != 0u8);
            }
        } else {
            proof {
                assert forall|i: int| 0 <= i < self.seen@.len() implies self.seen@[i] == 0u8 by {
                    if i < old(self).seen@.len() {
                        assert(self.seen@[i] == old(self).seen@[i]);
                    } else {
                        assert(self.seen@[i] == chunk[i - old(self).seen@.len()]);
                    }
                }
            }
            match self.phase {
                Phase::Probe => {
                    self.phase = Phase::Bulk;
                },
                _ => {
                    if num_read == 0 {
                        self.phase = Phase::AllZero;
                    }
                },
            }
        }
    }

    /// The settled answer: were all the fed bytes zero?
    pub fn verdict(&self) -> (r: bool)
        requires
            self.inv(),
            self.finished(),
        ensures
            r == all_zero(self.seen@),
    {
        match self.phase {
            Phase::AllZero => true,
            _ => false,
        }
    }
}

/// Classifies content held in memory, with the same probe-then-bulk
/// chunking a driver performs over a file.
pub fn is_all_zeroes(content: &Vec<u8>) -> (r: bool)
    ensures
        r == all_zero(content@),
{
    let mut c = Classifier::new();
    let mut offset: usize = 0;
    proof {
        assert(c.seen@ =~= content@.take(0));
    }
    loop
        invariant
            c.inv(),
            offset <= content@.len(),
            c.seen@ == content@.take(offset as int),
            c.phase is AllZero ==> offset == content@.len(),
            c.phase is NotAllZero ==> !all_zero(content@),
        ensures
            c.inv(),
            c.finished(),
            offset <= content@.len(),
            c.seen@ == content@.take(offset as int),
            c.phase is AllZero ==> offset == content@.len(),
            c.phase is NotAllZero ==> !all_zero(content@),
        decreases content@.len() - offset, phase_fuel(c.phase),
    {
        if c.is_finished() {
            break;
        }
        let want = c.next_read_len();
        let remaining = content.len() - offset;
        let n = if want < remaining {
            want
        } else {
            remaining
        };
        let chunk = vstd::slice::slice_subrange(content.as_slice(), offset, offset + n);
        c.feed(chunk, n);
        proof {
            assert(chunk@.take(n as int) == chunk@);
            assert(c.seen@ =~= content@.take((offset + n) as int));
            if c.phase is NotAllZero {
                lemma_prefix_decides(content@, offset + n);
            }
        }
        offset += n;
    }
    proof {
        if c.phase is AllZero {
            assert(content@.take(offset as int) =~= content@);
        }
    }
    c.verdict()
}

/// Running phases still owe steps that move no bytes: the probe may
/// come back short, and the end of the file is a last, empty chunk.
pub open spec fn phase_fuel(phase: Phase) -> nat {
    match phase {
        Phase::Probe => 2,
        Phase::Bulk => 1,
        _ => 0,
    }
}

} // verus!
