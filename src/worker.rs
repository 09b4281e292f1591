//! One search worker: it scans its nonce block, keeps the best candidate
//! seen so far, and decides at each checkpoint whether to stop.
//!
//! The deadline is soft. A worker past the deadline keeps scanning until its
//! best difficulty exceeds the floor; if that never happens it only stops at
//! the end of its block, so a pass may take far longer than the deadline.
use vstd::prelude::*;

use crate::external::{drillx_hash, hash_difficulty, hash_nonce};
use crate::partition::{block_end, block_start, worker_range};

verus! {

/// Nonces between two clock checks of a worker.
pub const CHECKPOINT_INTERVAL: u64 = 100;

/// Digest and hash computed for one nonce.
#[derive(Clone, Copy, Debug)]
pub struct HashOutput {
    pub digest: [u8; 16],
    pub hash: [u8; 32],
}

/// A nonce with the difficulty, digest and hash found for it.
#[derive(Clone, Copy, Debug)]
pub struct Candidate {
    pub nonce: u64,
    pub difficulty: u32,
    pub digest: [u8; 16],
    pub hash: [u8; 32],
}

/// A candidate as values: its difficulty as a natural number, its digest
/// and hash as byte sequences.
pub struct CandidateModel {
    pub nonce: u64,
    pub difficulty: nat,
    pub digest: Seq<u8>,
    pub hash: Seq<u8>,
}

impl View for Candidate {
    type V = CandidateModel;

    open spec fn view(&self) -> CandidateModel {
        CandidateModel {
            nonce: self.nonce,
            difficulty: self.difficulty as nat,
            digest: self.digest@,
            hash: self.hash@,
        }
    }
}

/// Leading zero bits of one byte.
pub open spec fn byte_leading_zeros(b: u8) -> nat {
    if b >= 128 {
        0
    } else if b >= 64 {
        1
    } else if b >= 32 {
        2
    } else if b >= 16 {
        3
    } else if b >= 8 {
        4
    } else if b >= 4 {
        5
    } else if b >= 2 {
        6
    } else if b >= 1 {
        7
    } else {
        8
    }
}

/// Leading zero bits of a byte string, most significant bit of the first
/// byte first: the difficulty of a hash.
pub open spec fn leading_zero_bits(s: Seq<u8>) -> nat
    decreases s.len(),
{
    if s.len() == 0 {
        0
    } else if s[0] == 0 {
        8 + leading_zero_bits(s.drop_first())
    } else {
        byte_leading_zeros(s[0])
    }
}

/// The best candidate after hashing `nonce`: it replaces `best` only when its
/// difficulty is strictly greater; a nonce that fails to hash is skipped.
pub open spec fn consider(best: CandidateModel, challenge: Seq<u8>, nonce: u64) -> CandidateModel {
    match drillx_hash(challenge, nonce) {
        Some(out) => if leading_zero_bits(out.1) > best.difficulty {
            CandidateModel {
                nonce,
                difficulty: leading_zero_bits(out.1),
                digest: out.0,
                hash: out.1,
            }
        } else {
            best
        },
        None => best,
    }
}

/// The best candidate after hashing every nonce of `[lo, hi)` in order.
pub open spec fn best_over(best: CandidateModel, challenge: Seq<u8>, lo: int, hi: int) -> CandidateModel
    decreases hi - lo,
{
    if hi <= lo {
        best
    } else {
        consider(best_over(best, challenge, lo, hi - 1), challenge, (hi - 1) as u64)
    }
}

/// The first checkpoint nonce at or after `n`.
pub open spec fn next_checkpoint(n: int) -> int {
    n + (CHECKPOINT_INTERVAL - n % (CHECKPOINT_INTERVAL as int)) % (CHECKPOINT_INTERVAL as int)
}

proof fn lemma_next_checkpoint(start: int, n: int)
    requires
        0 <= start <= n <= next_checkpoint(start),
    ensures
        n % (CHECKPOINT_INTERVAL as int) == 0 <==> n == next_checkpoint(start),
        next_checkpoint(start) - start < CHECKPOINT_INTERVAL,
{
    let q = start / 100;
    let r = start % 100;
    assert(start == 100 * q + r && 0 <= r < 100) by (nonlinear_arith)
        requires
            q == start / 100,
            r == start % 100,
            start >= 0,
    ;
    if r == 0 {
        assert(next_checkpoint(start) == start);
    } else {
        assert(next_checkpoint(start) == 100 * (q + 1));
        let k = n - 100 * q;
        assert(r <= k <= 100);
        assert(n % 100 == k % 100) by (nonlinear_arith)
            requires
                n == 100 * q + k,
                q >= 0,
        {
            vstd::arithmetic::div_mod::lemma_mod_multiples_vanish(q, k, 100);
        }
    }
}

/// The candidate a worker holds before it has hashed anything.
pub open spec fn empty_candidate(nonce: u64) -> CandidateModel {
    CandidateModel {
        nonce,
        difficulty: 0,
        digest: Seq::new(16, |i: int| 0u8),
        hash: Seq::new(32, |i: int| 0u8),
    }
}

impl Candidate {
    /// A candidate of difficulty zero with a zeroed digest and hash.
    pub fn empty(nonce: u64) -> (r: Candidate)
        ensures
            r@ == empty_candidate(nonce),
    {
        let r = Candidate { nonce, difficulty: 0, digest: [0u8; 16], hash: [0u8; 32] };
        assert(r.digest@ =~= Seq::new(16, |i: int| 0u8));
        assert(r.hash@ =~= Seq::new(32, |i: int| 0u8));
        r
    }
}

/// What a worker does after a checkpoint.
#[derive(Clone, Copy, Debug, PartialEq, Eq, Structural)]
pub enum WorkerAction {
    /// The deadline has passed and the floor is beaten: the worker ends.
    Stop,
    /// The worker scans on.
    Continue,
    /// The worker scans on; the designated worker shows the seconds left
    /// and its best difficulty so far.
    Progress { remaining: u64, best_difficulty: u32 },
}

/// State of one worker within one search.
#[derive(Clone, Copy, Debug)]
pub struct WorkerState {
    /// Position of the worker in the pool; worker 0 shows progress.
    pub index: u64,
    /// The next nonce to hash.
    pub next_nonce: u64,
    /// One past the last nonce of the worker's block.
    pub end: u64,
    /// Best candidate found so far.
    pub best: Candidate,
    /// Elapsed seconds last shown on the progress indicator.
    pub last_reported: u64,
}

/// The action a worker takes at a checkpoint reached `elapsed` seconds into
/// the search.
pub open spec fn checkpoint_action(
    w: WorkerState,
    elapsed: u64,
    cutoff: u64,
    min_difficulty: u32,
) -> WorkerAction {
    if elapsed >= cutoff {
        if w.best.difficulty > min_difficulty {
            WorkerAction::Stop
        } else {
            WorkerAction::Continue
        }
    } else if w.index == 0 && elapsed != w.last_reported {
        WorkerAction::Progress {
            remaining: (cutoff - elapsed) as u64,
            best_difficulty: w.best.difficulty,
        }
    } else {
        WorkerAction::Continue
    }
}

/// Once the deadline has passed and a worker's best difficulty exceeds the
/// floor, its next checkpoint ends it, and that checkpoint lies fewer than
/// `CHECKPOINT_INTERVAL` nonces after the next nonce it hashes.
pub proof fn lemma_stops_at_next_checkpoint(
    w: WorkerState,
    elapsed: u64,
    cutoff: u64,
    min_difficulty: u32,
)
    requires
        elapsed >= cutoff,
        w.best.difficulty > min_difficulty,
    ensures
        checkpoint_action(w, elapsed, cutoff, min_difficulty) == WorkerAction::Stop,
        w.next_nonce <= next_checkpoint(w.next_nonce as int) < w.next_nonce + CHECKPOINT_INTERVAL,
{
    lemma_next_checkpoint(w.next_nonce as int, w.next_nonce as int);
}

impl WorkerState {
    pub open spec fn wf(&self) -> bool {
        self.next_nonce <= self.end
    }

    /// The worker `index` of `workers`, at the start of its block.
    pub fn new(index: u64, workers: u64) -> (r: WorkerState)
        requires
            1 <= workers,
            index < workers,
        ensures
            r.wf(),
            r.index == index,
            r.next_nonce == block_start(index as int, workers as int),
            r.end == block_end(index as int, workers as int),
            r.best@ == empty_candidate(r.next_nonce),
            r.last_reported == 0,
    {
        let (start, end) = worker_range(index, workers);
        WorkerState { index, next_nonce: start, end, best: Candidate::empty(start), last_reported: 0 }
    }

    /// Hashes nonces in order until one that is a multiple of
    /// `CHECKPOINT_INTERVAL` has been hashed, or the block is exhausted.
    /// Returns whether a checkpoint was reached.
    pub fn scan_segment(
        &mut self,
        memory: &mut drillx::equix::SolverMemory,
        challenge: &[u8; 32],
    ) -> (at_checkpoint: bool)
        requires
            old(self).wf(),
        ensures
            final(self).wf(),
            final(self).index == old(self).index,
            final(self).end == old(self).end,
            final(self).last_reported == old(self).last_reported,
            at_checkpoint <==> next_checkpoint(old(self).next_nonce as int) < old(self).end,
            final(self).next_nonce == if at_checkpoint {
                next_checkpoint(old(self).next_nonce as int) + 1
            } else {
                old(self).end as int
            },
            at_checkpoint ==> final(self).next_nonce - old(self).next_nonce <= CHECKPOINT_INTERVAL,
            final(self).best@ == best_over(
                old(self).best@,
                challenge@,
                old(self).next_nonce as int,
                final(self).next_nonce as int,
            ),
            final(self).best.difficulty >= old(self).best.difficulty,
    {
        let ghost start = self.next_nonce as int;
        let ghost start_best = self.best@;
        let ghost cp = next_checkpoint(start);
        let mut hit = false;
        proof {
            lemma_next_checkpoint(start, start);
        }
        while !hit && self.next_nonce < self.end
            invariant
                self.wf(),
                self.index == old(self).index,
                self.end == old(self).end,
                self.last_reported == old(self).last_reported,
                0 <= start <= self.next_nonce,
                cp == next_checkpoint(start),
                !hit ==> self.next_nonce <= cp,
                hit ==> self.next_nonce == cp + 1,
                self.best@ == best_over(start_best, challenge@, start, self.next_nonce as int),
                self.best.difficulty >= start_best.difficulty,
            decreases self.end - self.next_nonce,
        {
            let nonce = self.next_nonce;
            proof {
                lemma_next_checkpoint(start, nonce as int);
            }
            if let Some(out) = hash_nonce(memory, challenge, nonce) {
                let difficulty = hash_difficulty(&out.hash);
                if difficulty > self.best.difficulty {
                    self.best = Candidate { nonce, difficulty, digest: out.digest, hash: out.hash };
                }
            }
            self.next_nonce = nonce + 1;
            if nonce % CHECKPOINT_INTERVAL == 0 {
                hit = true;
            }
        }
        hit
    }

    /// Decides what the worker does at a checkpoint reached `elapsed`
    /// seconds after the search started.
    pub fn checkpoint(&mut self, elapsed: u64, cutoff: u64, min_difficulty: u32) -> (r: WorkerAction)
        ensures
            r == checkpoint_action(*old(self), elapsed, cutoff, min_difficulty),
            final(self).last_reported == if r is Progress {
                elapsed
            } else {
                old(self).last_reported
            },
            final(self).index == old(self).index,
            final(self).next_nonce == old(self).next_nonce,
            final(self).end == old(self).end,
            final(self).best == old(self).best,
            elapsed < cutoff ==> r != WorkerAction::Stop,
            r is Progress ==> old(self).index == 0,
            elapsed >= cutoff && old(self).best.difficulty > min_difficulty ==> r
                == WorkerAction::Stop,
    {
        if elapsed >= cutoff {
            if self.best.difficulty > min_difficulty {
                WorkerAction::Stop
            } else {
                WorkerAction::Continue
            }
        } else if self.index == 0 && elapsed != self.last_reported {
            self.last_reported = elapsed;
            WorkerAction::Progress { remaining: cutoff - elapsed, best_difficulty: self.best.difficulty }
        } else {
            WorkerAction::Continue
        }
    }
}

} // verus!
