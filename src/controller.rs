//! Decisions of the mining pass controller.
//!
//! Each pass takes a snapshot of the miner's proof, the clock and the wallet,
//! then either waits for funds or searches and submits. The waiting, the
//! search threads and the network calls are run by the caller; the rules
//! that decide between them stand here.
use vstd::prelude::*;

use crate::balance::{balance_deltas_spec, saturating_sum, PassDeltas, PassState};
use crate::external::{available_cores, bus_count, epoch_duration, random_below};
use crate::worker::Candidate;

verus! {

/// Wallet balance, in lamports, below which a pass waits for funds
/// (0.005 SOL).
pub const MIN_SOL_BALANCE_LAMPORTS: u64 = 5_000_000;

/// Seconds of one wait for funds, shown one tick per second.
pub const WAIT_TICKS: u64 = 60;

/// Nominal seconds between two hashes of a proof.
pub const HASH_WINDOW: i64 = 60;

/// Seconds before the end of an epoch at which a reset is already sent.
pub const RESET_BUFFER: i64 = 5;

/// The search deadline in seconds: what is left of the hash window after
/// `buffer_time`, or, when nothing is left, the window less `buffer_time`
/// from now, never below zero.
pub open spec fn cutoff_spec(last_hash_at: int, buffer_time: int, now: int) -> int {
    let left = last_hash_at + HASH_WINDOW - buffer_time - now;
    if left > 0 {
        if left > u64::MAX {
            u64::MAX as int
        } else {
            left
        }
    } else {
        fallback_cutoff(buffer_time)
    }
}

/// The deadline used when the hash window is already spent: the window less
/// `buffer_time`, never below zero.
pub open spec fn fallback_cutoff(buffer_time: int) -> int {
    if HASH_WINDOW - buffer_time > 0 {
        HASH_WINDOW - buffer_time
    } else {
        0
    }
}

/// The search deadline of a pass, in seconds.
pub fn get_cutoff(last_hash_at: i64, buffer_time: u64, now: i64) -> (r: u64)
    ensures
        r == cutoff_spec(last_hash_at as int, buffer_time as int, now as int),
        last_hash_at + HASH_WINDOW - buffer_time - now <= 0 ==> r == fallback_cutoff(
            buffer_time as int,
        ),
{
    let left: i128 = last_hash_at as i128 + HASH_WINDOW as i128 - buffer_time as i128 - now as i128;
    if left > 0 {
        if left > u64::MAX as i128 {
            u64::MAX
        } else {
            left as u64
        }
    } else if buffer_time < HASH_WINDOW as u64 {
        HASH_WINDOW as u64 - buffer_time
    } else {
        0
    }
}

/// Whether an epoch reset is due: the epoch that began at `last_reset_at`
/// ends within `RESET_BUFFER` seconds of `now`, or has ended.
pub open spec fn reset_due(last_reset_at: int, now: int) -> bool {
    last_reset_at + 300 - RESET_BUFFER <= now
}

/// Whether a reset has to go ahead of the mining action.
pub fn needs_reset(last_reset_at: i64, now: i64) -> (r: bool)
    ensures
        r == reset_due(last_reset_at as int, now as int),
{
    let epoch = epoch_duration();
    (last_reset_at as i128 + epoch as i128 - RESET_BUFFER as i128) <= now as i128
}

/// Outcome of a wallet balance query.
#[derive(Clone, Copy, Debug, PartialEq, Eq, Structural)]
pub enum BalanceReading {
    /// The balance to use, in lamports.
    Funds(u64),
    /// A strict query found no more than the minimum balance.
    Insufficient(u64),
    /// A strict query failed.
    QueryFailed,
}

/// Reads the result of a balance query. A lenient query takes a failure as
/// a zero balance; a strict one reports a failure, and a balance at or below
/// the minimum, so that the caller can abort.
pub fn read_balance(queried: Option<u64>, strict: bool) -> (r: BalanceReading)
    ensures
        r == match queried {
            None => if strict {
                BalanceReading::QueryFailed
            } else {
                BalanceReading::Funds(0)
            },
            Some(l) => if strict && l <= MIN_SOL_BALANCE_LAMPORTS {
                BalanceReading::Insufficient(l)
            } else {
                BalanceReading::Funds(l)
            },
        },
{
    match queried {
        None => if strict {
            BalanceReading::QueryFailed
        } else {
            BalanceReading::Funds(0)
        },
        Some(l) => if strict && l <= MIN_SOL_BALANCE_LAMPORTS {
            BalanceReading::Insufficient(l)
        } else {
            BalanceReading::Funds(l)
        },
    }
}

/// What a pass does after its balances are known.
#[derive(Clone, Copy, Debug, PartialEq, Eq, Structural)]
pub enum PassMode {
    WaitForFunds,
    SearchAndSubmit,
}

pub open spec fn mode_for(wallet: u64) -> PassMode {
    if wallet < MIN_SOL_BALANCE_LAMPORTS {
        PassMode::WaitForFunds
    } else {
        PassMode::SearchAndSubmit
    }
}

/// Waits for funds when the wallet holds less than the minimum balance.
pub fn evaluate_balance(wallet: u64) -> (r: PassMode)
    ensures
        r == mode_for(wallet),
{
    if wallet < MIN_SOL_BALANCE_LAMPORTS {
        PassMode::WaitForFunds
    } else {
        PassMode::SearchAndSubmit
    }
}

/// The seconds left shown at each one-second tick of a wait for funds:
/// `WAIT_TICKS`, then one less at each tick, down to 1.
pub fn wait_countdown() -> (r: Vec<u64>)
    ensures
        r.len() == WAIT_TICKS,
        forall|i: int| 0 <= i < WAIT_TICKS ==> r[i] == WAIT_TICKS - i,
{
    let mut r: Vec<u64> = Vec::new();
    let mut i: u64 = 0;
    while i < WAIT_TICKS
        invariant
            i <= WAIT_TICKS,
            r.len() == i,
            forall|j: int| 0 <= j < i ==> r[j] == WAIT_TICKS - j,
        decreases WAIT_TICKS - i,
    {
        r.push(WAIT_TICKS - i);
        i = i + 1;
    }
    r
}

/// What the controller reads at the start of a pass.
#[derive(Clone, Copy, Debug, PartialEq, Eq, Structural)]
pub struct PassSnapshot {
    /// When the proof last took a hash, in Unix seconds.
    pub last_hash_at: i64,
    /// Staked balance of the proof, in the token's base units.
    pub staked_balance: u64,
    /// The clock, in Unix seconds.
    pub now: i64,
    /// Wallet balance, in lamports.
    pub wallet_balance: u64,
}

/// What the controller decided for a pass.
#[derive(Clone, Copy, Debug, PartialEq, Eq, Structural)]
pub struct PassPlan {
    /// Deltas from the previous pass, from the second pass on.
    pub deltas: Option<PassDeltas>,
    /// The search deadline, in seconds.
    pub cutoff: u64,
    pub mode: PassMode,
}

impl PassState {
    /// Starts a pass from its snapshot: computes the deadline, accounts the
    /// balances against the previous pass, and decides the pass's mode.
    pub fn begin_pass(&mut self, snapshot: &PassSnapshot, buffer_time: u64) -> (r: PassPlan)
        ensures
            r.cutoff == cutoff_spec(
                snapshot.last_hash_at as int,
                buffer_time as int,
                snapshot.now as int,
            ),
            r.mode == mode_for(snapshot.wallet_balance),
            r.deltas is Some <==> old(self).pass_index > 1,
            r.deltas matches Some(d) ==> d == balance_deltas_spec(
                *old(self),
                snapshot.wallet_balance,
                snapshot.staked_balance,
            ),
            final(self).session_mined == match r.deltas {
                Some(d) => saturating_sum(old(self).session_mined, d.mined),
                None => old(self).session_mined,
            },
            final(self).session_spent == match r.deltas {
                Some(d) => saturating_sum(old(self).session_spent, d.spent),
                None => old(self).session_spent,
            },
            final(self).pass_index == old(self).pass_index,
            final(self).last_wallet == snapshot.wallet_balance,
            final(self).last_staked == snapshot.staked_balance,
    {
        let cutoff = get_cutoff(snapshot.last_hash_at, buffer_time, snapshot.now);
        let deltas = self.summarize(snapshot.wallet_balance, snapshot.staked_balance);
        let mode = evaluate_balance(snapshot.wallet_balance);
        PassPlan { deltas, cutoff, mode }
    }
}

/// A pick from the pool of bus addresses, uniformly at random.
pub fn select_bus() -> (r: usize)
    ensures
        r < 8,
{
    random_below(bus_count())
}

/// What is sent at the end of a search: a reset first where one is due,
/// then the mining action with the winning nonce and digest to `bus`.
#[derive(Clone, Copy, Debug)]
pub struct SubmissionPlan {
    pub reset: bool,
    pub bus: usize,
    pub nonce: u64,
    pub digest: [u8; 16],
}

pub fn plan_submission(reset: bool, bus: usize, best: &Candidate) -> (r: SubmissionPlan)
    ensures
        r.reset == reset,
        r.bus == bus,
        r.nonce == best.nonce,
        r.digest@ == best.digest@,
{
    SubmissionPlan { reset, bus, nonce: best.nonce, digest: best.digest }
}

/// Whether `threads` exceeds `cores`.
pub fn cores_exceeded(threads: u64, cores: u64) -> (r: bool)
    ensures
        r == (threads > cores),
{
    threads > cores
}

/// Compares the thread count with the CPUs available to this process.
/// Returns whether it exceeds them, and their number.
pub fn check_num_cores(threads: u64) -> (r: (bool, u64))
    ensures
        r.0 == (threads > r.1),
{
    let cores = available_cores() as u64;
    (cores_exceeded(threads, cores), cores)
}

} // verus!
