//! Session accounting from consecutive balance snapshots.
//!
//! This is a heuristic, not a ledger: a rise of the staked balance counts
//! as mined and a fall of the wallet balance counts as spent. Unstaking and
//! deposits are ignored rather than subtracted, and newly staked tokens
//! cannot be told apart from mining rewards.
use vstd::prelude::*;

verus! {

/// How much `curr` exceeds `prev`, or zero when it does not.
pub open spec fn clamped_gain(prev: u64, curr: u64) -> u64 {
    if curr > prev {
        (curr - prev) as u64
    } else {
        0
    }
}

/// `a + b`, held at `u64::MAX`.
pub open spec fn saturating_sum(a: u64, b: u64) -> u64 {
    if a + b > u64::MAX {
        u64::MAX
    } else {
        (a + b) as u64
    }
}

/// What one pass mined and spent. Staked amounts are in the token's base
/// units, wallet amounts in lamports.
#[derive(Clone, Copy, Debug, PartialEq, Eq, Structural)]
pub struct PassDeltas {
    pub mined: u64,
    pub spent: u64,
}

/// The deltas between two consecutive snapshots: the rise of the staked
/// balance and the fall of the wallet balance, each clamped at zero.
pub fn balance_deltas(
    prev_wallet: u64,
    prev_staked: u64,
    curr_wallet: u64,
    curr_staked: u64,
) -> (r: PassDeltas)
    ensures
        r.mined == clamped_gain(prev_staked, curr_staked),
        r.spent == clamped_gain(curr_wallet, prev_wallet),
{
    let mined = if curr_staked > prev_staked {
        curr_staked - prev_staked
    } else {
        0
    };
    let spent = if prev_wallet > curr_wallet {
        prev_wallet - curr_wallet
    } else {
        0
    };
    PassDeltas { mined, spent }
}

/// State that the controller carries from one pass to the next.
#[derive(Clone, Copy, Debug, PartialEq, Eq, Structural)]
pub struct PassState {
    /// Number of the current pass, from 1.
    pub pass_index: u64,
    /// Sum of the mined deltas of the session.
    pub session_mined: u64,
    /// Sum of the spent deltas of the session.
    pub session_spent: u64,
    /// Wallet balance seen in the previous pass.
    pub last_wallet: u64,
    /// Staked balance seen in the previous pass.
    pub last_staked: u64,
}

impl PassState {
    /// The state at the start of a session.
    pub fn new() -> (r: PassState)
        ensures
            r == (PassState {
                pass_index: 1,
                session_mined: 0,
                session_spent: 0,
                last_wallet: 0,
                last_staked: 0,
            }),
    {
        PassState { pass_index: 1, session_mined: 0, session_spent: 0, last_wallet: 0, last_staked: 0 }
    }

    /// Takes this pass's balances. From the second pass on, returns the
    /// deltas from the previous pass and adds them to the session totals.
    /// The balances are then kept for the next pass.
    pub fn summarize(&mut self, wallet: u64, staked: u64) -> (r: Option<PassDeltas>)
        ensures
            r is Some <==> old(self).pass_index > 1,
            r matches Some(d) ==> d == balance_deltas_spec(*old(self), wallet, staked),
            final(self).session_mined == match r {
                Some(d) => saturating_sum(old(self).session_mined, d.mined),
                None => old(self).session_mined,
            },
            final(self).session_spent == match r {
                Some(d) => saturating_sum(old(self).session_spent, d.spent),
                None => old(self).session_spent,
            },
            final(self).session_mined >= old(self).session_mined,
            final(self).session_spent >= old(self).session_spent,
            final(self).pass_index == old(self).pass_index,
            final(self).last_wallet == wallet,
            final(self).last_staked == staked,
    {
        let r = if self.pass_index > 1 {
            let d = balance_deltas(self.last_wallet, self.last_staked, wallet, staked);
            self.session_mined = self.session_mined.saturating_add(d.mined);
            self.session_spent = self.session_spent.saturating_add(d.spent);
            Some(d)
        } else {
            None
        };
        self.last_wallet = wallet;
        self.last_staked = staked;
        r
    }

    /// Moves on to the next pass.
    pub fn finish_pass(&mut self)
        ensures
            final(self).pass_index == saturating_sum(old(self).pass_index, 1),
            final(self).session_mined == old(self).session_mined,
            final(self).session_spent == old(self).session_spent,
            final(self).last_wallet == old(self).last_wallet,
            final(self).last_staked == old(self).last_staked,
    {
        self.pass_index = self.pass_index.saturating_add(1);
    }
}

/// The deltas from the balances kept in `s` to `wallet` and `staked`.
pub open spec fn balance_deltas_spec(s: PassState, wallet: u64, staked: u64) -> PassDeltas {
    PassDeltas {
        mined: clamped_gain(s.last_staked, staked),
        spent: clamped_gain(wallet, s.last_wallet),
    }
}

} // verus!
