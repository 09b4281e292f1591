use ore_miner::balance::{balance_deltas, PassDeltas, PassState};
use ore_miner::controller::{
    check_num_cores, cores_exceeded, evaluate_balance, get_cutoff, needs_reset, plan_submission, read_balance,
    select_bus, wait_countdown, BalanceReading, PassMode, PassSnapshot, MIN_SOL_BALANCE_LAMPORTS,
};
use ore_miner::worker::Candidate;

const ONE_ORE: u64 = 100_000_000_000;
const ONE_SOL: u64 = 1_000_000_000;

fn snapshot(staked: u64, wallet: u64) -> PassSnapshot {
    PassSnapshot { last_hash_at: 1_000, staked_balance: staked, now: 1_020, wallet_balance: wallet }
}

#[test]
fn staked_rise_counts_as_mined() {
    let mut s = PassState::new();
    let first = s.begin_pass(&snapshot(10 * ONE_ORE, ONE_SOL), 5);
    assert_eq!(first.deltas, None);
    s.finish_pass();
    let second = s.begin_pass(&snapshot(12 * ONE_ORE + ONE_ORE / 2, ONE_SOL), 5);
    assert_eq!(second.deltas, Some(PassDeltas { mined: 250_000_000_000, spent: 0 }));
    assert_eq!(s.session_mined, 250_000_000_000);
    assert_eq!(s.pass_index, 2);
}

#[test]
fn deposit_is_not_negative_spend() {
    let mut s = PassState::new();
    s.begin_pass(&snapshot(ONE_ORE, ONE_SOL), 5);
    s.finish_pass();
    let second = s.begin_pass(&snapshot(ONE_ORE, 1_050_000_000), 5);
    assert_eq!(second.deltas, Some(PassDeltas { mined: 0, spent: 0 }));
    assert_eq!(s.session_spent, 0);
    assert_eq!(s.last_wallet, 1_050_000_000);
}

#[test]
fn unstaking_is_not_negative_mining() {
    assert_eq!(balance_deltas(ONE_SOL, 5 * ONE_ORE, ONE_SOL - 5_000, 3 * ONE_ORE), PassDeltas { mined: 0, spent: 5_000 });
}

#[test]
fn session_totals_accumulate() {
    let mut s = PassState::new();
    s.summarize(ONE_SOL, 100);
    s.finish_pass();
    s.summarize(ONE_SOL - 10, 150);
    s.finish_pass();
    s.summarize(ONE_SOL - 25, 120);
    s.finish_pass();
    s.summarize(ONE_SOL - 30, 200);
    assert_eq!(s.session_mined, 130);
    assert_eq!(s.session_spent, 30);
    assert_eq!(s.pass_index, 4);
}

#[test]
fn low_wallet_waits_sixty_seconds() {
    let mut s = PassState::new();
    let plan = s.begin_pass(&snapshot(ONE_ORE, 2_000_000), 5);
    assert_eq!(plan.mode, PassMode::WaitForFunds);
    let ticks = wait_countdown();
    assert_eq!(ticks.len(), 60);
    for (i, t) in ticks.iter().enumerate() {
        assert_eq!(*t, 60 - i as u64);
    }
}

#[test]
fn minimum_balance_is_enough() {
    assert_eq!(evaluate_balance(MIN_SOL_BALANCE_LAMPORTS), PassMode::SearchAndSubmit);
    assert_eq!(evaluate_balance(MIN_SOL_BALANCE_LAMPORTS - 1), PassMode::WaitForFunds);
    assert_eq!(evaluate_balance(0), PassMode::WaitForFunds);
}

#[test]
fn cutoff_is_time_left_in_window() {
    assert_eq!(get_cutoff(1_000, 5, 1_020), 35);
    assert_eq!(get_cutoff(1_000, 0, 1_000), 60);
}

#[test]
fn cutoff_falls_back_when_window_is_spent() {
    assert_eq!(get_cutoff(1_000, 5, 1_055), 55);
    assert_eq!(get_cutoff(1_000, 5, 5_000), 55);
    assert_eq!(get_cutoff(1_000, 60, 1_000), 0);
    assert_eq!(get_cutoff(1_000, 90, 1_000), 0);
    assert_eq!(get_cutoff(1_000, 90, 900), 70);
}

#[test]
fn cutoff_never_negative_for_extremes() {
    assert_eq!(get_cutoff(i64::MIN, u64::MAX, i64::MAX), 0);
    assert_eq!(get_cutoff(i64::MAX, 0, i64::MIN), u64::MAX);
}

#[test]
fn reset_due_five_seconds_before_epoch_end() {
    assert!(needs_reset(0, 295));
    assert!(needs_reset(0, 400));
    assert!(!needs_reset(0, 294));
    assert!(!needs_reset(1_000, 1_100));
}

#[test]
fn bus_is_in_pool() {
    for _ in 0..100 {
        let b = select_bus();
        assert!(b < ore_api::consts::BUS_COUNT);
    }
}

#[test]
fn submission_carries_winner() {
    let best = Candidate { nonce: 42, difficulty: 13, digest: [9u8; 16], hash: [1u8; 32] };
    let plan = plan_submission(true, 3, &best);
    assert!(plan.reset);
    assert_eq!(plan.bus, 3);
    assert_eq!(plan.nonce, 42);
    assert_eq!(plan.digest, [9u8; 16]);
}

#[test]
fn thread_count_against_cores() {
    assert!(cores_exceeded(9, 8));
    assert!(!cores_exceeded(8, 8));
    let (exceeded, cores) = check_num_cores(u64::MAX);
    assert!(cores >= 1);
    assert!(exceeded);
    let (exceeded, _) = check_num_cores(1);
    assert!(!exceeded);
}

#[test]
fn lenient_balance_query_reads_failure_as_zero() {
    assert_eq!(read_balance(None, false), BalanceReading::Funds(0));
    assert_eq!(read_balance(Some(1_000), false), BalanceReading::Funds(1_000));
}

#[test]
fn strict_balance_query_reports_failure_and_low_funds() {
    assert_eq!(read_balance(None, true), BalanceReading::QueryFailed);
    assert_eq!(read_balance(Some(MIN_SOL_BALANCE_LAMPORTS), true), BalanceReading::Insufficient(MIN_SOL_BALANCE_LAMPORTS));
    assert_eq!(read_balance(Some(MIN_SOL_BALANCE_LAMPORTS + 1), true), BalanceReading::Funds(MIN_SOL_BALANCE_LAMPORTS + 1));
}
