use drillx::equix::SolverMemory;
use ore_miner::search::aggregate;
use ore_miner::worker::{Candidate, WorkerAction, WorkerState};

fn state(index: u64, best_difficulty: u32, last_reported: u64) -> WorkerState {
    let mut best = Candidate::empty(500);
    best.difficulty = best_difficulty;
    WorkerState { index, next_nonce: 501, end: 10_000, best, last_reported }
}

fn candidate(nonce: u64, difficulty: u32, tag: u8) -> Candidate {
    Candidate { nonce, difficulty, digest: [tag; 16], hash: [tag; 32] }
}

#[test]
fn no_stop_before_deadline_even_above_floor() {
    let mut w = state(1, 30, 0);
    assert_eq!(w.checkpoint(5, 10, 8), WorkerAction::Continue);
    let mut w0 = state(0, 30, 5);
    assert_eq!(w0.checkpoint(5, 10, 8), WorkerAction::Continue);
}

#[test]
fn designated_worker_reports_when_second_changes() {
    let mut w = state(0, 12, 3);
    assert_eq!(w.checkpoint(4, 10, 8), WorkerAction::Progress { remaining: 6, best_difficulty: 12 });
    assert_eq!(w.last_reported, 4);
    assert_eq!(w.checkpoint(4, 10, 8), WorkerAction::Continue);
    assert_eq!(w.last_reported, 4);
}

#[test]
fn other_workers_never_report() {
    let mut w = state(3, 12, 3);
    assert_eq!(w.checkpoint(4, 10, 8), WorkerAction::Continue);
    assert_eq!(w.last_reported, 3);
}

#[test]
fn stops_after_deadline_above_floor() {
    let mut w = state(2, 9, 0);
    assert_eq!(w.checkpoint(10, 10, 8), WorkerAction::Stop);
    let mut w = state(0, 9, 0);
    assert_eq!(w.checkpoint(25, 10, 8), WorkerAction::Stop);
}

#[test]
fn keeps_searching_after_deadline_at_floor() {
    let mut w = state(2, 8, 0);
    assert_eq!(w.checkpoint(10, 10, 8), WorkerAction::Continue);
    let mut w = state(0, 0, 0);
    assert_eq!(w.checkpoint(99, 10, 8), WorkerAction::Continue);
}

#[test]
fn scan_stops_at_each_checkpoint() {
    let challenge = [7u8; 32];
    let mut memory = SolverMemory::new();
    let mut w = WorkerState::new(0, 4);
    assert_eq!(w.next_nonce, 0);
    assert!(w.scan_segment(&mut memory, &challenge));
    assert_eq!(w.next_nonce, 1);
    let mut w = WorkerState { index: 1, next_nonce: 197, end: 10_000, best: Candidate::empty(197), last_reported: 0 };
    assert!(w.scan_segment(&mut memory, &challenge));
    assert_eq!(w.next_nonce, 201);
}

#[test]
fn scan_keeps_best_hash_of_drillx() {
    let challenge = [3u8; 32];
    let mut memory = SolverMemory::new();
    let mut w = WorkerState { index: 1, next_nonce: 92, end: 10_000, best: Candidate::empty(92), last_reported: 0 };
    assert!(w.scan_segment(&mut memory, &challenge));
    assert_eq!(w.next_nonce, 101);
    let mut best_nonce = 92u64;
    let mut best_difficulty = 0u32;
    let mut best_hash = [0u8; 32];
    let mut best_digest = [0u8; 16];
    for nonce in 92..=100u64 {
        if let Ok(h) = drillx::hash(&challenge, &nonce.to_le_bytes()) {
            if h.difficulty() > best_difficulty {
                best_nonce = nonce;
                best_difficulty = h.difficulty();
                best_hash = h.h;
                best_digest = h.d;
            }
        }
    }
    assert!(best_difficulty > 0);
    assert_eq!(w.best.nonce, best_nonce);
    assert_eq!(w.best.difficulty, best_difficulty);
    assert_eq!(w.best.hash, best_hash);
    assert_eq!(w.best.digest, best_digest);
}

#[test]
fn scan_ends_at_block_end() {
    let challenge = [1u8; 32];
    let mut memory = SolverMemory::new();
    let mut w = WorkerState { index: 2, next_nonce: 212, end: 215, best: Candidate::empty(212), last_reported: 0 };
    assert!(!w.scan_segment(&mut memory, &challenge));
    assert_eq!(w.next_nonce, 215);
}

#[test]
fn aggregate_keeps_first_of_equal_maxima() {
    let results = vec![candidate(10, 5, 1), candidate(20, 9, 2), candidate(30, 9, 3), candidate(40, 7, 4)];
    let r = aggregate(&results);
    assert_eq!(r.nonce, 20);
    assert_eq!(r.difficulty, 9);
    assert_eq!(r.hash, [2u8; 32]);
}

#[test]
fn aggregate_is_at_least_every_worker() {
    let results = vec![candidate(1, 3, 1), candidate(2, 14, 2), candidate(3, 11, 3)];
    let r = aggregate(&results);
    for c in &results {
        assert!(r.difficulty >= c.difficulty);
    }
    assert_eq!(r.nonce, 2);
}

#[test]
fn aggregate_of_nothing_is_empty() {
    let r = aggregate(&vec![]);
    assert_eq!(r.nonce, 0);
    assert_eq!(r.difficulty, 0);
    assert_eq!(r.digest, [0u8; 16]);
    let r = aggregate(&vec![candidate(77, 0, 5)]);
    assert_eq!(r.nonce, 0);
    assert_eq!(r.hash, [0u8; 32]);
}
