use krist_miner::Address;
use krist_miner::Candidate;
use krist_miner::MinerAction;
use krist_miner::MinerEvent;
use krist_miner::SessionState;
use krist_miner::ShortHash;
use krist_miner::Target;
use krist_miner::calculate_work;

fn address() -> Address {
    Address(*b"k123456789")
}

fn session() -> SessionState {
    SessionState::new(address(), 100_000, 1 << 30)
}

// a fragment whose derived work is large, and one whose work is small
const STRONG: [u8; 6] = [0xff, 0xff, 0, 0, 0, 0];
const WEAK: [u8; 6] = [0, 0, 0, 0, 0xff, 0xff];

#[test]
fn a_fresh_session_runs_a_batch_once_a_target_arrives() {
    let mut s = session();
    let t = Target { work: 400_000, block: ShortHash([1; 6]) };
    let action = s.step(MinerEvent::TargetUpdate(t));
    match action {
        MinerAction::RunBatch { size, target } => {
            assert_eq!(size, 1);
            assert!(target == t);
        }
        _ => panic!("expected a batch against the fetched target"),
    }
}

#[test]
fn a_satisfying_candidate_is_submitted_with_its_nonce_and_the_address() {
    let mut s = session();
    let t = Target { work: calculate_work(STRONG), block: ShortHash([1; 6]) };
    s.step(MinerEvent::TargetUpdate(t));
    let nonce = [9u8; 12];
    let action = s.step(MinerEvent::BatchDone {
        elapsed_micros: 100_000,
        candidate: Some(Candidate { nonce, hash: ShortHash(STRONG) }),
    });
    match action {
        MinerAction::Submit(solution) => {
            assert_eq!(solution.nonce, nonce);
            assert!(solution.address == address());
        }
        _ => panic!("a candidate meeting the threshold must be submitted"),
    }
}

#[test]
fn a_candidate_below_the_threshold_is_never_submitted() {
    let mut s = session();
    let t = Target { work: calculate_work(WEAK) + 1, block: ShortHash([1; 6]) };
    s.step(MinerEvent::TargetUpdate(t));
    let action = s.step(MinerEvent::BatchDone {
        elapsed_micros: 100_000,
        candidate: Some(Candidate { nonce: [9; 12], hash: ShortHash(WEAK) }),
    });
    assert!(matches!(action, MinerAction::FetchTarget));
}

#[test]
fn an_empty_batch_goes_back_to_the_target_check() {
    let mut s = session();
    let t = Target { work: 400_000, block: ShortHash([1; 6]) };
    s.step(MinerEvent::TargetUpdate(t));
    let action = s.step(MinerEvent::BatchDone { elapsed_micros: 100_000, candidate: None });
    assert!(matches!(action, MinerAction::FetchTarget));
}

#[test]
fn a_target_change_discards_the_superseded_search() {
    let mut s = session();
    let old_target = Target { work: calculate_work(WEAK), block: ShortHash([1; 6]) };
    s.step(MinerEvent::TargetUpdate(old_target));

    // the chain tip advances: a new block and a harder threshold
    let new_target = Target { work: calculate_work(STRONG), block: ShortHash([2; 6]) };
    let on_change = s.step(MinerEvent::TargetUpdate(new_target));
    match on_change {
        MinerAction::RunBatch { target, .. } => assert!(target == new_target),
        _ => panic!("a target change must start a fresh batch, never submit"),
    }

    // a candidate that satisfied only the superseded target is not emitted
    let action = s.step(MinerEvent::BatchDone {
        elapsed_micros: 100_000,
        candidate: Some(Candidate { nonce: [3; 12], hash: ShortHash(WEAK) }),
    });
    assert!(matches!(action, MinerAction::FetchTarget));
}

#[test]
fn the_batch_size_adapts_between_batches() {
    let mut s = session();
    let t = Target { work: u64::MAX, block: ShortHash([1; 6]) };
    s.step(MinerEvent::TargetUpdate(t));
    assert_eq!(s.batch_size, 1);
    // a fast batch grows the next one
    s.step(MinerEvent::BatchDone { elapsed_micros: 10_000, candidate: None });
    assert_eq!(s.batch_size, 10);
    // a slow batch shrinks it again
    s.step(MinerEvent::BatchDone { elapsed_micros: 1_000_000, candidate: None });
    assert_eq!(s.batch_size, 1);
}

#[test]
fn shutdown_stops_the_loop() {
    let mut s = session();
    let action = s.step(MinerEvent::Shutdown);
    assert!(matches!(action, MinerAction::Stop));
}

#[test]
fn a_device_failure_abandons_the_loop_with_an_error() {
    let mut s = session();
    let t = Target { work: 400_000, block: ShortHash([1; 6]) };
    s.step(MinerEvent::TargetUpdate(t));
    let action = s.step(MinerEvent::DeviceFailed);
    assert!(matches!(action, MinerAction::Fail));
}

#[test]
fn the_session_keeps_its_tuning_clamped_positive() {
    let s = SessionState::new(address(), 0, 0);
    assert_eq!(s.target_kernel_micros, 1);
    assert_eq!(s.max_worksize, 1);
    assert_eq!(s.batch_size, 1);
}
