use krist_miner::next_batch_size;

const MAX: u64 = 1 << 30;

#[test]
fn a_batch_faster_than_the_cadence_never_shrinks_the_next_batch() {
    // twice as fast: the size doubles
    assert_eq!(next_batch_size(100, 50_000, 100_000, MAX), 200);
    // marginally fast: never below the current size
    assert!(next_batch_size(100, 99_999, 100_000, MAX) >= 100);
}

#[test]
fn a_batch_slower_than_the_cadence_never_grows_the_next_batch() {
    // twice as slow: the size halves
    assert_eq!(next_batch_size(100, 200_000, 100_000, MAX), 50);
    // marginally slow: never above the current size
    assert!(next_batch_size(100, 100_001, 100_000, MAX) <= 100);
}

#[test]
fn a_batch_that_hits_the_cadence_keeps_the_size() {
    assert_eq!(next_batch_size(100, 100_000, 100_000, MAX), 100);
    assert_eq!(next_batch_size(1, 100_000, 100_000, MAX), 1);
    assert_eq!(next_batch_size(MAX, 100_000, 100_000, MAX), MAX);
}

#[test]
fn stable_timing_does_not_oscillate_across_steps() {
    let first = next_batch_size(100, 100_000, 100_000, MAX);
    let second = next_batch_size(first, 100_000, 100_000, MAX);
    assert_eq!(first, 100);
    assert_eq!(second, 100);
}

#[test]
fn the_size_is_clamped_to_the_configured_bound() {
    assert_eq!(next_batch_size(1 << 20, 1, 100_000, MAX), MAX);
    assert_eq!(next_batch_size(MAX, 50_000, 100_000, MAX), MAX);
}

#[test]
fn the_size_never_falls_below_one() {
    assert_eq!(next_batch_size(1, 100_000, 1, MAX), 1);
    assert_eq!(next_batch_size(5, u64::MAX, 1, MAX), 1);
}

#[test]
fn an_unmeasurably_fast_batch_jumps_to_the_bound() {
    assert_eq!(next_batch_size(3, 0, 100_000, MAX), MAX);
}
