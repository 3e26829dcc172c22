use krist_miner::Address;
use krist_miner::ShortHash;
use krist_miner::Solution;
use krist_miner::Target;

fn block_a() -> ShortHash {
    ShortHash([1, 2, 3, 4, 5, 6])
}

fn block_b() -> ShortHash {
    ShortHash([1, 2, 3, 4, 5, 7])
}

#[test]
fn target_equality_is_reflexive_and_symmetric() {
    let t1 = Target { work: 400_000, block: block_a() };
    let t2 = Target { work: 400_000, block: block_a() };
    assert!(t1 == t1);
    assert!(t1 == t2);
    assert!(t2 == t1);
}

#[test]
fn target_equality_is_transitive() {
    let t1 = Target { work: 9, block: block_b() };
    let t2 = Target { work: 9, block: block_b() };
    let t3 = Target { work: 9, block: block_b() };
    assert!(t1 == t2 && t2 == t3 && t1 == t3);
}

#[test]
fn changing_the_work_threshold_makes_targets_unequal() {
    let t1 = Target { work: 400_000, block: block_a() };
    let t2 = Target { work: 400_001, block: block_a() };
    assert!(t1 != t2);
}

#[test]
fn changing_the_block_makes_targets_unequal() {
    let t1 = Target { work: 400_000, block: block_a() };
    let t2 = Target { work: 400_000, block: block_b() };
    assert!(t1 != t2);
}

#[test]
fn solution_equality_requires_both_fields_to_match() {
    let addr1 = Address(*b"k123456789");
    let addr2 = Address(*b"k987654321");
    let s1 = Solution { address: addr1, nonce: [0; 12] };
    let s2 = Solution { address: addr1, nonce: [0; 12] };
    let s3 = Solution { address: addr2, nonce: [0; 12] };
    let s4 = Solution { address: addr1, nonce: [1, 0, 0, 0, 0, 0, 0, 0, 0, 0, 0, 0] };
    assert!(s1 == s2);
    assert!(s1 != s3);
    assert!(s1 != s4);
}

#[test]
fn short_hash_equality_is_exact() {
    assert!(block_a() == block_a());
    assert!(block_a() != block_b());
}
