//! Derivation of a 64-bit work value from a 6-byte hash fragment.
//!
//! The fragment is read as the low 6 bytes of an 8-byte big-endian integer
//! whose top 2 bytes are zero, so the numeric order of work values agrees
//! with the lexicographic order of the fragments.

use vstd::prelude::*;

verus! {

/// The work value of a 6-byte fragment: the fragment read as a big-endian
/// unsigned integer.
pub open spec fn work_value(hash: Seq<u8>) -> int
    recommends
        hash.len() == 6,
{
    hash[0] * 0x10000000000 + hash[1] * 0x100000000 + hash[2] * 0x1000000 + hash[3] * 0x10000
        + hash[4] * 0x100 + hash[5]
}

/// Derive the work value of a candidate's 6-byte hash fragment. Total over
/// all inputs; the result always fits in the low 48 bits of a `u64`.
pub fn calculate_work(hash: [u8; 6]) -> (work: u64)
    ensures
        work == work_value(hash@),
        work <= 0xFFFFFFFFFFFF,
{
    let b0 = hash[0] as u64;
    let b1 = hash[1] as u64;
    let b2 = hash[2] as u64;
    let b3 = hash[3] as u64;
    let b4 = hash[4] as u64;
    let b5 = hash[5] as u64;
    b0 * 0x10000000000 + b1 * 0x100000000 + b2 * 0x1000000 + b3 * 0x10000 + b4 * 0x100 + b5
}

/// Lexicographic "greater than" on byte sequences of equal length: the two
/// agree on a (possibly empty) prefix and the first sequence holds the larger
/// byte at the first position where they differ.
pub open spec fn lex_gt(h1: Seq<u8>, h2: Seq<u8>) -> bool
    recommends
        h1.len() == h2.len(),
{
    exists|i: int|
        0 <= i < h1.len() && h1[i] > h2[i] && (forall|j: int| 0 <= j < i ==> h1[j] == h2[j])
}

/// A fragment lexicographically greater than another derives a strictly
/// greater work value: work-value order agrees with fragment order.
pub proof fn lemma_work_value_monotone(h1: Seq<u8>, h2: Seq<u8>)
    requires
        h1.len() == 6,
        h2.len() == 6,
        lex_gt(h1, h2),
    ensures
        work_value(h1) > work_value(h2),
{
    let i = choose|i: int|
        0 <= i < h1.len() && h1[i] > h2[i] && (forall|j: int| 0 <= j < i ==> h1[j] == h2[j]);
    assert(h1[i] >= h2[i] + 1);
}

/// Fragments whose prefixes up to `i` agree and whose bytes at `i` differ are
/// ordered: one of the two is lexicographically greater.
proof fn lemma_lex_at(h1: Seq<u8>, h2: Seq<u8>, i: int)
    requires
        h1.len() == 6,
        h2.len() == 6,
        0 <= i < 6,
        h1[i] != h2[i],
        forall|j: int| 0 <= j < i ==> h1[j] == h2[j],
    ensures
        lex_gt(h1, h2) || lex_gt(h2, h1),
{
    if h1[i] > h2[i] {
        assert(0 <= i < h1.len() && h1[i] > h2[i] && (forall|j: int| 0 <= j < i ==> h1[j]
            == h2[j]));
    } else {
        assert(0 <= i < h2.len() && h2[i] > h1[i] && (forall|j: int| 0 <= j < i ==> h2[j]
            == h1[j]));
    }
}

/// Lexicographic order on 6-byte fragments is total: two fragments are equal,
/// or one of the two is greater.
pub proof fn lemma_lex_trichotomy(h1: Seq<u8>, h2: Seq<u8>)
    requires
        h1.len() == 6,
        h2.len() == 6,
    ensures
        h1 == h2 || lex_gt(h1, h2) || lex_gt(h2, h1),
{
    if h1[0] != h2[0] {
        lemma_lex_at(h1, h2, 0);
    } else if h1[1] != h2[1] {
        lemma_lex_at(h1, h2, 1);
    } else if h1[2] != h2[2] {
        lemma_lex_at(h1, h2, 2);
    } else if h1[3] != h2[3] {
        lemma_lex_at(h1, h2, 3);
    } else if h1[4] != h2[4] {
        lemma_lex_at(h1, h2, 4);
    } else if h1[5] != h2[5] {
        lemma_lex_at(h1, h2, 5);
    } else {
        assert(h1 =~= h2);
    }
}

/// Work-value order agrees exactly with lexicographic fragment order, in both
/// directions: comparing derived work values compares the fragments, so a
/// numerically harder target accepts exactly the lexicographically larger
/// fragments.
pub proof fn lemma_work_value_order_agrees(h1: Seq<u8>, h2: Seq<u8>)
    requires
        h1.len() == 6,
        h2.len() == 6,
    ensures
        lex_gt(h1, h2) <==> work_value(h1) > work_value(h2),
{
    if lex_gt(h1, h2) {
        lemma_work_value_monotone(h1, h2);
    }
    if work_value(h1) > work_value(h2) && !lex_gt(h1, h2) {
        lemma_lex_trichotomy(h1, h2);
        if lex_gt(h2, h1) {
            lemma_work_value_monotone(h2, h1);
        }
    }
}

/// The work value is a pure function of the fragment: equal fragments derive
/// equal work values.
pub proof fn lemma_work_value_deterministic(h1: Seq<u8>, h2: Seq<u8>)
    requires
        h1 == h2,
    ensures
        work_value(h1) == work_value(h2),
{
}

} // verus!
