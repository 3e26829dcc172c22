//! The mining data model: hash fragments, addresses, targets and solutions.
//!
//! `Target` describes what a candidate must beat; `Solution` describes a
//! candidate that beat it. Both are immutable value types whose equality is
//! structural and exact.

use vstd::prelude::*;

verus! {

/// The 6-byte fragment of a full digest that the work derivation consumes.
#[derive(Clone, Copy, Debug)]
pub struct ShortHash(pub [u8; 6]);

/// The beneficiary identity a miner searches on behalf of: a fixed 10-byte
/// protocol address.
#[derive(Clone, Copy, Debug)]
pub struct Address(pub [u8; 10]);

/// What a candidate must beat: the minimum acceptable work value and the
/// block the threshold applies to. A target is stale once the referenced
/// block is no longer the chain tip.
#[derive(Clone, Copy, Debug)]
pub struct Target {
    pub work: u64,
    pub block: ShortHash,
}

/// An accepted candidate: the beneficiary address and the 12-byte nonce whose
/// derived work satisfied the active target.
#[derive(Clone, Copy, Debug)]
pub struct Solution {
    pub address: Address,
    pub nonce: [u8; 12],
}

/// Immutable mining configuration, consumed once when the factory builds the
/// miners; nothing is reconfigured afterwards. The desired kernel duration is
/// held in whole microseconds (the command line takes seconds and converts;
/// the default cadence of a tenth of a second is 100000 microseconds).
#[derive(Clone, Copy, Debug)]
pub struct MinerConfig {
    /// Whether OpenCL mining is enabled at all.
    pub use_gpu: bool,
    /// The desired duration of one kernel batch, in microseconds.
    pub target_kernel_micros: u64,
    /// The upper bound on the per-batch work size, in nonces.
    pub max_worksize: usize,
}

impl Default for MinerConfig {
    /// The stock configuration: mining enabled, a tenth of a second of
    /// device time per batch, and at most `2^30` nonces per batch.
    fn default() -> (c: MinerConfig)
        ensures
            c.use_gpu,
            c.target_kernel_micros == 100000,
            c.max_worksize == 0x40000000,
    {
        MinerConfig { use_gpu: true, target_kernel_micros: 100000, max_worksize: 0x40000000 }
    }
}

/// Structural equality of fragments: the two 6-byte views agree.
pub open spec fn short_hash_eq(a: ShortHash, b: ShortHash) -> bool {
    a.0@ == b.0@
}

/// Structural equality of addresses: the two 10-byte views agree.
pub open spec fn address_eq(a: Address, b: Address) -> bool {
    a.0@ == b.0@
}

/// Structural equality of targets: both the work threshold and the block
/// must match; there is no partial-match semantics.
pub open spec fn target_eq(a: Target, b: Target) -> bool {
    a.work == b.work && short_hash_eq(a.block, b.block)
}

/// Structural equality of solutions: both the address and the nonce must
/// match.
pub open spec fn solution_eq(a: Solution, b: Solution) -> bool {
    address_eq(a.address, b.address) && a.nonce@ == b.nonce@
}

impl PartialEq for ShortHash {
    fn eq(&self, other: &ShortHash) -> (r: bool) {
        let r = self.0[0] == other.0[0] && self.0[1] == other.0[1] && self.0[2] == other.0[2]
            && self.0[3] == other.0[3] && self.0[4] == other.0[4] && self.0[5] == other.0[5];
        proof {
            if r {
                assert(self.0@ =~= other.0@);
            }
        }
        r
    }
}

impl Eq for ShortHash {

}

impl vstd::std_specs::cmp::PartialEqSpecImpl for ShortHash {
    open spec fn obeys_eq_spec() -> bool {
        true
    }

    open spec fn eq_spec(&self, other: &ShortHash) -> bool {
        short_hash_eq(*self, *other)
    }
}

impl PartialEq for Address {
    fn eq(&self, other: &Address) -> (r: bool) {
        let mut i: usize = 0;
        while i < 10
            invariant
                0 <= i <= 10,
                forall|j: int| 0 <= j < i ==> self.0@[j] == other.0@[j],
            decreases 10 - i,
        {
            if self.0[i] != other.0[i] {
                return false;
            }
            i = i + 1;
        }
        proof {
            assert(self.0@ =~= other.0@);
        }
        true
    }
}

impl Eq for Address {

}

impl vstd::std_specs::cmp::PartialEqSpecImpl for Address {
    open spec fn obeys_eq_spec() -> bool {
        true
    }

    open spec fn eq_spec(&self, other: &Address) -> bool {
        address_eq(*self, *other)
    }
}

impl PartialEq for Target {
    fn eq(&self, other: &Target) -> (r: bool) {
        self.work == other.work && self.block == other.block
    }
}

impl Eq for Target {

}

impl vstd::std_specs::cmp::PartialEqSpecImpl for Target {
    open spec fn obeys_eq_spec() -> bool {
        true
    }

    open spec fn eq_spec(&self, other: &Target) -> bool {
        target_eq(*self, *other)
    }
}

impl PartialEq for Solution {
    fn eq(&self, other: &Solution) -> (r: bool) {
        if !(self.address == other.address) {
            return false;
        }
        let mut i: usize = 0;
        while i < 12
            invariant
                0 <= i <= 12,
                address_eq(self.address, other.address),
                forall|j: int| 0 <= j < i ==> self.nonce@[j] == other.nonce@[j],
            decreases 12 - i,
        {
            if self.nonce[i] != other.nonce[i] {
                return false;
            }
            i = i + 1;
        }
        proof {
            assert(self.nonce@ =~= other.nonce@);
        }
        true
    }
}

impl Eq for Solution {

}

impl vstd::std_specs::cmp::PartialEqSpecImpl for Solution {
    open spec fn obeys_eq_spec() -> bool {
        true
    }

    open spec fn eq_spec(&self, other: &Solution) -> bool {
        solution_eq(*self, *other)
    }
}

/// Target equality is an equivalence relation — reflexive, symmetric and
/// transitive — and holds exactly when both the work threshold and the block
/// fragment match, so changing either field yields an unequal target.
pub proof fn lemma_target_eq_equivalence(a: Target, b: Target, c: Target)
    ensures
        target_eq(a, a),
        target_eq(a, b) == target_eq(b, a),
        target_eq(a, b) && target_eq(b, c) ==> target_eq(a, c),
        target_eq(a, b) <==> (a.work == b.work && a.block.0@ == b.block.0@),
        a.work != b.work ==> !target_eq(a, b),
        a.block.0@ != b.block.0@ ==> !target_eq(a, b),
{
}

/// Solution equality is an equivalence relation and requires both the
/// address and the nonce to match.
pub proof fn lemma_solution_eq_equivalence(a: Solution, b: Solution, c: Solution)
    ensures
        solution_eq(a, a),
        solution_eq(a, b) == solution_eq(b, a),
        solution_eq(a, b) && solution_eq(b, c) ==> solution_eq(a, c),
        solution_eq(a, b) <==> (a.address.0@ == b.address.0@ && a.nonce@ == b.nonce@),
{
}

} // verus!
