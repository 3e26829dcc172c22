//! Core of a proof-of-work mining engine for a Krist-style block-reward
//! protocol.
//!
//! The library owns the pieces with algorithmic content: the work-value
//! derivation over 6-byte hash fragments, the `Target`/`Solution` data model,
//! the batch-sizing control loop, the per-miner run-loop decision logic, and
//! the factory that turns configuration into one miner per OpenCL device.
//! Device kernels and the network interface are outside collaborators.

mod batch;
mod model;
mod ocl;
mod session;
mod work;

pub use batch::lemma_batch_adaptation_monotone;
pub use batch::next_batch_size;
pub use batch::next_batch_size_spec;

pub use model::Address;
pub use model::MinerConfig;
pub use model::ShortHash;
pub use model::Solution;
pub use model::Target;
pub use model::address_eq;
pub use model::lemma_solution_eq_equivalence;
pub use model::lemma_target_eq_equivalence;
pub use model::short_hash_eq;
pub use model::solution_eq;
pub use model::target_eq;

pub use ocl::MinerError;
pub use ocl::OclMiner;
pub use ocl::create_miners;
pub use ocl::miners_for_devices;

pub use session::Candidate;
pub use session::MinerAction;
pub use session::MinerEvent;
pub use session::SessionState;
pub use session::lemma_no_undeserving_solution;
pub use session::lemma_target_change_discards_search;

pub use work::calculate_work;
pub use work::lemma_lex_trichotomy;
pub use work::lemma_work_value_deterministic;
pub use work::lemma_work_value_order_agrees;
pub use work::lemma_work_value_monotone;
pub use work::lex_gt;
pub use work::work_value;
