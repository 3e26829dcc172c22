//! The run-loop decision core shared by every mining backend.
//!
//! A miner's run-loop alternates outside work (fetching the target from the
//! network interface, executing a kernel batch on the device, submitting a
//! solution) with decisions. The decisions live here, verified: a
//! `SessionState` consumes one [`MinerEvent`] per step and answers with the
//! [`MinerAction`] the backend must perform next. The backend driving the
//! loop performs the action and hands back the resulting event.
//!
//! The step function guarantees the run-loop contract: a solution is emitted
//! only for a candidate whose derived work reaches the currently stored
//! target's threshold, observing a target change never emits a solution and
//! replaces the stored target before any further batch, and the batch size
//! follows the monotone closed-loop correction.

use crate::batch::next_batch_size;
use crate::batch::next_batch_size_spec;
use crate::model::Address;
use crate::model::ShortHash;
use crate::model::Solution;
use crate::model::Target;
use crate::model::target_eq;
use crate::work::calculate_work;
use crate::work::work_value;
use vstd::prelude::*;

verus! {

/// A candidate a batch surfaced: the nonce searched and the 6-byte fragment
/// of the digest the hashing collaborator computed for it.
#[derive(Clone, Copy, Debug)]
pub struct Candidate {
    pub nonce: [u8; 12],
    pub hash: ShortHash,
}

/// What the outside world reported back to the run-loop.
#[derive(Clone, Copy, Debug)]
pub enum MinerEvent {
    /// The interface answered a target fetch with the current target.
    TargetUpdate(Target),
    /// A batch finished after `elapsed_micros` of device time, surfacing at
    /// most one candidate.
    BatchDone { elapsed_micros: u64, candidate: Option<Candidate> },
    /// The interface signalled termination.
    Shutdown,
    /// The device failed mid-batch; the backend cannot continue.
    DeviceFailed,
}

/// What the backend must do next.
#[derive(Clone, Copy, Debug)]
pub enum MinerAction {
    /// Ask the interface for the current target, blocking until one exists.
    FetchTarget,
    /// Search `size` nonces against `target` on the device.
    RunBatch { size: u64, target: Target },
    /// Hand the solution to the interface for submission, then fetch the
    /// target again.
    Submit(Solution),
    /// Leave the run-loop.
    Stop,
    /// Leave the run-loop and surface the backend failure to the caller.
    Fail,
}

/// The local state of one miner's run-loop. Never shared: each miner owns
/// its session exclusively.
pub struct SessionState {
    /// The beneficiary address solutions are built for.
    pub address: Address,
    /// The target the current search is scoped to, once one was fetched.
    pub target: Option<Target>,
    /// The size of the next batch, in nonces.
    pub batch_size: u64,
    /// The desired duration of one batch, in microseconds.
    pub target_kernel_micros: u64,
    /// The upper bound on the batch size, in nonces.
    pub max_worksize: u64,
}

impl SessionState {
    /// Well-formedness: the tuning is positive and the batch size sits inside
    /// its bounds. Established by the constructor, preserved by every step.
    pub open spec fn wf(self) -> bool {
        1 <= self.batch_size <= self.max_worksize && 1 <= self.target_kernel_micros
    }

    /// The state after one step.
    pub open spec fn step_state(self, event: MinerEvent) -> SessionState {
        match event {
            MinerEvent::TargetUpdate(t) => SessionState { target: Some(t), ..self },
            MinerEvent::BatchDone { elapsed_micros, candidate } => SessionState {
                batch_size: next_batch_size_spec(
                    self.batch_size,
                    elapsed_micros,
                    self.target_kernel_micros,
                    self.max_worksize,
                ) as u64,
                ..self
            },
            MinerEvent::Shutdown => self,
            MinerEvent::DeviceFailed => self,
        }
    }

    /// The action one step answers with.
    pub open spec fn step_action(self, event: MinerEvent) -> MinerAction {
        match event {
            MinerEvent::TargetUpdate(t) => MinerAction::RunBatch {
                size: self.batch_size,
                target: t,
            },
            MinerEvent::BatchDone { elapsed_micros, candidate } => {
                match (candidate, self.target) {
                    (Some(c), Some(t)) => {
                        if work_value(c.hash.0@) >= t.work {
                            MinerAction::Submit(
                                Solution { address: self.address, nonce: c.nonce },
                            )
                        } else {
                            MinerAction::FetchTarget
                        }
                    },
                    _ => MinerAction::FetchTarget,
                }
            },
            MinerEvent::Shutdown => MinerAction::Stop,
            MinerEvent::DeviceFailed => MinerAction::Fail,
        }
    }

    /// A fresh session for one miner: no target yet, the smallest batch, the
    /// given tuning with each bound forced positive.
    pub fn new(address: Address, target_kernel_micros: u64, max_worksize: u64) -> (s: SessionState)
        ensures
            s.wf(),
            s.address == address,
            s.target is None,
            s.batch_size == 1,
            s.target_kernel_micros == if target_kernel_micros >= 1 {
                target_kernel_micros as int
            } else {
                1
            },
            s.max_worksize == if max_worksize >= 1 {
                max_worksize as int
            } else {
                1
            },
    {
        SessionState {
            address,
            target: None,
            batch_size: 1,
            target_kernel_micros: if target_kernel_micros >= 1 {
                target_kernel_micros
            } else {
                1
            },
            max_worksize: if max_worksize >= 1 {
                max_worksize
            } else {
                1
            },
        }
    }

    /// Consume one event and decide the next action.
    ///
    /// Every guarantee of the run-loop contract is stated here: the tuning
    /// and address never change; a target update replaces the stored target
    /// and answers with a batch against the new target only — never with a
    /// solution, so nothing found under a superseded target survives the
    /// change; a finished batch adapts the batch size by the monotone
    /// closed-loop rule and submits its candidate exactly when the
    /// candidate's derived work reaches the stored target's threshold; a
    /// shutdown stops the loop, a device failure abandons it with an error,
    /// and neither changes the state.
    pub fn step(&mut self, event: MinerEvent) -> (action: MinerAction)
        requires
            old(self).wf(),
        ensures
            final(self).wf(),
            *final(self) == old(self).step_state(event),
            action == old(self).step_action(event),
    {
        match event {
            MinerEvent::TargetUpdate(t) => {
                self.target = Some(t);
                MinerAction::RunBatch { size: self.batch_size, target: t }
            },
            MinerEvent::BatchDone { elapsed_micros, candidate } => {
                self.batch_size = next_batch_size(
                    self.batch_size,
                    elapsed_micros,
                    self.target_kernel_micros,
                    self.max_worksize,
                );
                match (candidate, &self.target) {
                    (Some(c), Some(t)) => {
                        let work = calculate_work(c.hash.0);
                        if work >= t.work {
                            MinerAction::Submit(Solution { address: self.address, nonce: c.nonce })
                        } else {
                            MinerAction::FetchTarget
                        }
                    },
                    _ => MinerAction::FetchTarget,
                }
            },
            MinerEvent::Shutdown => MinerAction::Stop,
            MinerEvent::DeviceFailed => MinerAction::Fail,
        }
    }
}

/// A run-loop step never emits a solution that falls short of the active
/// target: whenever a step answers `Submit`, the step consumed a finished
/// batch whose candidate's derived work reaches the threshold of the target
/// stored when the batch was evaluated, and the solution carries that
/// candidate's nonce and the session's address.
pub proof fn lemma_no_undeserving_solution(pre: SessionState, event: MinerEvent)
    ensures
        pre.step_action(event) matches MinerAction::Submit(s) ==> {
            &&& event matches MinerEvent::BatchDone { candidate: Some(c), .. } && {
                &&& pre.target matches Some(t) && work_value(c.hash.0@) >= t.work
                &&& s.nonce@ == c.nonce@
            }
            &&& s.address == pre.address
        },
{
}

/// Observing a target change never emits a solution: the step that consumes
/// a target update replaces the stored target before anything else runs, and
/// answers with a fresh batch scoped to the new target. Any candidate a
/// later step submits is therefore evaluated against the updated target, so
/// no solution computed against the superseded target is emitted after the
/// change is observed.
pub proof fn lemma_target_change_discards_search(pre: SessionState, t: Target)
    ensures
        !(pre.step_action(MinerEvent::TargetUpdate(t)) is Submit),
        pre.step_state(MinerEvent::TargetUpdate(t)).target == Some(t),
        pre.step_action(MinerEvent::TargetUpdate(t)) matches MinerAction::RunBatch {
            target: bt,
            ..
        } && target_eq(bt, t),
{
}

} // verus!
