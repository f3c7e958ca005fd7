//! The job/share engine: lifecycle of the device's mining work.
//!
//! The engine is a two-state machine, `Idle` or `Hashing` on exactly one
//! current job. A submitted job always becomes the current one, whatever was
//! running before (last write wins); a stop message or an exhausted search
//! space returns the engine to `Idle`. A qualifying nonce found while
//! hashing yields a share referencing the current job; the engine stays on
//! the same job afterwards, so one job may yield several shares.

use crate::wire::{job_is_valid, job_valid, DispatchError, Job, Share};
use vstd::prelude::*;

verus! {

/// Whether the device is hashing, and on which job.
#[derive(Debug, Clone, Copy, PartialEq, Eq)]
pub enum EngineState {
    Idle,
    Hashing(Job),
}

/// Owner of the current-job slot.
#[derive(Debug, Clone, Copy, PartialEq, Eq)]
pub struct Engine {
    pub state: EngineState,
}

/// Where a job submission takes the engine: a well-formed job becomes the
/// current one regardless of the prior state; a malformed one is rejected
/// and the state kept.
pub open spec fn spec_step_job(s: EngineState, job: Job) -> EngineState {
    if job_valid(job) {
        EngineState::Hashing(job)
    } else {
        s
    }
}

/// Where a stop message or an exhausted search space takes the engine.
pub open spec fn spec_step_stop(s: EngineState) -> EngineState {
    EngineState::Idle
}

/// The share reported for a qualifying nonce: it references the current
/// job, or nothing when the engine is idle.
pub open spec fn spec_share_for(
    s: EngineState,
    nonce: u32,
    rolled_version: Option<u32>,
    rolled_ntime: Option<u32>,
) -> Option<Share> {
    match s {
        EngineState::Hashing(j) => Some(
            Share { job_id: j.id, rolled_version, rolled_ntime, nonce },
        ),
        EngineState::Idle => None,
    }
}

impl Engine {
    /// A fresh engine waits idle for work.
    pub fn new() -> (r: Engine)
        ensures
            r.state == EngineState::Idle,
    {
        Engine { state: EngineState::Idle }
    }

    /// Accepts a job: it preempts whatever was current and hashing starts
    /// against its parameters. A malformed job is declined, the prior state
    /// kept, and `InvalidJob` reported.
    pub fn hash_job(&mut self, job: Job) -> (r: Result<(), DispatchError>)
        ensures
            final(self).state == spec_step_job(old(self).state, job),
            r is Ok <==> job_valid(job),
            r is Err ==> r == Err::<(), DispatchError>(DispatchError::InvalidJob) && *final(self)
                == *old(self),
    {
        if !job_is_valid(&job) {
            return Err(DispatchError::InvalidJob);
        }
        self.state = EngineState::Hashing(job);
        Ok(())
    }

    /// Cancels the current search, if any. Stopping an idle engine is a
    /// no-op, not an error.
    pub fn stop_hashing(&mut self)
        ensures
            final(self).state == spec_step_stop(old(self).state),
            old(self).state == EngineState::Idle ==> *final(self) == *old(self),
    {
        self.state = EngineState::Idle;
    }

    /// The search space of the current job ran out without a qualifying
    /// nonce: the engine goes idle and waits for the next job rather than
    /// retrying the same one.
    pub fn search_exhausted(&mut self)
        ensures
            final(self).state == spec_step_stop(old(self).state),
    {
        self.state = EngineState::Idle;
    }

    /// Builds the share for a qualifying nonce found by the search, with
    /// the version and timestamp values the search actually used where it
    /// rolled them. The engine stays hashing the same job, so several
    /// shares may follow from one job.
    pub fn share_found(
        &self,
        nonce: u32,
        rolled_version: Option<u32>,
        rolled_ntime: Option<u32>,
    ) -> (r: Option<Share>)
        ensures
            r == spec_share_for(self.state, nonce, rolled_version, rolled_ntime),
    {
        match self.state {
            EngineState::Hashing(j) => Some(
                Share { job_id: j.id, rolled_version, rolled_ntime, nonce },
            ),
            EngineState::Idle => None,
        }
    }
}

/// Law: a job submitted while another is current supersedes it. After two
/// well-formed submissions the engine hashes the later job, and any share
/// found from then on references the later job alone.
pub proof fn lemma_job_supersedes(
    s0: EngineState,
    a: Job,
    b: Job,
    nonce: u32,
    rolled_version: Option<u32>,
    rolled_ntime: Option<u32>,
)
    requires
        job_valid(a),
        job_valid(b),
    ensures
        ({
            let s2 = spec_step_job(spec_step_job(s0, a), b);
            &&& s2 == EngineState::Hashing(b)
            &&& (forall|sh: Share|
                spec_share_for(s2, nonce, rolled_version, rolled_ntime) == Some(sh) ==> sh.job_id
                    == b.id)
        }),
{
}

/// Law: a stop message while the engine is idle changes nothing.
pub proof fn lemma_stop_while_idle_is_noop()
    ensures
        spec_step_stop(EngineState::Idle) == EngineState::Idle,
{
}

} // verus!
