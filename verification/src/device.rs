//! The device: shared state, dispatcher and the deferred-task protocol.
//!
//! One `Device` value owns everything a running firmware owns: the shared
//! device state touched only by immediate handlers, the slot pool of the
//! deferred sleep handler, and the job/share engine. `dispatch` is the
//! single entry point for inbound frames; it runs immediate handlers to
//! completion on the caller's context (so no two ever interleave) and turns
//! deferred work into a `SleepTask` the surrounding runtime executes,
//! reporting back through `sleep_complete` or `sleep_failed`.

use crate::catalog::{resolve, spec_resolve, OpId, SLEEP_POOL};
use crate::engine::{spec_share_for, spec_step_job, spec_step_stop, Engine, EngineState};
use crate::pool::SlotPool;
use crate::wire::{
    job_valid, Chain, DispatchError, Info, Job, LedState, Share, SleepMillis, SleptMillis,
};
use vstd::prelude::*;

verus! {

/// The state only immediate handlers may touch, exclusively owned by the
/// dispatch context.
#[derive(Debug, Clone, Copy, PartialEq, Eq)]
pub struct DeviceState {
    pub unique_id: u64,
    pub led: LedState,
    pub chain: Chain,
    pub version: &'static str,
}

impl DeviceState {
    /// Immediate handler of the unique-id endpoint.
    pub fn unique_id(&self) -> (r: u64)
        ensures
            r == self.unique_id,
    {
        self.unique_id
    }

    /// Immediate handler of the LED endpoint: drives the LED to the
    /// requested state.
    pub fn set_led(&mut self, arg: LedState)
        ensures
            final(self).led == arg,
            final(self).unique_id == old(self).unique_id,
            final(self).chain == old(self).chain,
            final(self).version == old(self).version,
    {
        self.led = arg;
    }

    /// Immediate handler of the info endpoint: firmware version and chain
    /// descriptor.
    pub fn info(&self) -> (r: Info<'static>)
        ensures
            r.version == self.version,
            r.chain == self.chain,
    {
        Info { version: self.version, chain: self.chain }
    }
}

/// One inbound transport message: where it goes, how to correlate the
/// reply, and what it carries.
#[derive(Debug, Clone, Copy)]
pub struct Frame<'a> {
    pub path: &'a str,
    pub seq_no: u32,
    pub payload: Payload,
}

/// The decoded payload of an inbound frame. Decoding bytes into one of
/// these is the transport's concern and happens before dispatch.
#[derive(Debug, Clone, Copy, PartialEq, Eq)]
pub enum Payload {
    Empty,
    Sleep(SleepMillis),
    Led(LedState),
    JobMsg(Job),
}

/// A reply the dispatcher sends on behalf of an immediate handler, or a
/// deferred task sends itself.
#[derive(Debug, Clone, Copy, PartialEq, Eq)]
pub enum Reply {
    UniqueId(u64),
    Ack,
    InfoReport(Info<'static>),
    Slept(SleptMillis),
}

/// The deferred sleep handler's work order: which request to answer and
/// how long to sleep. The task holds one pool slot until it ends.
#[derive(Debug, Clone, Copy, PartialEq, Eq)]
pub struct SleepTask {
    pub seq_no: u32,
    pub millis: u16,
}

/// A correlated reply, ready for the transport to send.
#[derive(Debug, Clone, Copy, PartialEq, Eq)]
pub struct Completion {
    pub seq_no: u32,
    pub reply: Reply,
}

/// What one dispatch did, and what the surrounding runtime must do next.
#[derive(Debug, Clone, Copy, PartialEq, Eq)]
pub enum Outcome {
    /// An immediate handler ran; send this reply, correlated by the
    /// request's sequence number.
    Replied { seq_no: u32, reply: Reply },
    /// A deferred handler was granted a pool slot; run the task and hand
    /// its end back through `sleep_complete` or `sleep_failed`.
    Spawned { task: SleepTask },
    /// A host-to-device topic message was handled; topics get no reply.
    TopicDone,
    /// The reset endpoint ran: send no reply, dispatch nothing further,
    /// and reset the device into its secondary boot mode.
    Halting,
    /// A recoverable failure, reported to the caller; the device goes on.
    Failed { seq_no: u32, err: DispatchError },
    /// The device has halted; the frame is dropped without effect.
    Unresponsive,
}

/// Everything a running device owns.
pub struct Device {
    /// Set by the reset endpoint; a halted device dispatches nothing.
    pub halted: bool,
    /// Shared device state of the immediate handlers.
    pub ctx: DeviceState,
    /// Slots of the deferred sleep handler.
    pub sleep_pool: SlotPool,
    /// The job/share engine.
    pub engine: Engine,
}

impl Device {
    /// The pool is well formed and sized for the sleep handler, and the
    /// chain descriptor makes sense.
    pub open spec fn wf(self) -> bool {
        &&& self.sleep_pool.wf()
        &&& self.sleep_pool.capacity == SLEEP_POOL
        &&& self.ctx.chain.wf()
    }

    /// A device fresh out of startup: nothing halted, no task in flight,
    /// the engine idle.
    pub fn new(unique_id: u64, chain: Chain, version: &'static str) -> (r: Device)
        requires
            chain.wf(),
        ensures
            r.wf(),
            !r.halted,
            r.ctx == (DeviceState { unique_id, led: LedState::Off, chain, version }),
            r.sleep_pool.occupied() == 0,
            forall|s: u32| !r.sleep_pool.holds(s),
            r.engine.state == EngineState::Idle,
    {
        Device {
            halted: false,
            ctx: DeviceState { unique_id, led: LedState::Off, chain, version },
            sleep_pool: SlotPool::new(SLEEP_POOL),
            engine: Engine::new(),
        }
    }

    /// Immediate handler of the reset endpoint: ends normal operation.
    /// The jump into the ROM's secondary boot mode is the platform's part;
    /// from here on the device answers nothing until an external reset.
    pub fn picoboot_reset(&mut self)
        ensures
            final(self).halted,
            final(self).ctx == old(self).ctx,
            final(self).sleep_pool == old(self).sleep_pool,
            final(self).engine == old(self).engine,
    {
        self.halted = true;
    }

    /// Routes one inbound frame to its handler and runs it.
    ///
    /// Every registered endpoint answers exactly once, correlated by the
    /// frame's sequence number: immediate handlers through the returned
    /// reply, the deferred sleep handler through the task's later
    /// completion, and failures through the returned error. An unregistered
    /// path is reported as `UnknownPath` and runs no handler. A halted
    /// device drops the frame.
    ///
    /// The transport guarantees sequence numbers unique among requests
    /// still awaiting a reply, so the frame's cannot belong to a task that
    /// is still in flight.
    pub fn dispatch(&mut self, frame: Frame<'_>) -> (r: Outcome)
        requires
            old(self).wf(),
            !old(self).sleep_pool.holds(frame.seq_no),
        ensures
            final(self).wf(),
            final(self).ctx.unique_id == old(self).ctx.unique_id,
            final(self).ctx.chain == old(self).ctx.chain,
            final(self).ctx.version == old(self).ctx.version,
            // Whatever the path: a reply or failure the dispatcher produces
            // is correlated by the frame's own sequence number, and a
            // spawned task answers under that same number later.
            r matches Outcome::Replied { seq_no, reply } ==> seq_no == frame.seq_no,
            r matches Outcome::Spawned { task } ==> task.seq_no == frame.seq_no,
            r matches Outcome::Failed { seq_no, err } ==> seq_no == frame.seq_no,
            // A halted device is unresponsive until an external reset.
            old(self).halted ==> r == Outcome::Unresponsive && *final(self) == *old(self),
            // An unregistered path runs no handler and fails recoverably.
            !old(self).halted && spec_resolve(frame.path@) is None ==> r == (Outcome::Failed {
                seq_no: frame.seq_no,
                err: DispatchError::UnknownPath,
            }) && *final(self) == *old(self),
            // Device-to-host topics have no inbound handler either.
            !old(self).halted && (spec_resolve(frame.path@) == Some(OpId::AsicTempOut)
                || spec_resolve(frame.path@) == Some(OpId::ShareOut)) ==> r == (Outcome::Failed {
                seq_no: frame.seq_no,
                err: DispatchError::UnknownPath,
            }) && *final(self) == *old(self),
            // The unique-id endpoint replies with the device's unique id.
            !old(self).halted && spec_resolve(frame.path@) == Some(OpId::UniqueIdGet)
                && frame.payload is Empty ==> r == (Outcome::Replied {
                seq_no: frame.seq_no,
                reply: Reply::UniqueId(old(self).ctx.unique_id),
            }) && *final(self) == *old(self),
            // The reset endpoint halts the device and never replies.
            !old(self).halted && spec_resolve(frame.path@) == Some(OpId::PicobootReset)
                && frame.payload is Empty ==> r == Outcome::Halting && final(self).halted && final(self).ctx == old(self).ctx && final(self).sleep_pool == old(self).sleep_pool && final(self).engine == old(self).engine,
            // The sleep endpoint takes a pool slot or is declined.
            !old(self).halted && spec_resolve(frame.path@) == Some(OpId::Sleep) ==> (frame.payload
                matches Payload::Sleep(m) ==> ({
                &&& old(self).sleep_pool.full() ==> r == (Outcome::Failed {
                    seq_no: frame.seq_no,
                    err: DispatchError::PoolExhausted,
                }) && *final(self) == *old(self)
                &&& !old(self).sleep_pool.full() ==> r == (Outcome::Spawned {
                    task: SleepTask { seq_no: frame.seq_no, millis: m.millis },
                }) && final(self).sleep_pool.in_flight@ == old(self).sleep_pool.in_flight@.push(
                    frame.seq_no,
                ) && final(self).ctx == old(self).ctx && final(self).engine == old(self).engine
                    && final(self).halted == old(self).halted
            })),
            // The LED endpoint drives the LED and acknowledges.
            !old(self).halted && spec_resolve(frame.path@) == Some(OpId::LedSet) ==> (frame.payload
                matches Payload::Led(l) ==> r == (Outcome::Replied {
                seq_no: frame.seq_no,
                reply: Reply::Ack,
            }) && final(self).ctx.led == l && final(self).sleep_pool == old(self).sleep_pool
                && final(self).engine == old(self).engine && final(self).halted == old(
                self,
            ).halted),
            // The info endpoint reports version and chain.
            !old(self).halted && spec_resolve(frame.path@) == Some(OpId::InfoGet) && frame.payload
                is Empty ==> r == (Outcome::Replied {
                seq_no: frame.seq_no,
                reply: Reply::InfoReport(
                    Info { version: old(self).ctx.version, chain: old(self).ctx.chain },
                ),
            }) && *final(self) == *old(self),
            // The job topic moves the engine; a malformed job is declined.
            !old(self).halted && spec_resolve(frame.path@) == Some(OpId::JobIn) ==> (frame.payload
                matches Payload::JobMsg(j) ==> ({
                &&& final(self).engine.state == spec_step_job(old(self).engine.state, j)
                &&& final(self).ctx == old(self).ctx
                &&& final(self).sleep_pool == old(self).sleep_pool
                &&& final(self).halted == old(self).halted
                &&& job_valid(j) ==> r == Outcome::TopicDone
                &&& !job_valid(j) ==> r == (Outcome::Failed {
                    seq_no: frame.seq_no,
                    err: DispatchError::InvalidJob,
                }) && *final(self) == *old(self)
            })),
            // The stop topic idles the engine; stopping idle is a no-op.
            !old(self).halted && spec_resolve(frame.path@) == Some(OpId::StopIn) && frame.payload
                is Empty ==> r == Outcome::TopicDone && final(self).engine.state == spec_step_stop(
                old(self).engine.state,
            ) && final(self).ctx == old(self).ctx && final(self).sleep_pool == old(self).sleep_pool && final(self).halted == old(self).halted,
            // A payload that does not fit the operation is the transport's
            // decode failure, surfaced without running a handler.
            !old(self).halted ==> (spec_resolve(frame.path@) matches Some(id) && id
                != OpId::AsicTempOut && id != OpId::ShareOut && !payload_fits(
                id,
                frame.payload,
            ) ==> r == (Outcome::Failed {
                seq_no: frame.seq_no,
                err: DispatchError::TransportDecodeError,
            }) && *final(self) == *old(self)),
    {
        if self.halted {
            return Outcome::Unresponsive;
        }
        match resolve(frame.path) {
            None => Outcome::Failed { seq_no: frame.seq_no, err: DispatchError::UnknownPath },
            Some(id) => match (id, frame.payload) {
                (OpId::UniqueIdGet, Payload::Empty) => {
                    let uid = self.ctx.unique_id();
                    Outcome::Replied { seq_no: frame.seq_no, reply: Reply::UniqueId(uid) }
                },
                (OpId::PicobootReset, Payload::Empty) => {
                    self.picoboot_reset();
                    Outcome::Halting
                },
                (OpId::Sleep, Payload::Sleep(m)) => {
                    if self.sleep_pool.try_acquire(frame.seq_no) {
                        Outcome::Spawned {
                            task: SleepTask { seq_no: frame.seq_no, millis: m.millis },
                        }
                    } else {
                        Outcome::Failed {
                            seq_no: frame.seq_no,
                            err: DispatchError::PoolExhausted,
                        }
                    }
                },
                (OpId::LedSet, Payload::Led(l)) => {
                    self.ctx.set_led(l);
                    Outcome::Replied { seq_no: frame.seq_no, reply: Reply::Ack }
                },
                (OpId::InfoGet, Payload::Empty) => {
                    let report = self.ctx.info();
                    Outcome::Replied { seq_no: frame.seq_no, reply: Reply::InfoReport(report) }
                },
                (OpId::JobIn, Payload::JobMsg(j)) => match self.engine.hash_job(j) {
                    Ok(()) => Outcome::TopicDone,
                    Err(e) => Outcome::Failed { seq_no: frame.seq_no, err: e },
                },
                (OpId::StopIn, Payload::Empty) => {
                    self.engine.stop_hashing();
                    Outcome::TopicDone
                },
                (OpId::AsicTempOut, _) | (OpId::ShareOut, _) => Outcome::Failed {
                    seq_no: frame.seq_no,
                    err: DispatchError::UnknownPath,
                },
                _ => Outcome::Failed {
                    seq_no: frame.seq_no,
                    err: DispatchError::TransportDecodeError,
                },
            },
        }
    }

    /// The deferred sleep handler's normal end: the timer elapsed, the
    /// slot is given back, and the task's own reply is produced, correlated
    /// by the sequence number it was spawned with.
    ///
    /// The timer never wakes the task early, so the elapsed time it
    /// measured is at least the requested one.
    pub fn sleep_complete(&mut self, task: SleepTask, elapsed: u16) -> (r: Completion)
        requires
            old(self).wf(),
            old(self).sleep_pool.holds(task.seq_no),
            elapsed >= task.millis,
        ensures
            final(self).wf(),
            r.seq_no == task.seq_no,
            r.reply == Reply::Slept(SleptMillis { millis: elapsed }),
            !final(self).sleep_pool.holds(task.seq_no),
            forall|s: u32|
                s != task.seq_no ==> final(self).sleep_pool.holds(s) == old(self).sleep_pool.holds(s),
            final(self).sleep_pool.occupied() == old(self).sleep_pool.occupied() - 1,
            final(self).ctx == old(self).ctx,
            final(self).engine == old(self).engine,
            final(self).halted == old(self).halted,
    {
        self.sleep_pool.release(task.seq_no);
        Completion { seq_no: task.seq_no, reply: Reply::Slept(SleptMillis { millis: elapsed }) }
    }

    /// The deferred sleep handler's abnormal end: the slot is given back
    /// with no reply produced. The caller's request stays unanswered — a
    /// caller-visible timeout, not a device failure.
    pub fn sleep_failed(&mut self, task: SleepTask)
        requires
            old(self).wf(),
            old(self).sleep_pool.holds(task.seq_no),
        ensures
            final(self).wf(),
            !final(self).sleep_pool.holds(task.seq_no),
            forall|s: u32|
                s != task.seq_no ==> final(self).sleep_pool.holds(s) == old(self).sleep_pool.holds(s),
            final(self).sleep_pool.occupied() == old(self).sleep_pool.occupied() - 1,
            final(self).ctx == old(self).ctx,
            final(self).engine == old(self).engine,
            final(self).halted == old(self).halted,
    {
        self.sleep_pool.release(task.seq_no);
    }

    /// A qualifying nonce arrived from the search: the share to publish on
    /// the share topic, if a job is current.
    pub fn share_found(
        &self,
        nonce: u32,
        rolled_version: Option<u32>,
        rolled_ntime: Option<u32>,
    ) -> (r: Option<Share>)
        ensures
            r == spec_share_for(self.engine.state, nonce, rolled_version, rolled_ntime),
    {
        self.engine.share_found(nonce, rolled_version, rolled_ntime)
    }
}

/// Which decoded payload each inbound operation takes. Device-to-host
/// topics take none: they are never dispatched.
pub open spec fn payload_fits(id: OpId, p: Payload) -> bool {
    match id {
        OpId::UniqueIdGet => p is Empty,
        OpId::PicobootReset => p is Empty,
        OpId::Sleep => p is Sleep,
        OpId::LedSet => p is Led,
        OpId::InfoGet => p is Empty,
        OpId::JobIn => p is JobMsg,
        OpId::StopIn => p is Empty,
        OpId::AsicTempOut => false,
        OpId::ShareOut => false,
    }
}

} // verus!
