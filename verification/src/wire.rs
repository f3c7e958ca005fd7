//! Payload types of the wire contract.
//!
//! These are the values carried by endpoint requests, endpoint responses and
//! topic messages. They are plain data; the catalog that binds each of them
//! to a path lives in `catalog`.

use vstd::prelude::*;

verus! {

/// Request of the diagnostic sleep endpoint: how long to sleep.
#[derive(Debug, Clone, Copy, PartialEq, Eq)]
pub struct SleepMillis {
    pub millis: u16,
}

/// Response of the diagnostic sleep endpoint: how long was actually slept.
#[derive(Debug, Clone, Copy, PartialEq, Eq)]
pub struct SleptMillis {
    pub millis: u16,
}

/// Requested state of the board LED.
#[derive(Debug, Clone, Copy, PartialEq, Eq)]
pub enum LedState {
    Off,
    On,
}

/// The fixed set of ASIC variants a chain can be built from.
#[derive(Debug, Clone, Copy, PartialEq, Eq)]
pub enum Asic {
    Bm1362,
    Bm1366,
    Bm1368,
    Bm1370,
}

/// Descriptor of the attached ASIC chain: variant and chip count.
#[derive(Debug, Clone, Copy, PartialEq, Eq)]
pub struct Chain {
    pub asic: Asic,
    pub cnt: u8,
}

impl Chain {
    /// A chain descriptor makes sense only with at least one chip.
    pub open spec fn wf(self) -> bool {
        self.cnt >= 1
    }
}

/// Response of the info endpoint: firmware version and chain descriptor.
#[derive(Debug, Clone, Copy, PartialEq, Eq)]
pub struct Info<'a> {
    pub version: &'a str,
    pub chain: Chain,
}

/// One unit of mining work, as submitted by the host.
#[derive(Debug, Clone, Copy, PartialEq, Eq)]
pub struct Job {
    pub id: u32,
    pub version: u32,
    pub prev_tx_hash: [u8; 32],
    pub merkle_root: [u8; 32],
    pub ntime: u32,
    pub nbits: u32,
}

/// A well-formed job carries usable difficulty bits: the low 24 bits of
/// `nbits` are the compact target's mantissa, and a zero mantissa denotes a
/// target nothing can meet. Such a job is rejected instead of started.
pub open spec fn job_valid(j: Job) -> bool {
    j.nbits & 0x00ff_ffff != 0
}

/// Runtime check of [`job_valid`].
pub fn job_is_valid(j: &Job) -> (r: bool)
    ensures
        r == job_valid(*j),
{
    j.nbits & 0x00ff_ffff != 0
}

/// The recoverable failures the dispatcher reports back to the caller.
/// None of them halts the device.
#[derive(Debug, Clone, Copy, PartialEq, Eq, Structural)]
pub enum DispatchError {
    /// No handler is registered for the inbound frame's path.
    UnknownPath,
    /// The deferred handler kind is at capacity; the request is declined.
    PoolExhausted,
    /// A job message carried malformed fields; the engine kept its state.
    InvalidJob,
    /// The frame's payload does not decode as the operation's request type.
    /// Decoding itself is the transport's concern; the dispatcher surfaces
    /// its failure like an unroutable frame.
    TransportDecodeError,
}

/// A candidate solution found for a job: the nonce, and the version or
/// timestamp values actually used when the search rolled them.
#[derive(Debug, Clone, Copy, PartialEq, Eq)]
pub struct Share {
    pub job_id: u32,
    pub rolled_version: Option<u32>,
    pub rolled_ntime: Option<u32>,
    pub nonce: u32,
}

} // verus!
