//! Firmware-side control plane of a USB-attached hashing accelerator.
//!
//! The crate models the device's command plane: the fixed catalog of
//! endpoints and topics, the dispatcher that routes inbound frames to
//! handlers, the bounded pool that limits concurrently running deferred
//! handlers, and the job/share engine that owns the mining-work lifecycle.
//! Hardware access, the transport, and the wire encoding are collaborators
//! kept outside this crate; they exchange plain values with it.

pub mod catalog;
pub mod device;
pub mod engine;
pub mod pool;
pub mod strutil;
pub mod wire;
