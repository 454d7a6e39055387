//! A non-blocking driver for handshake-based secure transports.
//!
//! A secure-transport engine (the *engine*) owns the cryptography and the
//! byte-level protocol; its operations either complete, fail for good, or
//! report "would block, retry". This library is the retry-driving shell
//! around such an engine: a state machine that steps a handshake attempt
//! forward across any number of "would block" signals, hands out a stream
//! wrapper once the handshake is done, and re-enters the same retry
//! discipline for the stream's graceful shutdown.
//!
//! The engine and the transport underneath it are opaque type parameters:
//! the driver moves them around, never looks inside them, and never
//! duplicates them. An unverified adapter performs the actual engine calls
//! and feeds their verdicts back into the machine.

use vstd::prelude::*;

pub mod fault;
pub mod handshake;
pub mod stream;

verus! {

/// The readiness a suspended operation waits for, so that a scheduler
/// knows which transport event should trigger the next poll.
#[derive(Clone, Copy, Debug, PartialEq, Eq, Structural)]
pub enum Interest {
    /// Progress needs more bytes from the peer.
    ReadReady,
    /// Progress needs room to send bytes to the peer.
    WriteReady,
}

} // verus!
