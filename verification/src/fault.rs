//! The terminal errors a handshake can end in.

use vstd::prelude::*;

verus! {

/// A non-retryable handshake failure, by the point at which it arose.
///
/// The detail payload `E` is the engine's own diagnostic value; the driver
/// carries it verbatim and never inspects it.
#[derive(Debug)]
pub enum HandshakeFault<E> {
    /// The session configuration could not be turned into an active session
    /// before any bytes were exchanged.
    Setup(E),
    /// The engine reported a hard handshake or record-layer failure after
    /// some interaction had occurred.
    Protocol(E),
    /// The underlying channel itself faulted (distinct from "would block").
    Transport(E),
}

} // verus!
