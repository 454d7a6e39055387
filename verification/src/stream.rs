//! The completed-handshake stream wrapper and its graceful-shutdown machine.
//!
//! The stream owns the established session (and, through it, the transport)
//! for the rest of the connection's life. It performs no cryptography and no
//! buffering of its own: byte-level reads and writes pass straight through to
//! the session. What it does own is the two-phase shutdown sequence, which
//! re-enters the same retry discipline as the handshake: every step feeds the
//! engine's report into [`SecureStream::shutdown_step`], which either
//! finishes, suspends, or fails for good.

use vstd::prelude::*;

use crate::Interest;

verus! {

/// Where the graceful shutdown sequence of a stream stands.
#[derive(Clone, Copy, Debug, PartialEq, Eq, Structural)]
pub enum ShutdownState {
    /// No close-notify has been exchanged yet.
    NotBegun,
    /// Our close-notify went out; the peer's has not been observed. Not a
    /// terminal state: the caller polls again.
    NotifySent,
    /// Terminal success: the peer's close-notify arrived, or the transport
    /// reached a clean end of input without one.
    Closed,
    /// Terminal failure: the engine reported a hard error mid-shutdown;
    /// shutdown is not retried after it.
    Failed,
}

/// What one engine shutdown invocation reported.
#[derive(Debug)]
pub enum ShutdownVerdict<E> {
    /// Our close-notify was sent; the peer's has not been observed yet.
    NotifySent,
    /// The peer's protocol-level close-notify was observed.
    NotifyReceived,
    /// The transport reached a clean end of input without a protocol-level
    /// close-notify; peers that truncate the connection end up here.
    CleanEof,
    /// No progress without more readiness; retry on the next poll.
    WouldBlock(Interest),
    /// A hard failure, with the engine's diagnostic detail.
    Fault(E),
}

/// What one shutdown step yields to the caller.
#[derive(Debug)]
pub enum ShutdownOutcome<E> {
    /// The shutdown sequence ended in success.
    Done,
    /// Retry once the transport signals the given readiness.
    Suspended(Interest),
    /// The shutdown sequence ended in failure; it is not retried.
    Failed(E),
}

/// True while a shutdown step may still be taken: no terminal shutdown
/// result has been handed out on this stream.
pub open spec fn shutdown_live(s: ShutdownState) -> bool {
    s is NotBegun || s is NotifySent
}

/// The shutdown state one engine report moves a stream to.
///
/// Policy for the first phase (our close-notify sent, the peer's not yet
/// seen): the stream stays non-terminal and the step suspends, exactly as a
/// "would block" does, so a caller keeps polling until the peer answers or
/// the transport ends cleanly.
pub open spec fn shutdown_state_after<E>(pre: ShutdownState, v: ShutdownVerdict<E>) -> ShutdownState {
    match v {
        ShutdownVerdict::NotifySent => ShutdownState::NotifySent,
        ShutdownVerdict::NotifyReceived => ShutdownState::Closed,
        ShutdownVerdict::CleanEof => ShutdownState::Closed,
        ShutdownVerdict::WouldBlock(_) => pre,
        ShutdownVerdict::Fault(_) => ShutdownState::Failed,
    }
}

/// The outcome one engine report makes a shutdown step yield. Having sent
/// our close-notify, the next thing to happen is the peer's answer, so that
/// phase suspends waiting for read readiness.
pub open spec fn shutdown_outcome_of<E>(v: ShutdownVerdict<E>) -> ShutdownOutcome<E> {
    match v {
        ShutdownVerdict::NotifySent => ShutdownOutcome::Suspended(Interest::ReadReady),
        ShutdownVerdict::NotifyReceived => ShutdownOutcome::Done,
        ShutdownVerdict::CleanEof => ShutdownOutcome::Done,
        ShutdownVerdict::WouldBlock(i) => ShutdownOutcome::Suspended(i),
        ShutdownVerdict::Fault(e) => ShutdownOutcome::Failed(e),
    }
}

/// A completed handshake, ready for byte-stream use.
///
/// Bytes read from the session are the peer's decrypted bytes and bytes
/// written to it are encrypted on their way to the transport; this wrapper
/// adds no buffering and no cryptography of its own.
#[derive(Debug)]
pub struct SecureStream<S> {
    /// The established engine session; it owns the transport.
    pub session: S,
    /// Where the graceful shutdown sequence stands.
    pub shutdown: ShutdownState,
}

impl<S> SecureStream<S> {
    /// Wrap a freshly established session; its shutdown sequence has not begun.
    pub fn wrap(session: S) -> (r: SecureStream<S>)
        ensures
            r == (SecureStream { session, shutdown: ShutdownState::NotBegun }),
    {
        SecureStream { session, shutdown: ShutdownState::NotBegun }
    }

    /// Access to the session, and transitively to the transport inside it.
    pub fn get_ref(&self) -> (r: &S)
        ensures
            *r == self.session,
    {
        &self.session
    }

    /// Mutable access to the session, for the pass-through byte operations;
    /// the shutdown state is untouched.
    pub fn get_mut(&mut self) -> (r: &mut S)
        ensures
            *r == old(self).session,
            final(self).session == *final(r),
            final(self).shutdown == old(self).shutdown,
    {
        &mut self.session
    }

    /// Unwrap the stream back into its session, abandoning any shutdown
    /// progress recorded so far.
    pub fn into_session(self) -> (r: S)
        ensures
            r == self.session,
    {
        self.session
    }

    /// Feed one engine shutdown report into the shutdown sequence.
    ///
    /// Observing the peer's close-notify and observing a clean transport end
    /// of input both close the stream successfully; "would block" leaves the
    /// sequence where it was; a hard failure ends it for good. Stepping a
    /// stream whose shutdown already ended is caller misuse and is excluded
    /// by the precondition; an unverified caller must test the shutdown
    /// state first and treat a violation as a fault, not as an error.
    pub fn shutdown_step<E>(&mut self, v: ShutdownVerdict<E>) -> (r: ShutdownOutcome<E>)
        requires
            shutdown_live(old(self).shutdown),
        ensures
            final(self).session == old(self).session,
            final(self).shutdown == shutdown_state_after(old(self).shutdown, v),
            r == shutdown_outcome_of(v),
    {
        match v {
            ShutdownVerdict::NotifySent => {
                self.shutdown = ShutdownState::NotifySent;
                ShutdownOutcome::Suspended(Interest::ReadReady)
            }
            ShutdownVerdict::NotifyReceived => {
                self.shutdown = ShutdownState::Closed;
                ShutdownOutcome::Done
            }
            ShutdownVerdict::CleanEof => {
                self.shutdown = ShutdownState::Closed;
                ShutdownOutcome::Done
            }
            ShutdownVerdict::WouldBlock(i) => ShutdownOutcome::Suspended(i),
            ShutdownVerdict::Fault(e) => {
                self.shutdown = ShutdownState::Failed;
                ShutdownOutcome::Failed(e)
            }
        }
    }
}

/// Law: the two graceful endings agree. From any state in which a shutdown
/// step may still be taken, the step that observes the peer's close-notify
/// and the step that observes a clean transport end of input move the stream
/// to the same terminal state, `Closed`, and both yield `Done` — success,
/// never an error.
pub proof fn lemma_close_paths_agree<E>(pre: ShutdownState, v: ShutdownVerdict<E>)
    requires
        shutdown_live(pre),
        v is NotifyReceived || v is CleanEof,
    ensures
        shutdown_state_after(pre, v) == ShutdownState::Closed,
        shutdown_outcome_of(v) == ShutdownOutcome::<E>::Done,
{
}

} // verus!
