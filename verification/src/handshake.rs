//! The non-blocking handshake driver.
//!
//! A handshake attempt is a sum type: exactly one variant is live at any
//! instant, and every step consumes-and-replaces the whole variant in one
//! assignment, never mutating fields of a live variant across a suspension
//! boundary. While the engine is being invoked the attempt holds an explicit
//! in-transition marker, so no half-moved state is ever observable.
//!
//! One driver step is two calls: [`HandshakeAttempt::begin_step`] atomically
//! takes the live variant out and either yields a stored terminal outcome or
//! hands the caller the engine work to perform; the engine's verdict then
//! goes to [`HandshakeAttempt::finish_step`], which stores the next variant
//! and yields the step's outcome. "Would block" re-arms the attempt with the
//! engine's own continuation — the partially-stepped session, with whatever
//! buffered progress it holds — so stepping again never re-processes or
//! drops bytes.

use vstd::prelude::*;

use crate::Interest;
use crate::fault::HandshakeFault;
use crate::stream::{SecureStream, ShutdownState};

verus! {

/// What a client entry point hands to the first establish call.
#[derive(Debug)]
pub struct ClientStart<C, T> {
    /// Engine-side session configuration for the client role.
    pub config: C,
    /// The peer identity the engine verifies the hostname against; opaque to
    /// the driver and forwarded verbatim.
    pub domain: String,
    /// The duplex channel, owned here until the engine takes it.
    pub transport: T,
}

/// What a server entry point hands to the first establish call.
#[derive(Debug)]
pub struct ServerStart<A, T> {
    /// Engine-side accepted-connection policy for the server role.
    pub acceptor: A,
    /// The duplex channel, owned here until the engine takes it.
    pub transport: T,
}

/// One engine invocation's report on a handshake attempt.
#[derive(Debug)]
pub enum StepVerdict<M, S, E> {
    /// The handshake finished; here is the established session.
    Complete(S),
    /// The engine cannot progress without more readiness. It hands back the
    /// partially-stepped session to resume from — with any buffered progress
    /// preserved — and the readiness it waits for.
    WouldBlock(M, Interest),
    /// A non-retryable failure.
    Fault(HandshakeFault<E>),
}

/// The variants of a handshake attempt. `St` is the start payload (session
/// configuration plus transport), `M` the engine's partially-stepped
/// session, `S` the established session, `E` the engine's diagnostic detail.
#[derive(Debug)]
pub enum HandshakeState<St, M, S, E> {
    /// Configuration and transport held; no bytes exchanged yet.
    NotStarted(St),
    /// A partially-stepped session; the transport is owned inside it.
    InProgress(M),
    /// A terminal error, stored but not yet handed out.
    Failed(HandshakeFault<E>),
    /// A finished session, stored but not yet unwrapped into a stream.
    Completed(S),
    /// The in-transition marker a step leaves behind while the engine runs.
    Stepping,
    /// The final result has already been handed out; any further step is a
    /// caller fault.
    Consumed,
}

/// The engine work one step asks of the caller.
#[derive(Debug)]
pub enum StepWork<St, M> {
    /// Invoke the session-establishment operation with the start payload.
    Establish(St),
    /// Invoke the handshake-continuation operation on the saved session.
    Resume(M),
}

/// What one driver step yields to the caller.
#[derive(Debug)]
pub enum Outcome<S, E> {
    /// The handshake finished; the attempt is consumed.
    Ready(SecureStream<S>),
    /// Retry once the transport signals the given readiness.
    Suspended(Interest),
    /// The handshake failed for good; the attempt is consumed.
    Failed(HandshakeFault<E>),
}

/// What [`HandshakeAttempt::begin_step`] hands back: either engine work to
/// perform, or a terminal outcome that was already stored.
#[derive(Debug)]
pub enum Step<St, M, S, E> {
    /// Perform this engine operation and feed its verdict to
    /// [`HandshakeAttempt::finish_step`].
    Work(StepWork<St, M>),
    /// The step finished without touching the engine.
    Done(Outcome<S, E>),
}

/// A handshake being driven to completion under repeated polling.
#[derive(Debug)]
pub struct HandshakeAttempt<St, M, S, E> {
    state: HandshakeState<St, M, S, E>,
}

impl<St, M, S, E> View for HandshakeAttempt<St, M, S, E> {
    type V = HandshakeState<St, M, S, E>;

    closed spec fn view(&self) -> HandshakeState<St, M, S, E> {
        self.state
    }
}

/// True of the states from which a step may still be taken: the final
/// result has not been handed out and no step is mid-flight.
pub open spec fn steppable<St, M, S, E>(s: HandshakeState<St, M, S, E>) -> bool {
    ||| s is NotStarted
    ||| s is InProgress
    ||| s is Failed
    ||| s is Completed
}

/// The state an engine-backed step leaves the attempt in, for each possible
/// engine report: only "would block" leaves it live, holding exactly the
/// engine's continuation; completion and failure both consume it.
pub open spec fn verdict_state<St, M, S, E>(v: StepVerdict<M, S, E>) -> HandshakeState<St, M, S, E> {
    match v {
        StepVerdict::Complete(_) => HandshakeState::Consumed,
        StepVerdict::WouldBlock(m, _) => HandshakeState::InProgress(m),
        StepVerdict::Fault(_) => HandshakeState::Consumed,
    }
}

/// The outcome an engine-backed step yields, by the verdict.
pub open spec fn verdict_outcome<M, S, E>(v: StepVerdict<M, S, E>) -> Outcome<S, E> {
    match v {
        StepVerdict::Complete(s) => Outcome::Ready(SecureStream { session: s, shutdown: ShutdownState::NotBegun }),
        StepVerdict::WouldBlock(_, i) => Outcome::Suspended(i),
        StepVerdict::Fault(f) => Outcome::Failed(f),
    }
}

impl<St, M, S, E> HandshakeAttempt<St, M, S, E> {
    /// An attempt holding an already finished session; its one remaining step
    /// unwraps the session into a stream.
    pub fn from_completed(session: S) -> (r: Self)
        ensures
            r@ == HandshakeState::<St, M, S, E>::Completed(session),
    {
        HandshakeAttempt { state: HandshakeState::Completed(session) }
    }

    /// True while a step may still be taken. An unverified caller must test
    /// this before stepping and treat a violation as a fault, not an error.
    pub fn can_step(&self) -> (r: bool)
        ensures
            r == steppable(self@),
    {
        match &self.state {
            HandshakeState::Stepping => false,
            HandshakeState::Consumed => false,
            _ => true,
        }
    }

    /// Begin one driver step: atomically take the live variant out, leaving
    /// the in-transition marker in its place.
    ///
    /// A stored terminal variant is delivered at once, without invoking the
    /// engine, and consumes the attempt; a live variant becomes the engine
    /// work the caller must perform, whose verdict goes to
    /// [`HandshakeAttempt::finish_step`]. Stepping an attempt whose result
    /// has already been handed out is caller misuse and is excluded by the
    /// precondition.
    pub fn begin_step(&mut self) -> (r: Step<St, M, S, E>)
        requires
            steppable(old(self)@),
        ensures
            match old(self)@ {
                HandshakeState::NotStarted(st) => {
                    &&& final(self)@ is Stepping
                    &&& r == Step::<St, M, S, E>::Work(StepWork::Establish(st))
                },
                HandshakeState::InProgress(m) => {
                    &&& final(self)@ is Stepping
                    &&& r == Step::<St, M, S, E>::Work(StepWork::Resume(m))
                },
                HandshakeState::Failed(f) => {
                    &&& final(self)@ is Consumed
                    &&& r == Step::<St, M, S, E>::Done(Outcome::Failed(f))
                },
                HandshakeState::Completed(s) => {
                    &&& final(self)@ is Consumed
                    &&& r == Step::<St, M, S, E>::Done(
                        Outcome::Ready(SecureStream { session: s, shutdown: ShutdownState::NotBegun }),
                    )
                },
                _ => false,
            },
    {
        let mut taken = HandshakeState::Stepping;
        core::mem::swap(&mut self.state, &mut taken);
        match taken {
            HandshakeState::NotStarted(st) => Step::Work(StepWork::Establish(st)),
            HandshakeState::InProgress(m) => Step::Work(StepWork::Resume(m)),
            HandshakeState::Failed(f) => {
                self.state = HandshakeState::Consumed;
                Step::Done(Outcome::Failed(f))
            }
            HandshakeState::Completed(s) => {
                self.state = HandshakeState::Consumed;
                Step::Done(Outcome::Ready(SecureStream::wrap(s)))
            }
            HandshakeState::Stepping => vstd::pervasive::unreached(),
            HandshakeState::Consumed => vstd::pervasive::unreached(),
        }
    }

    /// Store the verdict of the engine work that
    /// [`HandshakeAttempt::begin_step`] handed out, and yield the step's
    /// outcome. "Would block" re-arms the attempt with the engine's
    /// continuation and suspends; completion yields the stream and consumes
    /// the attempt; failure delivers the fault and consumes it.
    pub fn finish_step(&mut self, v: StepVerdict<M, S, E>) -> (r: Outcome<S, E>)
        requires
            old(self)@ is Stepping,
        ensures
            final(self)@ == verdict_state::<St, M, S, E>(v),
            r == verdict_outcome(v),
    {
        match v {
            StepVerdict::Complete(s) => {
                self.state = HandshakeState::Consumed;
                Outcome::Ready(SecureStream::wrap(s))
            }
            StepVerdict::WouldBlock(m, i) => {
                self.state = HandshakeState::InProgress(m);
                Outcome::Suspended(i)
            }
            StepVerdict::Fault(f) => {
                self.state = HandshakeState::Consumed;
                Outcome::Failed(f)
            }
        }
    }
}

/// Client entry point: bind the session configuration, the peer identity and
/// the transport into a not-yet-started attempt. A pure constructor: no I/O
/// occurs until the first driver step.
pub fn connect<C, T, M, S, E>(config: C, domain: String, transport: T) -> (r: HandshakeAttempt<
    ClientStart<C, T>,
    M,
    S,
    E,
>)
    ensures
        r@ == HandshakeState::<ClientStart<C, T>, M, S, E>::NotStarted(
            ClientStart { config, domain, transport },
        ),
{
    HandshakeAttempt { state: HandshakeState::NotStarted(ClientStart { config, domain, transport }) }
}

/// Client entry point for a setup operation that can itself fail before any
/// bytes are exchanged: a successful setup starts as [`connect`] does, and a
/// setup error becomes a stored terminal setup failure, delivered on the
/// first step without ever invoking the engine.
pub fn connect_or_fail<C, T, M, S, E>(setup: Result<C, E>, domain: String, transport: T) -> (r:
    HandshakeAttempt<ClientStart<C, T>, M, S, E>)
    ensures
        match setup {
            Ok(config) => r@ == HandshakeState::<ClientStart<C, T>, M, S, E>::NotStarted(
                ClientStart { config, domain, transport },
            ),
            Err(e) => r@ == HandshakeState::<ClientStart<C, T>, M, S, E>::Failed(
                HandshakeFault::Setup(e),
            ),
        },
{
    match setup {
        Ok(config) => connect(config, domain, transport),
        Err(e) => HandshakeAttempt { state: HandshakeState::Failed(HandshakeFault::Setup(e)) },
    }
}

/// Server entry point: bind the accepted-connection policy and the transport
/// into a not-yet-started attempt. A pure constructor: no I/O occurs until
/// the first driver step.
pub fn accept<A, T, M, S, E>(acceptor: A, transport: T) -> (r: HandshakeAttempt<
    ServerStart<A, T>,
    M,
    S,
    E,
>)
    ensures
        r@ == HandshakeState::<ServerStart<A, T>, M, S, E>::NotStarted(
            ServerStart { acceptor, transport },
        ),
{
    HandshakeAttempt { state: HandshakeState::NotStarted(ServerStart { acceptor, transport }) }
}

/// The outcomes of a run of engine-backed steps, one per engine verdict.
pub open spec fn run_outcomes<M, S, E>(vs: Seq<StepVerdict<M, S, E>>) -> Seq<Outcome<S, E>> {
    vs.map_values(|v: StepVerdict<M, S, E>| verdict_outcome(v))
}

/// The states a run of engine-backed steps passes through: the start state,
/// then the state each verdict in turn leaves the attempt in.
pub open spec fn run_states<St, M, S, E>(
    start: HandshakeState<St, M, S, E>,
    vs: Seq<StepVerdict<M, S, E>>,
) -> Seq<HandshakeState<St, M, S, E>>
    decreases vs.len(),
{
    if vs.len() == 0 {
        seq![start]
    } else {
        seq![start] + run_states(verdict_state(vs[0]), vs.drop_first())
    }
}

/// Each state of a run after the first is fixed by the verdict that led to
/// it, whatever came before.
pub proof fn lemma_run_states_index<St, M, S, E>(
    start: HandshakeState<St, M, S, E>,
    vs: Seq<StepVerdict<M, S, E>>,
    k: int,
)
    requires
        0 <= k < vs.len(),
    ensures
        run_states(start, vs).len() == vs.len() + 1,
        run_states(start, vs)[0] == start,
        run_states(start, vs)[k + 1] == verdict_state::<St, M, S, E>(vs[k]),
    decreases vs.len(),
{
    lemma_run_states_len(start, vs);
    let tail = run_states(verdict_state::<St, M, S, E>(vs[0]), vs.drop_first());
    lemma_run_states_len(verdict_state::<St, M, S, E>(vs[0]), vs.drop_first());
    assert(run_states(start, vs) == seq![start] + tail);
    if k == 0 {
        assert((seq![start] + tail)[1] == tail[0]);
    } else {
        lemma_run_states_index(verdict_state::<St, M, S, E>(vs[0]), vs.drop_first(), k - 1);
        assert(vs.drop_first()[k - 1] == vs[k]);
        assert((seq![start] + tail)[k + 1] == tail[k]);
    }
}

/// A run of `n` steps passes through `n + 1` states.
pub proof fn lemma_run_states_len<St, M, S, E>(
    start: HandshakeState<St, M, S, E>,
    vs: Seq<StepVerdict<M, S, E>>,
)
    ensures
        run_states(start, vs).len() == vs.len() + 1,
        run_states(start, vs)[0] == start,
    decreases vs.len(),
{
    if vs.len() > 0 {
        lemma_run_states_len(verdict_state::<St, M, S, E>(vs[0]), vs.drop_first());
    }
}

/// Law: an engine-backed step leaves the attempt steppable exactly when its
/// outcome is the suspension — and then it is live, holding the engine's
/// continuation. After a Ready or a Failed outcome the attempt is consumed,
/// so no later step can silently succeed or re-run the engine.
pub proof fn lemma_terminal_outcome_consumes<St, M, S, E>(v: StepVerdict<M, S, E>)
    ensures
        steppable(verdict_state::<St, M, S, E>(v)) <==> verdict_outcome(v) is Suspended,
        verdict_outcome(v) is Suspended ==> verdict_state::<St, M, S, E>(v) is InProgress,
{
}

/// Law: against an engine that reports "would block" `n` times and then
/// completes, a driver that starts from a live attempt reaches Ready after
/// exactly `n + 1` steps. Each of the first `n` steps yields Suspended —
/// carrying nothing but a readiness interest, so no application bytes are
/// consumed or emitted before completion — and leaves the attempt holding
/// exactly the engine's own continuation; the last step yields Ready with
/// the fresh stream around the established session, and consumes the
/// attempt.
pub proof fn lemma_blocked_n_then_ready<St, M, S, E>(
    start: HandshakeState<St, M, S, E>,
    vs: Seq<StepVerdict<M, S, E>>,
)
    requires
        start is NotStarted || start is InProgress,
        vs.len() >= 1,
        forall|k: int| 0 <= k < vs.len() - 1 ==> vs[k] is WouldBlock,
        vs.last() is Complete,
    ensures
        run_states(start, vs).len() == vs.len() + 1,
        run_outcomes(vs).len() == vs.len(),
        forall|k: int| 0 <= k < vs.len() - 1 ==> #[trigger] run_outcomes(vs)[k] is Suspended,
        forall|k: int|
            0 <= k < vs.len() - 1 ==> #[trigger] run_states(start, vs)[k + 1]
                == HandshakeState::<St, M, S, E>::InProgress(vs[k]->WouldBlock_0),
        run_outcomes(vs).last() == Outcome::<S, E>::Ready(
            SecureStream { session: vs.last()->Complete_0, shutdown: ShutdownState::NotBegun },
        ),
        run_states(start, vs).last() is Consumed,
{
    lemma_run_states_len(start, vs);
    assert forall|k: int| 0 <= k < vs.len() - 1 implies #[trigger] run_outcomes(vs)[k]
        is Suspended by {
        assert(vs[k] is WouldBlock);
    }
    assert forall|k: int|
        0 <= k < vs.len() - 1 implies #[trigger] run_states(start, vs)[k + 1]
        == HandshakeState::<St, M, S, E>::InProgress(vs[k]->WouldBlock_0) by {
        lemma_run_states_index(start, vs, k);
    }
    lemma_run_states_index(start, vs, vs.len() - 1);
    assert(run_states(start, vs).last() == verdict_state::<St, M, S, E>(vs.last()));
}

} // verus!
