//! End-to-end scenarios against a model engine over an in-memory transport.

use tlsdrive::handshake::{accept, connect, HandshakeAttempt, Outcome, Step, StepVerdict, StepWork};
use tlsdrive::stream::{SecureStream, ShutdownState, ShutdownVerdict};
use tlsdrive::Interest;

/// An in-memory duplex channel: what the peer sent us, what we sent out,
/// and whether the peer has already closed its end.
#[derive(Debug, PartialEq)]
struct Channel {
    inbox: Vec<u8>,
    outbox: Vec<u8>,
    peer_closed: bool,
}

/// A partially-stepped model handshake: the transport plus how many more
/// polls the model engine will report "would block" for.
#[derive(Debug, PartialEq)]
struct MidSession {
    channel: Channel,
    blocks_left: u32,
}

/// An established model session: owns the transport; writes land in the
/// outbox verbatim, reads drain the inbox verbatim. The first
/// `write_blocks_left` writes report "would block" without taking bytes.
#[derive(Debug, PartialEq)]
struct Session {
    channel: Channel,
    write_blocks_left: u32,
}

type ClientAtt = HandshakeAttempt<tlsdrive::handshake::ClientStart<u32, Channel>, MidSession, Session, String>;
type ServerAtt = HandshakeAttempt<tlsdrive::handshake::ServerStart<u32, Channel>, MidSession, Session, String>;

/// The model engine's establish/continue operation: counts down the
/// scripted "would block" reports, then completes without touching any
/// application bytes waiting in the inbox.
fn model_handshake(channel: Channel, blocks_left: u32) -> StepVerdict<MidSession, Session, String> {
    if blocks_left > 0 {
        StepVerdict::WouldBlock(MidSession { channel, blocks_left: blocks_left - 1 }, Interest::ReadReady)
    } else {
        StepVerdict::Complete(Session { channel, write_blocks_left: 0 })
    }
}

/// The model engine's write: either "would block" or take every byte.
fn model_write(session: &mut Session, buf: &[u8]) -> Option<usize> {
    if session.write_blocks_left > 0 {
        session.write_blocks_left -= 1;
        None
    } else {
        session.channel.outbox.extend_from_slice(buf);
        Some(buf.len())
    }
}

/// The model engine's read: drain whatever the peer sent.
fn model_read(session: &mut Session) -> Vec<u8> {
    session.channel.inbox.drain(..).collect()
}

/// The model peer: echo everything we sent back into our inbox.
fn model_peer_echo(session: &mut Session) {
    let echoed: Vec<u8> = session.channel.outbox.drain(..).collect();
    session.channel.inbox.extend(echoed);
}

#[test]
fn client_ready_on_first_step() {
    let channel = Channel { inbox: vec![], outbox: vec![], peer_closed: false };
    let mut att: ClientAtt = connect(1u32, String::from("peer.example"), channel);

    // The transport completes the handshake synchronously: the very first
    // driver step yields a usable stream.
    let work = match att.begin_step() {
        Step::Work(StepWork::Establish(start)) => start,
        _ => panic!("first step asks for the establish call"),
    };
    let verdict = model_handshake(work.transport, 0);
    let mut stream = match att.finish_step(verdict) {
        Outcome::Ready(stream) => stream,
        _ => panic!("synchronous completion yields ready on the first step"),
    };
    assert!(!att.can_step());

    // The stream is usable at once.
    assert_eq!(model_write(stream.get_mut(), b"ping"), Some(4));
    model_peer_echo(stream.get_mut());
    assert_eq!(model_read(stream.get_mut()), b"ping".to_vec());
}

#[test]
fn server_ready_after_exactly_two_blocks() {
    // Application bytes already sit in the transport; the handshake must not
    // consume them.
    let channel = Channel { inbox: b"early app data".to_vec(), outbox: vec![], peer_closed: false };
    let mut att: ServerAtt = accept(2u32, channel);
    let mut outcomes: Vec<&str> = vec![];
    let mut stream: Option<SecureStream<Session>> = None;

    for _ in 0..3 {
        assert!(att.can_step());
        let verdict = match att.begin_step() {
            Step::Work(StepWork::Establish(start)) => model_handshake(start.transport, 2),
            Step::Work(StepWork::Resume(mid)) => model_handshake(mid.channel, mid.blocks_left),
            Step::Done(_) => panic!("nothing terminal is stored in this run"),
        };
        match att.finish_step(verdict) {
            Outcome::Suspended(_) => outcomes.push("suspended"),
            Outcome::Ready(s) => {
                outcomes.push("ready");
                stream = Some(s);
            }
            Outcome::Failed(_) => panic!("the model engine does not fail"),
        }
    }

    assert_eq!(outcomes, vec!["suspended", "suspended", "ready"]);
    let mut stream = stream.expect("third step yields the stream");
    // No application data was read before ready.
    assert_eq!(model_read(stream.get_mut()), b"early app data".to_vec());
}

#[test]
fn echoed_bytes_survive_write_suspensions() {
    // Handshake completes synchronously; the session then blocks the first
    // two writes.
    let channel = Channel { inbox: vec![], outbox: vec![], peer_closed: false };
    let mut att: ClientAtt = connect(3u32, String::from("peer.example"), channel);
    let verdict = match att.begin_step() {
        Step::Work(StepWork::Establish(start)) => model_handshake(start.transport, 0),
        _ => panic!("first step asks for the establish call"),
    };
    let mut stream = match att.finish_step(verdict) {
        Outcome::Ready(stream) => stream,
        _ => panic!("synchronous completion yields ready"),
    };
    stream.get_mut().write_blocks_left = 2;

    // The write drains only after two suspensions; the caller retries.
    let payload = b"0123456789abcdef";
    let mut suspensions: u32 = 0;
    loop {
        match model_write(stream.get_mut(), payload) {
            Some(n) => {
                assert_eq!(n, payload.len());
                break;
            }
            None => suspensions += 1,
        }
    }
    assert_eq!(suspensions, 2);

    // The peer echoes; the read returns exactly the written bytes.
    model_peer_echo(stream.get_mut());
    assert_eq!(model_read(stream.get_mut()), payload.to_vec());
}

#[test]
fn shutdown_after_peer_truncation_is_success() {
    // The peer has closed the transport without sending close-notify.
    let channel = Channel { inbox: vec![], outbox: vec![], peer_closed: true };
    let mut stream = SecureStream::wrap(Session { channel, write_blocks_left: 0 });

    // The model engine reports a clean transport end of input.
    let verdict: ShutdownVerdict<String> = if stream.get_ref().channel.peer_closed {
        ShutdownVerdict::CleanEof
    } else {
        ShutdownVerdict::NotifySent
    };
    let out = stream.shutdown_step(verdict);
    assert!(matches!(out, tlsdrive::stream::ShutdownOutcome::Done));
    assert_eq!(stream.shutdown, ShutdownState::Closed);
}
