use netbench::server::{ServerEvent, ServerPhase, ServerSession};
use netbench::transfer::zero_payload;

#[test]
fn full_session_counts_payload_size() {
    // A complete transfer of a 1 MiB payload, drained in two chunks.
    let payload = zero_payload(1_048_576);
    let mut s = ServerSession::new();
    assert_eq!(s.phase, ServerPhase::Accepted);
    s.step(ServerEvent::StreamAccepted);
    assert_eq!(s.phase, ServerPhase::StreamOpen);
    s.step(ServerEvent::Chunk(1_000_000));
    assert_eq!(s.phase, ServerPhase::Draining);
    s.step(ServerEvent::Chunk(48_576));
    s.step(ServerEvent::EndOfStream);
    assert_eq!(s.phase, ServerPhase::Acknowledged);
    assert_eq!(s.ack_to_send(), b"received".to_vec());
    s.step(ServerEvent::AckSent);
    assert_eq!(s.phase, ServerPhase::AwaitingClose);
    s.step(ServerEvent::ConnectionClosed);
    assert_eq!(s.phase, ServerPhase::Closed);
    assert_eq!(s.total_received(), payload.len() as u64);
}

#[test]
fn empty_payload_session() {
    let mut s = ServerSession::new();
    s.step(ServerEvent::StreamAccepted);
    s.step(ServerEvent::EndOfStream);
    assert_eq!(s.phase, ServerPhase::Acknowledged);
    assert_eq!(s.total_received(), 0);
}

#[test]
fn three_handlers_stay_independent() {
    // Three concurrent handlers, their events interleaved arbitrarily:
    // each byte count depends on its own connection alone.
    let mut a = ServerSession::new();
    let mut b = ServerSession::new();
    let mut c = ServerSession::new();

    a.step(ServerEvent::StreamAccepted);
    b.step(ServerEvent::StreamAccepted);
    a.step(ServerEvent::Chunk(100));
    c.step(ServerEvent::StreamAccepted);
    b.step(ServerEvent::Chunk(50));
    a.step(ServerEvent::Chunk(24));
    c.step(ServerEvent::Chunk(1));
    a.step(ServerEvent::EndOfStream);
    c.step(ServerEvent::Chunk(2));
    b.step(ServerEvent::EndOfStream);
    a.step(ServerEvent::AckSent);
    c.step(ServerEvent::Chunk(3));
    b.step(ServerEvent::AckSent);
    a.step(ServerEvent::ConnectionClosed);
    c.step(ServerEvent::EndOfStream);
    b.step(ServerEvent::ConnectionClosed);
    c.step(ServerEvent::AckSent);
    c.step(ServerEvent::ConnectionClosed);

    assert_eq!(a.phase, ServerPhase::Closed);
    assert_eq!(b.phase, ServerPhase::Closed);
    assert_eq!(c.phase, ServerPhase::Closed);
    assert_eq!(a.total_received(), 124);
    assert_eq!(b.total_received(), 50);
    assert_eq!(c.total_received(), 6);
}

#[test]
fn error_terminates_only_this_handler() {
    let mut failing = ServerSession::new();
    let mut healthy = ServerSession::new();
    failing.step(ServerEvent::StreamAccepted);
    healthy.step(ServerEvent::StreamAccepted);
    failing.step(ServerEvent::Chunk(10));
    failing.step(ServerEvent::Error);
    assert_eq!(failing.phase, ServerPhase::Failed);
    healthy.step(ServerEvent::Chunk(7));
    healthy.step(ServerEvent::EndOfStream);
    healthy.step(ServerEvent::AckSent);
    healthy.step(ServerEvent::ConnectionClosed);
    assert_eq!(healthy.phase, ServerPhase::Closed);
    assert_eq!(healthy.total_received(), 7);
}

#[test]
fn unexpected_event_fails_session() {
    let mut s = ServerSession::new();
    s.step(ServerEvent::Chunk(5));
    assert_eq!(s.phase, ServerPhase::Failed);
    assert_eq!(s.total_received(), 0);

    let mut t = ServerSession::new();
    t.step(ServerEvent::StreamAccepted);
    t.step(ServerEvent::AckSent);
    assert_eq!(t.phase, ServerPhase::Failed);
}

#[test]
fn tally_overflow_fails_session() {
    let mut s = ServerSession::new();
    s.step(ServerEvent::StreamAccepted);
    s.step(ServerEvent::Chunk(u64::MAX));
    assert_eq!(s.phase, ServerPhase::Draining);
    s.step(ServerEvent::Chunk(1));
    assert_eq!(s.phase, ServerPhase::Failed);
    assert_eq!(s.total_received(), u64::MAX);
}
