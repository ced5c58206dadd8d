//! Server side of the benchmark: the per-connection session state machine.
//!
//! Each accepted connection gets a handler of its own; a handler owns its
//! session exclusively and never observes another's. The transport loop
//! outside this crate performs the reads, writes and waits, and reports each
//! of them to the session as an event; the session decides the next phase
//! and keeps the byte tally. Its outcome is a pure function of its own event
//! sequence, which is what keeps concurrent handlers independent.

use vstd::prelude::*;

use crate::protocol::ack_payload;
use crate::protocol::ack_spec;

verus! {

/// The phase of one server-side connection handler. A session moves forward
/// through `Accepted`, `StreamOpen`, `Draining`, `Acknowledged`,
/// `AwaitingClose` and `Closed`, in this order; any error lands it in
/// `Failed`, which terminates this handler and no other.
#[derive(Clone, Copy, Debug, PartialEq, Eq, Structural)]
pub enum ServerPhase {
    /// The connection is accepted; no stream has been offered yet.
    Accepted,
    /// The first bidirectional stream is open; nothing read yet.
    StreamOpen,
    /// Payload bytes are being drained.
    Draining,
    /// End of transmission seen; the acknowledgment is owed or being written.
    Acknowledged,
    /// The acknowledgment is written; waiting for full connection teardown.
    AwaitingClose,
    /// The connection is fully closed; the session is done.
    Closed,
    /// An error ended this session.
    Failed,
}

/// What the transport reports to a server session.
#[derive(Clone, Copy, Debug, PartialEq, Eq, Structural)]
pub enum ServerEvent {
    /// The peer opened the first bidirectional stream.
    StreamAccepted,
    /// This many payload bytes arrived on the receive half.
    Chunk(u64),
    /// The peer half-closed its send side: end of transmission.
    EndOfStream,
    /// The acknowledgment was written and the send half closed.
    AckSent,
    /// The connection reached the fully-closed state.
    ConnectionClosed,
    /// A read, a write or the connection failed.
    Error,
}

/// One server-side session: its phase and the payload bytes counted so far.
/// The payload length is unbounded by design; the tally saturates the
/// machine word only in the sense that a chunk that would overflow it is an
/// error.
#[derive(Clone, Copy, Debug, PartialEq, Eq, Structural)]
pub struct ServerSession {
    pub phase: ServerPhase,
    pub bytes_received: u64,
}

/// The state a session starts in, once its connection is accepted.
pub open spec fn initial_spec() -> ServerSession {
    ServerSession { phase: ServerPhase::Accepted, bytes_received: 0 }
}

/// The transition relation of a session, as a function: the state after one
/// event. Events that the current phase does not expect are errors, as is
/// any reported failure; an error never touches any other session.
pub open spec fn step_spec(s: ServerSession, e: ServerEvent) -> ServerSession {
    match (s.phase, e) {
        (ServerPhase::Accepted, ServerEvent::StreamAccepted) => ServerSession {
            phase: ServerPhase::StreamOpen,
            bytes_received: s.bytes_received,
        },
        (ServerPhase::StreamOpen, ServerEvent::Chunk(len)) => if s.bytes_received + len
            <= u64::MAX {
            ServerSession {
                phase: ServerPhase::Draining,
                bytes_received: (s.bytes_received + len) as u64,
            }
        } else {
            ServerSession { phase: ServerPhase::Failed, bytes_received: s.bytes_received }
        },
        (ServerPhase::Draining, ServerEvent::Chunk(len)) => if s.bytes_received + len
            <= u64::MAX {
            ServerSession {
                phase: ServerPhase::Draining,
                bytes_received: (s.bytes_received + len) as u64,
            }
        } else {
            ServerSession { phase: ServerPhase::Failed, bytes_received: s.bytes_received }
        },
        (ServerPhase::StreamOpen, ServerEvent::EndOfStream) => ServerSession {
            phase: ServerPhase::Acknowledged,
            bytes_received: s.bytes_received,
        },
        (ServerPhase::Draining, ServerEvent::EndOfStream) => ServerSession {
            phase: ServerPhase::Acknowledged,
            bytes_received: s.bytes_received,
        },
        (ServerPhase::Acknowledged, ServerEvent::AckSent) => ServerSession {
            phase: ServerPhase::AwaitingClose,
            bytes_received: s.bytes_received,
        },
        (ServerPhase::AwaitingClose, ServerEvent::ConnectionClosed) => ServerSession {
            phase: ServerPhase::Closed,
            bytes_received: s.bytes_received,
        },
        _ => ServerSession { phase: ServerPhase::Failed, bytes_received: s.bytes_received },
    }
}

/// The session reached by a fresh handler after consuming the whole event
/// sequence, oldest event first. A session's outcome is this function of its
/// own events alone: nothing another session does can enter into it.
pub open spec fn run_spec(events: Seq<ServerEvent>) -> ServerSession
    decreases events.len(),
{
    if events.len() == 0 {
        initial_spec()
    } else {
        step_spec(run_spec(events.drop_last()), events.last())
    }
}

/// The drain events of a payload read in chunks of these lengths.
pub open spec fn chunk_events(lens: Seq<u64>) -> Seq<ServerEvent>
    decreases lens.len(),
{
    if lens.len() == 0 {
        Seq::empty()
    } else {
        chunk_events(lens.drop_last()).push(ServerEvent::Chunk(lens.last()))
    }
}

/// Total of the chunk lengths.
pub open spec fn sum_lens(lens: Seq<u64>) -> int
    decreases lens.len(),
{
    if lens.len() == 0 {
        0
    } else {
        sum_lens(lens.drop_last()) + lens.last()
    }
}

/// The event sequence of one complete, error-free session: the stream is
/// accepted, the payload is drained chunk by chunk, the peer signals end of
/// transmission, the acknowledgment is sent, and the connection closes.
pub open spec fn full_session_events(lens: Seq<u64>) -> Seq<ServerEvent> {
    seq![ServerEvent::StreamAccepted] + chunk_events(lens) + seq![
        ServerEvent::EndOfStream,
        ServerEvent::AckSent,
        ServerEvent::ConnectionClosed,
    ]
}

/// After the stream is accepted and chunks totalling at most `u64::MAX`
/// bytes are drained, the session is still mid-stream and its tally is
/// exactly that total.
pub proof fn lemma_drain_count(lens: Seq<u64>)
    requires
        sum_lens(lens) <= u64::MAX,
    ensures
        run_spec(seq![ServerEvent::StreamAccepted] + chunk_events(lens)).bytes_received
            == sum_lens(lens),
        run_spec(seq![ServerEvent::StreamAccepted] + chunk_events(lens)).phase is StreamOpen
            || run_spec(seq![ServerEvent::StreamAccepted] + chunk_events(lens)).phase is Draining,
    decreases lens.len(),
{
    let events = seq![ServerEvent::StreamAccepted] + chunk_events(lens);
    if lens.len() == 0 {
        assert(events =~= seq![ServerEvent::StreamAccepted]);
        assert(events.drop_last() =~= Seq::<ServerEvent>::empty());
        assert(run_spec(Seq::<ServerEvent>::empty()) == initial_spec());
        assert(events.last() == ServerEvent::StreamAccepted);
        assert(run_spec(events) == step_spec(initial_spec(), ServerEvent::StreamAccepted));
    } else {
        let lens0 = lens.drop_last();
        let last = lens.last();
        let prev = seq![ServerEvent::StreamAccepted] + chunk_events(lens0);
        assert(events =~= prev.push(ServerEvent::Chunk(last)));
        assert(events.drop_last() =~= prev);
        lemma_drain_count(lens0);
    }
}

/// One complete session over a payload of size `size`, drained in chunks of
/// any lengths totalling `size`, ends fully closed with a byte count of
/// exactly `size`. The client's payload for a transfer of size `size` has
/// exactly `size` bytes, so a full transfer session leaves the server
/// having counted exactly the client's payload size.
pub proof fn lemma_full_session_count(lens: Seq<u64>, size: u64)
    requires
        sum_lens(lens) == size,
    ensures
        run_spec(full_session_events(lens)).phase is Closed,
        run_spec(full_session_events(lens)).bytes_received == size,
{
    let drained = seq![ServerEvent::StreamAccepted] + chunk_events(lens);
    lemma_drain_count(lens);
    let full = full_session_events(lens);
    let e1 = drained.push(ServerEvent::EndOfStream);
    let e2 = e1.push(ServerEvent::AckSent);
    assert(full =~= e2.push(ServerEvent::ConnectionClosed));
    assert(e1.drop_last() =~= drained);
    assert(e2.drop_last() =~= e1);
    assert(full.drop_last() =~= e2);
    assert(run_spec(e1) == step_spec(run_spec(drained), ServerEvent::EndOfStream));
    assert(run_spec(e2) == step_spec(run_spec(e1), ServerEvent::AckSent));
    assert(run_spec(full) == step_spec(run_spec(e2), ServerEvent::ConnectionClosed));
}

/// The events of one handler within a global trace: a trace entry pairs a
/// handler identifier with the event reported to that handler.
pub open spec fn events_of(trace: Seq<(nat, ServerEvent)>, id: nat) -> Seq<ServerEvent>
    decreases trace.len(),
{
    if trace.len() == 0 {
        Seq::empty()
    } else if trace.last().0 == id {
        events_of(trace.drop_last(), id).push(trace.last().1)
    } else {
        events_of(trace.drop_last(), id)
    }
}

/// The state of one handler after a global trace: every handler owns its
/// session exclusively, so it steps on its own events and is untouched by
/// every other entry.
pub open spec fn run_in_trace(trace: Seq<(nat, ServerEvent)>, id: nat) -> ServerSession
    decreases trace.len(),
{
    if trace.len() == 0 {
        initial_spec()
    } else if trace.last().0 == id {
        step_spec(run_in_trace(trace.drop_last(), id), trace.last().1)
    } else {
        run_in_trace(trace.drop_last(), id)
    }
}

/// Handler isolation: under any interleaving of any number of concurrent
/// handlers, each handler ends in exactly the state that its own event
/// sequence alone determines. In particular, concurrent sessions whose
/// traces drain different payloads keep independent byte counts, with no
/// cross-contamination.
pub proof fn lemma_handler_isolation(trace: Seq<(nat, ServerEvent)>, id: nat)
    ensures
        run_in_trace(trace, id) == run_spec(events_of(trace, id)),
    decreases trace.len(),
{
    if trace.len() > 0 {
        lemma_handler_isolation(trace.drop_last(), id);
        if trace.last().0 == id {
            let own = events_of(trace.drop_last(), id);
            assert(own.push(trace.last().1).drop_last() =~= own);
        }
    }
}

impl ServerSession {
    /// A fresh session for one newly accepted connection.
    pub fn new() -> (r: ServerSession)
        ensures
            r == initial_spec(),
    {
        ServerSession { phase: ServerPhase::Accepted, bytes_received: 0 }
    }

    /// Advances the session by one reported event.
    pub fn step(&mut self, event: ServerEvent)
        ensures
            *final(self) == step_spec(*old(self), event),
    {
        match (self.phase, event) {
            (ServerPhase::Accepted, ServerEvent::StreamAccepted) => {
                self.phase = ServerPhase::StreamOpen;
            },
            (ServerPhase::StreamOpen, ServerEvent::Chunk(len)) => {
                match self.bytes_received.checked_add(len) {
                    Some(total) => {
                        self.phase = ServerPhase::Draining;
                        self.bytes_received = total;
                    },
                    None => {
                        self.phase = ServerPhase::Failed;
                    },
                }
            },
            (ServerPhase::Draining, ServerEvent::Chunk(len)) => {
                match self.bytes_received.checked_add(len) {
                    Some(total) => {
                        self.bytes_received = total;
                    },
                    None => {
                        self.phase = ServerPhase::Failed;
                    },
                }
            },
            (ServerPhase::StreamOpen, ServerEvent::EndOfStream) => {
                self.phase = ServerPhase::Acknowledged;
            },
            (ServerPhase::Draining, ServerEvent::EndOfStream) => {
                self.phase = ServerPhase::Acknowledged;
            },
            (ServerPhase::Acknowledged, ServerEvent::AckSent) => {
                self.phase = ServerPhase::AwaitingClose;
            },
            (ServerPhase::AwaitingClose, ServerEvent::ConnectionClosed) => {
                self.phase = ServerPhase::Closed;
            },
            _ => {
                self.phase = ServerPhase::Failed;
            },
        }
    }

    /// The acknowledgment this session owes its peer once the payload is
    /// drained: always exactly the 8 bytes `received`.
    pub fn ack_to_send(&self) -> (r: Vec<u8>)
        requires
            self.phase is Acknowledged,
        ensures
            r@ == ack_spec(),
    {
        ack_payload()
    }

    /// The total payload byte count this session has drained.
    pub fn total_received(&self) -> (r: u64)
        ensures
            r == self.bytes_received,
    {
        self.bytes_received
    }
}

} // verus!
