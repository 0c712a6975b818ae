//! The decisions of receiving one message.
//!
//! Receiving alternates work outside the library (polling the socket's
//! queue of incoming packets, verifying, decrypting, handing a packet meant
//! for another socket back to the protocol, taking out or decoding the
//! payload) with decisions. `RecvMachine` makes the decisions, one step per
//! piece of work, until it finishes with the answer to give the caller.
use vstd::prelude::*;
use crate::socket::State;

verus! {

/// What polling the queue of incoming packets gave.
#[derive(Clone, Copy, Debug, PartialEq, Eq, Structural)]
pub enum Incoming {
    /// No packet is waiting now.
    NotReady,
    /// The queue has ended.
    Closed,
    /// The queue failed.
    Broken,
    /// A packet in the given state; the source port it names, if any.
    Packet { state: State, src_port: Option<u32> },
}

/// The ports a decrypted packet names.
#[derive(Clone, Copy, Debug, PartialEq, Eq, Structural)]
pub struct Decryption {
    pub dst_port: Option<u32>,
    pub src_port: Option<u32>,
}

/// What decoding a payload with the codec gave.
#[derive(Clone, Copy, Debug, PartialEq, Eq, Structural)]
pub enum DecodeResult {
    /// A frame came out.
    Frame,
    /// The codec found no frame.
    Empty,
    /// Reaching the payload or decoding it failed.
    Failed,
}

/// The report of one piece of work that the machine asked for.
#[derive(Clone, Copy, Debug, PartialEq, Eq, Structural)]
pub enum RecvEvent {
    /// The queue of incoming packets was polled.
    Polled(Incoming),
    /// The packet's signature was verified (`true`), or that failed.
    Verified(bool),
    /// The packet was decrypted, or that failed (`None`).
    Decrypted(Option<Decryption>),
    /// The packet was handed back to the protocol (`true`), or that failed.
    Requeued(bool),
    /// The payload was taken out of the packet (`true`), or that failed.
    Taken(bool),
    /// The payload was decoded.
    Decoded(DecodeResult),
}

/// How far receiving has got.
#[derive(Clone, Copy, Debug, PartialEq, Eq, Structural)]
pub enum RecvPhase {
    /// Waiting for the queue to be polled.
    Polling,
    /// Waiting for a signed packet to be verified.
    Verifying { src_port: Option<u32> },
    /// Waiting for an encrypted packet to be decrypted.
    Decrypting,
    /// Waiting for a packet meant for another socket to be handed back.
    Requeueing,
    /// Waiting for the payload to be taken out of the packet.
    Taking { state: State, src_port: Option<u32> },
    /// Waiting for the payload to be decoded.
    Decoding { state: State, source: u32 },
    /// Finished.
    Done,
}

/// The answer to give the caller of a receive.
#[derive(Clone, Copy, Debug, PartialEq, Eq, Structural)]
pub enum RecvOutcome {
    /// Nothing to deliver now.
    NotReady,
    /// Deliver the payload (or the decoded frame), with the packet's source
    /// address, this source port, and the state the packet arrived in.
    Delivered { state: State, src_port: u32 },
    /// Return the error of the work just reported.
    Failed,
    /// Return an invalid-socket error.
    InvalidSocket,
    /// Return a malformed-packet error.
    MalformedPacket,
}

/// A piece of work to do, or the end.
#[derive(Clone, Copy, Debug, PartialEq, Eq, Structural)]
pub enum RecvAction {
    /// Poll the queue of incoming packets, then report `Polled`.
    PollIncoming,
    /// Verify the packet's signature, then report `Verified`.
    Verify,
    /// Decrypt the packet with the socket's key, then report `Decrypted`.
    Decrypt,
    /// Hand the packet back to the protocol, then report `Requeued`.
    Requeue,
    /// Take the payload out of the packet, then report `Taken`.
    Take,
    /// Decode the payload with the codec, then report `Decoded`.
    Decode,
    /// Stop and answer the caller.
    Finish(RecvOutcome),
}

/// The state of a receive: its phase, the port of the receiving socket, and
/// whether payloads are decoded by a codec (a framed stream) or handed out
/// as they are (a socket).
pub struct RecvView {
    pub phase: RecvPhase,
    pub port: u32,
    pub framed: bool,
}

/// Makes the decisions of one receive.
pub struct RecvMachine {
    phase: RecvPhase,
    port: u32,
    framed: bool,
}

impl View for RecvMachine {
    type V = RecvView;

    closed spec fn view(&self) -> RecvView {
        RecvView { phase: self.phase, port: self.port, framed: self.framed }
    }
}

/// What comes once a packet may be delivered: a socket takes its payload
/// out; a framed stream needs the source port (a packet without one is
/// malformed) and then decodes the payload.
pub open spec fn recv_deliver(state: State, src_port: Option<u32>, framed: bool) -> (RecvPhase, RecvAction) {
    if framed {
        match src_port {
            Some(p) => (RecvPhase::Decoding { state, source: p }, RecvAction::Decode),
            None => (RecvPhase::Done, RecvAction::Finish(RecvOutcome::MalformedPacket)),
        }
    } else {
        (RecvPhase::Taking { state, src_port }, RecvAction::Take)
    }
}

/// Whether `phase` waits on the payload of a packet in `state`, on its way
/// to delivery.
pub open spec fn delivering(phase: RecvPhase, state: State) -> bool {
    match phase {
        RecvPhase::Taking { state: s, .. } => s == state,
        RecvPhase::Decoding { state: s, .. } => s == state,
        _ => false,
    }
}

/// Whether `event` reports the work that `phase` waits for. A socket's
/// payload counts as taken only when the packet names a source port: the
/// socket hands out the source address, which needs one.
pub open spec fn recv_accepts(phase: RecvPhase, event: RecvEvent) -> bool {
    match (phase, event) {
        (RecvPhase::Polling, RecvEvent::Polled(_)) => true,
        (RecvPhase::Verifying { .. }, RecvEvent::Verified(_)) => true,
        (RecvPhase::Decrypting, RecvEvent::Decrypted(_)) => true,
        (RecvPhase::Requeueing, RecvEvent::Requeued(_)) => true,
        (RecvPhase::Taking { src_port, .. }, RecvEvent::Taken(ok)) => ok ==> src_port is Some,
        (RecvPhase::Decoding { .. }, RecvEvent::Decoded(_)) => true,
        _ => false,
    }
}

/// The next phase and request, after `event` in `phase`, for a socket on
/// `port`.
/// - No packet waiting, or the queue ended: answer `NotReady`. A broken
///   queue: an invalid socket.
/// - A plain packet may be delivered at once; a signed one once verified;
///   an encrypted one once decrypted, if it is addressed to this port.
/// - A decrypted packet for another port is handed back to the protocol and
///   the queue is polled again; one that names no port is dropped and the
///   queue is polled again.
/// - A failure of any piece of work ends the receive with that failure.
/// - A frame the codec did not find is a malformed packet.
pub open spec fn recv_next(phase: RecvPhase, port: u32, framed: bool, event: RecvEvent) -> (RecvPhase, RecvAction) {
    match event {
        RecvEvent::Polled(incoming) => match incoming {
            Incoming::NotReady => (RecvPhase::Done, RecvAction::Finish(RecvOutcome::NotReady)),
            Incoming::Closed => (RecvPhase::Done, RecvAction::Finish(RecvOutcome::NotReady)),
            Incoming::Broken => (RecvPhase::Done, RecvAction::Finish(RecvOutcome::InvalidSocket)),
            Incoming::Packet { state, src_port } => match state {
                State::Plain => recv_deliver(State::Plain, src_port, framed),
                State::Signed => (RecvPhase::Verifying { src_port }, RecvAction::Verify),
                State::Encrypted => (RecvPhase::Decrypting, RecvAction::Decrypt),
            },
        },
        RecvEvent::Verified(ok) => if ok {
            match phase {
                RecvPhase::Verifying { src_port } => recv_deliver(State::Signed, src_port, framed),
                _ => (RecvPhase::Done, RecvAction::Finish(RecvOutcome::Failed)),
            }
        } else {
            (RecvPhase::Done, RecvAction::Finish(RecvOutcome::Failed))
        },
        RecvEvent::Decrypted(d) => match d {
            None => (RecvPhase::Done, RecvAction::Finish(RecvOutcome::Failed)),
            Some(dec) => match dec.dst_port {
                Some(p) => if p == port {
                    recv_deliver(State::Encrypted, dec.src_port, framed)
                } else {
                    (RecvPhase::Requeueing, RecvAction::Requeue)
                },
                None => (RecvPhase::Polling, RecvAction::PollIncoming),
            },
        },
        RecvEvent::Requeued(ok) => if ok {
            (RecvPhase::Polling, RecvAction::PollIncoming)
        } else {
            (RecvPhase::Done, RecvAction::Finish(RecvOutcome::Failed))
        },
        RecvEvent::Taken(ok) => if ok {
            match phase {
                RecvPhase::Taking { state, src_port: Some(p) } =>
                    (RecvPhase::Done, RecvAction::Finish(RecvOutcome::Delivered { state, src_port: p })),
                _ => (RecvPhase::Done, RecvAction::Finish(RecvOutcome::Failed)),
            }
        } else {
            (RecvPhase::Done, RecvAction::Finish(RecvOutcome::Failed))
        },
        RecvEvent::Decoded(r) => match r {
            DecodeResult::Frame => match phase {
                RecvPhase::Decoding { state, source } =>
                    (RecvPhase::Done, RecvAction::Finish(RecvOutcome::Delivered { state, src_port: source })),
                _ => (RecvPhase::Done, RecvAction::Finish(RecvOutcome::Failed)),
            },
            DecodeResult::Empty => (RecvPhase::Done, RecvAction::Finish(RecvOutcome::MalformedPacket)),
            DecodeResult::Failed => (RecvPhase::Done, RecvAction::Finish(RecvOutcome::Failed)),
        },
    }
}

/// The executable form of `recv_deliver`.
fn deliver(state: State, src_port: Option<u32>, framed: bool) -> (r: (RecvPhase, RecvAction))
    ensures
        r == recv_deliver(state, src_port, framed),
{
    if framed {
        match src_port {
            Some(p) => (RecvPhase::Decoding { state, source: p }, RecvAction::Decode),
            None => (RecvPhase::Done, RecvAction::Finish(RecvOutcome::MalformedPacket)),
        }
    } else {
        (RecvPhase::Taking { state, src_port }, RecvAction::Take)
    }
}

impl RecvMachine {
    /// Begins a receive for a socket on `port`, asking first for the queue
    /// of incoming packets to be polled.
    pub fn start(port: u32, framed: bool) -> (r: (RecvMachine, RecvAction))
        ensures
            r.0@ == (RecvView { phase: RecvPhase::Polling, port, framed }),
            r.1 == RecvAction::PollIncoming,
    {
        (RecvMachine { phase: RecvPhase::Polling, port, framed }, RecvAction::PollIncoming)
    }

    /// Whether the receive has finished.
    pub fn is_done(&self) -> (b: bool)
        ensures
            b == (self@.phase == RecvPhase::Done),
    {
        match self.phase {
            RecvPhase::Done => true,
            _ => false,
        }
    }

    /// Takes the report of the work last asked for and decides what comes
    /// next.
    pub fn step(&mut self, event: RecvEvent) -> (a: RecvAction)
        requires
            recv_accepts(old(self)@.phase, event),
        ensures
            (final(self)@.phase, a) == recv_next(old(self)@.phase, old(self)@.port, old(self)@.framed, event),
            final(self)@.port == old(self)@.port,
            final(self)@.framed == old(self)@.framed,
    {
        let framed = self.framed;
        let (phase, action) = match event {
            RecvEvent::Polled(incoming) => match incoming {
                Incoming::NotReady => (RecvPhase::Done, RecvAction::Finish(RecvOutcome::NotReady)),
                Incoming::Closed => (RecvPhase::Done, RecvAction::Finish(RecvOutcome::NotReady)),
                Incoming::Broken => (RecvPhase::Done, RecvAction::Finish(RecvOutcome::InvalidSocket)),
                Incoming::Packet { state, src_port } => match state {
                    State::Plain => deliver(State::Plain, src_port, framed),
                    State::Signed => (RecvPhase::Verifying { src_port }, RecvAction::Verify),
                    State::Encrypted => (RecvPhase::Decrypting, RecvAction::Decrypt),
                },
            },
            RecvEvent::Verified(ok) => if ok {
                match self.phase {
                    RecvPhase::Verifying { src_port } => deliver(State::Signed, src_port, framed),
                    _ => (RecvPhase::Done, RecvAction::Finish(RecvOutcome::Failed)),
                }
            } else {
                (RecvPhase::Done, RecvAction::Finish(RecvOutcome::Failed))
            },
            RecvEvent::Decrypted(d) => match d {
                None => (RecvPhase::Done, RecvAction::Finish(RecvOutcome::Failed)),
                Some(dec) => match dec.dst_port {
                    Some(p) => if p == self.port {
                        deliver(State::Encrypted, dec.src_port, framed)
                    } else {
                        (RecvPhase::Requeueing, RecvAction::Requeue)
                    },
                    None => (RecvPhase::Polling, RecvAction::PollIncoming),
                },
            },
            RecvEvent::Requeued(ok) => if ok {
                (RecvPhase::Polling, RecvAction::PollIncoming)
            } else {
                (RecvPhase::Done, RecvAction::Finish(RecvOutcome::Failed))
            },
            RecvEvent::Taken(ok) => if ok {
                match self.phase {
                    RecvPhase::Taking { state, src_port: Some(p) } =>
                        (RecvPhase::Done, RecvAction::Finish(RecvOutcome::Delivered { state, src_port: p })),
                    _ => (RecvPhase::Done, RecvAction::Finish(RecvOutcome::Failed)),
                }
            } else {
                (RecvPhase::Done, RecvAction::Finish(RecvOutcome::Failed))
            },
            RecvEvent::Decoded(r) => match r {
                DecodeResult::Frame => match self.phase {
                    RecvPhase::Decoding { state, source } =>
                        (RecvPhase::Done, RecvAction::Finish(RecvOutcome::Delivered { state, src_port: source })),
                    _ => (RecvPhase::Done, RecvAction::Finish(RecvOutcome::Failed)),
                },
                DecodeResult::Empty => (RecvPhase::Done, RecvAction::Finish(RecvOutcome::MalformedPacket)),
                DecodeResult::Failed => (RecvPhase::Done, RecvAction::Finish(RecvOutcome::Failed)),
            },
        };
        self.phase = phase;
        action
    }
}

/// An encrypted packet gets on its way to delivery only by a decryption
/// that names this socket's port as the destination.
pub proof fn recv_encrypted_needs_own_port(phase: RecvPhase, port: u32, framed: bool, event: RecvEvent)
    requires
        recv_accepts(phase, event),
        delivering(recv_next(phase, port, framed, event).0, State::Encrypted),
    ensures
        event matches RecvEvent::Decrypted(Some(d)) && d.dst_port == Some(port),
{
}

/// A signed packet gets on its way to delivery only once its signature was
/// verified.
pub proof fn recv_signed_needs_verification(phase: RecvPhase, port: u32, framed: bool, event: RecvEvent)
    requires
        recv_accepts(phase, event),
        delivering(recv_next(phase, port, framed, event).0, State::Signed),
    ensures
        event == RecvEvent::Verified(true),
        phase is Verifying,
{
}

/// A delivery reports the state that the packet arrived in: the one it
/// had on its way to delivery.
pub proof fn recv_delivers_arrival_state(phase: RecvPhase, port: u32, framed: bool, event: RecvEvent, state: State, src_port: u32)
    requires
        recv_accepts(phase, event),
        recv_next(phase, port, framed, event).1 == RecvAction::Finish(RecvOutcome::Delivered { state, src_port }),
    ensures
        delivering(phase, state),
{
}

/// A decrypted packet addressed to another port is handed back to the
/// protocol, and once that is done the queue is polled again.
pub proof fn recv_foreign_packets_requeued(phase: RecvPhase, port: u32, framed: bool, d: Decryption)
    requires
        phase == RecvPhase::Decrypting,
        d.dst_port matches Some(p) && p != port,
    ensures
        recv_next(phase, port, framed, RecvEvent::Decrypted(Some(d))) == (RecvPhase::Requeueing, RecvAction::Requeue),
        recv_next(RecvPhase::Requeueing, port, framed, RecvEvent::Requeued(true)) == (RecvPhase::Polling, RecvAction::PollIncoming),
{
}

/// The phases a receive can be in: a framed stream never waits for a raw
/// payload to be taken out, and a socket never waits for a decode.
pub open spec fn recv_phase_fits(phase: RecvPhase, framed: bool) -> bool {
    if framed { !(phase is Taking) } else { !(phase is Decoding) }
}

/// Every step of a receive keeps its phase fitting it (it starts polling,
/// which fits both kinds).
pub proof fn recv_phases_fit(phase: RecvPhase, port: u32, framed: bool, event: RecvEvent)
    requires
        recv_accepts(phase, event),
        recv_phase_fits(phase, framed),
    ensures
        recv_phase_fits(recv_next(phase, port, framed, event).0, framed),
{
}

/// A framed stream delivers only a frame that the codec produced, and
/// answers a plain packet without a source port as malformed.
pub proof fn recv_framed_delivers_frames(phase: RecvPhase, port: u32, event: RecvEvent)
    requires
        recv_accepts(phase, event),
        recv_phase_fits(phase, true),
    ensures
        recv_next(phase, port, true, event).1 matches RecvAction::Finish(RecvOutcome::Delivered { .. })
            ==> event == RecvEvent::Decoded(DecodeResult::Frame),
        (event matches RecvEvent::Polled(Incoming::Packet { state: State::Plain, src_port: None }))
            ==> recv_next(phase, port, true, event).1 == RecvAction::Finish(RecvOutcome::MalformedPacket),
{
}

/// A failure reported by any piece of work ends the receive with that
/// failure.
pub proof fn recv_failures_propagate(phase: RecvPhase, port: u32, framed: bool, event: RecvEvent)
    requires
        recv_accepts(phase, event),
        event == RecvEvent::Verified(false) || event == RecvEvent::Decrypted(None) || event == RecvEvent::Requeued(false)
            || event == RecvEvent::Taken(false) || event == RecvEvent::Decoded(DecodeResult::Failed),
    ensures
        recv_next(phase, port, framed, event) == (RecvPhase::Done, RecvAction::Finish(RecvOutcome::Failed)),
{
}

/// A receive finishes at its first answer: the answer leaves the machine
/// done, and a finished receive takes no further report. So one receive
/// delivers at most one message.
pub proof fn recv_finishes_once(phase: RecvPhase, port: u32, framed: bool, event: RecvEvent, later: RecvEvent)
    requires
        recv_accepts(phase, event),
        recv_next(phase, port, framed, event).1 is Finish,
    ensures
        recv_next(phase, port, framed, event).0 == RecvPhase::Done,
        !recv_accepts(RecvPhase::Done, later),
{
}

/// Whether `events`, reported one after another from `phase`, are each
/// what the machine waits for at that point.
pub open spec fn recv_run_accepted(phase: RecvPhase, port: u32, framed: bool, events: Seq<RecvEvent>) -> bool
    decreases events.len(),
{
    if events.len() == 0 {
        true
    } else {
        &&& recv_accepts(phase, events[0])
        &&& recv_run_accepted(recv_next(phase, port, framed, events[0]).0, port, framed, events.drop_first())
    }
}

/// The phase and the request after the reports `events`, from `phase`
/// (`phase` and a poll when there are none).
pub open spec fn recv_run(phase: RecvPhase, port: u32, framed: bool, events: Seq<RecvEvent>) -> (RecvPhase, RecvAction)
    decreases events.len(),
{
    if events.len() == 0 {
        (phase, RecvAction::PollIncoming)
    } else if events.len() == 1 {
        recv_next(phase, port, framed, events[0])
    } else {
        recv_run(recv_next(phase, port, framed, events[0]).0, port, framed, events.drop_first())
    }
}

/// Over a whole receive, from any phase not already delivering an encrypted
/// packet: an encrypted packet is delivered only after a decryption that
/// names this socket's port as the destination.
pub proof fn recv_run_encrypted_needs_own_port(
    phase: RecvPhase,
    port: u32,
    framed: bool,
    events: Seq<RecvEvent>,
    src_port: u32,
)
    requires
        events.len() > 0,
        recv_run_accepted(phase, port, framed, events),
        !delivering(phase, State::Encrypted),
        recv_run(phase, port, framed, events).1
            == RecvAction::Finish(RecvOutcome::Delivered { state: State::Encrypted, src_port }),
    ensures
        exists|i: int|
            0 <= i < events.len() && (#[trigger] events[i] matches RecvEvent::Decrypted(Some(d))
                && d.dst_port == Some(port)),
    decreases events.len(),
{
    let next = recv_next(phase, port, framed, events[0]);
    if events.len() == 1 {
        recv_delivers_arrival_state(phase, port, framed, events[0], State::Encrypted, src_port);
    } else if delivering(next.0, State::Encrypted) {
        recv_encrypted_needs_own_port(phase, port, framed, events[0]);
        assert(events[0] matches RecvEvent::Decrypted(Some(d)) && d.dst_port == Some(port));
    } else {
        let rest = events.drop_first();
        recv_run_encrypted_needs_own_port(next.0, port, framed, rest, src_port);
        let i = choose|i: int|
            0 <= i < rest.len() && (#[trigger] rest[i] matches RecvEvent::Decrypted(Some(d))
                && d.dst_port == Some(port));
        assert(events[i + 1] == rest[i]);
    }
}

/// A whole receive, from its start: it delivers an encrypted packet only
/// after a decryption that names this socket's port as the destination.
pub proof fn recv_encrypted_delivery_needs_own_port(port: u32, framed: bool, events: Seq<RecvEvent>, src_port: u32)
    requires
        events.len() > 0,
        recv_run_accepted(RecvPhase::Polling, port, framed, events),
        recv_run(RecvPhase::Polling, port, framed, events).1
            == RecvAction::Finish(RecvOutcome::Delivered { state: State::Encrypted, src_port }),
    ensures
        exists|i: int|
            0 <= i < events.len() && (#[trigger] events[i] matches RecvEvent::Decrypted(Some(d))
                && d.dst_port == Some(port)),
{
    recv_run_encrypted_needs_own_port(RecvPhase::Polling, port, framed, events, src_port);
}

/// The reports of a receive that goes through without trouble: a packet in
/// `state` from `src_port` arrives; a signed one verifies, an encrypted one
/// decrypts and names `port` as its destination; then the payload is taken
/// out (a socket) or decodes to a frame (a framed stream).
pub open spec fn untroubled_receive(state: State, port: u32, src_port: u32, framed: bool) -> Seq<RecvEvent> {
    let arrive = RecvEvent::Polled(Incoming::Packet { state, src_port: Some(src_port) });
    let last = if framed { RecvEvent::Decoded(DecodeResult::Frame) } else { RecvEvent::Taken(true) };
    match state {
        State::Plain => seq![arrive, last],
        State::Signed => seq![arrive, RecvEvent::Verified(true), last],
        State::Encrypted => seq![
            arrive,
            RecvEvent::Decrypted(Some(Decryption { dst_port: Some(port), src_port: Some(src_port) })),
            last,
        ],
    }
}

/// A packet that goes through is delivered with the state it arrived in and
/// its source port, on a socket and on a framed stream alike: a signed
/// packet is reported as signed, an encrypted one as encrypted.
pub proof fn recv_delivers_with_arrival_state(state: State, port: u32, src_port: u32, framed: bool)
    ensures
        recv_run_accepted(RecvPhase::Polling, port, framed, untroubled_receive(state, port, src_port, framed)),
        recv_run(RecvPhase::Polling, port, framed, untroubled_receive(state, port, src_port, framed)).1
            == RecvAction::Finish(RecvOutcome::Delivered { state, src_port }),
{
    let events = untroubled_receive(state, port, src_port, framed);
    reveal_with_fuel(recv_run_accepted, 4);
    reveal_with_fuel(recv_run, 4);
    let rest = events.drop_first();
    assert(rest.len() == events.len() - 1);
    assert(forall|i: int| 0 <= i < rest.len() ==> rest[i] == events[i + 1]);
    if events.len() == 3 {
        let rest2 = rest.drop_first();
        assert(rest2.len() == 1);
        assert(rest2[0] == events[2]);
        assert(rest2.drop_first().len() == 0);
    } else {
        assert(rest.drop_first().len() == 0);
    }
}

/// A framed stream delivers after the codec gave a frame exactly the state
/// the packet was waiting in; a socket after taking the payload likewise.
pub proof fn recv_delivery_keeps_waiting_state(state: State, port: u32, src_port: Option<u32>, framed: bool)
    ensures
        framed && src_port is Some ==> {
            &&& recv_accepts(recv_deliver(state, src_port, framed).0, RecvEvent::Decoded(DecodeResult::Frame))
            &&& recv_next(recv_deliver(state, src_port, framed).0, port, framed, RecvEvent::Decoded(DecodeResult::Frame)).1
                == RecvAction::Finish(RecvOutcome::Delivered { state, src_port: src_port->0 })
        },
        !framed && src_port is Some ==> {
            &&& recv_accepts(recv_deliver(state, src_port, framed).0, RecvEvent::Taken(true))
            &&& recv_next(recv_deliver(state, src_port, framed).0, port, framed, RecvEvent::Taken(true)).1
                == RecvAction::Finish(RecvOutcome::Delivered { state, src_port: src_port->0 })
        },
        framed && src_port is None ==> recv_deliver(state, src_port, framed).1
            == RecvAction::Finish(RecvOutcome::MalformedPacket),
{
}

} // verus!
