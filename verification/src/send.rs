//! The decisions of sending one message.
//!
//! Sending a message alternates work outside the library (sealing the
//! packet, handing it to the protocol, polling the interfaces) with
//! decisions. `SendMachine` makes the decisions: it asks for one piece of
//! work at a time, is told how it went, and says what comes next, until it
//! finishes with the answer to give the caller.
use vstd::prelude::*;
use crate::socket::State;

verus! {

/// How far sending a message has got.
#[derive(Clone, Copy, Debug, PartialEq, Eq, Structural)]
pub enum SendPhase {
    /// Waiting for the packet to be signed or encrypted.
    Sealing,
    /// Waiting for the first attempt to hand the packet to the protocol.
    FirstTry,
    /// Waiting for the protocol to poll its interfaces.
    Polling,
    /// Waiting for the second attempt to hand the packet over.
    SecondTry,
    /// Finished.
    Done,
}

/// What handing a packet to the protocol gave.
#[derive(Clone, Copy, Debug, PartialEq, Eq, Structural)]
pub enum TrySendResult {
    /// The protocol took the packet.
    Sent,
    /// The protocol gave the packet back: no interface could take it now.
    Returned,
    /// The protocol failed.
    Failed,
}

/// What polling the protocol's interfaces gave.
#[derive(Clone, Copy, Debug, PartialEq, Eq, Structural)]
pub enum PollResult {
    /// Every interface has finished its pending work.
    Complete,
    /// Some interface still has pending work.
    Pending,
    /// Polling failed.
    Failed,
}

/// The report of one piece of work that the machine asked for.
#[derive(Clone, Copy, Debug, PartialEq, Eq, Structural)]
pub enum SendEvent {
    /// The packet was signed or encrypted (`true`), or that failed.
    Sealed(bool),
    /// The packet was handed to the protocol.
    Tried(TrySendResult),
    /// The protocol's interfaces were polled.
    Polled(PollResult),
}

/// The answer to give the caller of a send.
#[derive(Clone, Copy, Debug, PartialEq, Eq, Structural)]
pub enum SendOutcome {
    /// The sink is ready for another message.
    Ready,
    /// The message is still waiting for an interface.
    NotReady,
    /// Return the error of the work just reported.
    Failed,
}

/// A piece of work to do, or the end.
#[derive(Clone, Copy, Debug, PartialEq, Eq, Structural)]
pub enum SendAction {
    /// Sign the packet with the source's key, then report `Sealed`.
    Sign,
    /// Encrypt the packet for its destination, then report `Sealed`.
    Encrypt,
    /// Hand the packet to the protocol, then report `Tried`.
    TrySend,
    /// Poll the protocol's interfaces, then report `Polled`.
    PollInterfaces,
    /// Stop and answer the caller.
    Finish(SendOutcome),
}

/// The state of a send: its phase, and whether a packet that is still
/// refused after the interfaces were polled is reported as `NotReady`
/// (a socket does so; a framed sink answers `Ready` all the same).
pub struct SendView {
    pub phase: SendPhase,
    pub report_backlog: bool,
}

/// Makes the decisions of one send.
pub struct SendMachine {
    phase: SendPhase,
    report_backlog: bool,
}

impl View for SendMachine {
    type V = SendView;

    closed spec fn view(&self) -> SendView {
        SendView { phase: self.phase, report_backlog: self.report_backlog }
    }
}

/// How a send begins: a plain packet goes straight to the protocol, a
/// signed or encrypted one is sealed first.
pub open spec fn send_start(state: State) -> (SendPhase, SendAction) {
    match state {
        State::Plain => (SendPhase::FirstTry, SendAction::TrySend),
        State::Signed => (SendPhase::Sealing, SendAction::Sign),
        State::Encrypted => (SendPhase::Sealing, SendAction::Encrypt),
    }
}

/// Whether `event` reports the work that `phase` waits for.
pub open spec fn send_accepts(phase: SendPhase, event: SendEvent) -> bool {
    match (phase, event) {
        (SendPhase::Sealing, SendEvent::Sealed(_)) => true,
        (SendPhase::FirstTry, SendEvent::Tried(_)) => true,
        (SendPhase::Polling, SendEvent::Polled(_)) => true,
        (SendPhase::SecondTry, SendEvent::Tried(_)) => true,
        _ => false,
    }
}

/// The next phase and request, after `event` in `phase`.
/// - A failure of any step ends the send with that failure.
/// - Once sealed, the packet is handed to the protocol.
/// - When the protocol takes the packet, the sink is ready.
/// - When it gives the packet back the first time, the interfaces are
///   polled; if they have all finished, the sink is ready; otherwise the
///   packet is handed over once more.
/// - When it gives the packet back the second time, a socket reports
///   `NotReady`, a framed sink `Ready`.
pub open spec fn send_next(phase: SendPhase, report_backlog: bool, event: SendEvent) -> (SendPhase, SendAction) {
    match event {
        SendEvent::Sealed(ok) => if ok {
            (SendPhase::FirstTry, SendAction::TrySend)
        } else {
            (SendPhase::Done, SendAction::Finish(SendOutcome::Failed))
        },
        SendEvent::Tried(r) => match r {
            TrySendResult::Failed => (SendPhase::Done, SendAction::Finish(SendOutcome::Failed)),
            TrySendResult::Sent => (SendPhase::Done, SendAction::Finish(SendOutcome::Ready)),
            TrySendResult::Returned => if phase == SendPhase::FirstTry {
                (SendPhase::Polling, SendAction::PollInterfaces)
            } else if report_backlog {
                (SendPhase::Done, SendAction::Finish(SendOutcome::NotReady))
            } else {
                (SendPhase::Done, SendAction::Finish(SendOutcome::Ready))
            },
        },
        SendEvent::Polled(r) => match r {
            PollResult::Failed => (SendPhase::Done, SendAction::Finish(SendOutcome::Failed)),
            PollResult::Complete => (SendPhase::Done, SendAction::Finish(SendOutcome::Ready)),
            PollResult::Pending => (SendPhase::SecondTry, SendAction::TrySend),
        },
    }
}

impl SendMachine {
    /// Begins sending a packet in the given state.
    pub fn start(state: State, report_backlog: bool) -> (r: (SendMachine, SendAction))
        ensures
            r.0@ == (SendView { phase: send_start(state).0, report_backlog }),
            r.1 == send_start(state).1,
    {
        match state {
            State::Plain => (SendMachine { phase: SendPhase::FirstTry, report_backlog }, SendAction::TrySend),
            State::Signed => (SendMachine { phase: SendPhase::Sealing, report_backlog }, SendAction::Sign),
            State::Encrypted => (SendMachine { phase: SendPhase::Sealing, report_backlog }, SendAction::Encrypt),
        }
    }

    /// Whether the send has finished.
    pub fn is_done(&self) -> (b: bool)
        ensures
            b == (self@.phase == SendPhase::Done),
    {
        match self.phase {
            SendPhase::Done => true,
            _ => false,
        }
    }

    /// Takes the report of the work last asked for and decides what comes
    /// next.
    pub fn step(&mut self, event: SendEvent) -> (a: SendAction)
        requires
            send_accepts(old(self)@.phase, event),
        ensures
            (final(self)@.phase, a) == send_next(old(self)@.phase, old(self)@.report_backlog, event),
            final(self)@.report_backlog == old(self)@.report_backlog,
    {
        let (phase, action) = match event {
            SendEvent::Sealed(ok) => if ok {
                (SendPhase::FirstTry, SendAction::TrySend)
            } else {
                (SendPhase::Done, SendAction::Finish(SendOutcome::Failed))
            },
            SendEvent::Tried(r) => match r {
                TrySendResult::Failed => (SendPhase::Done, SendAction::Finish(SendOutcome::Failed)),
                TrySendResult::Sent => (SendPhase::Done, SendAction::Finish(SendOutcome::Ready)),
                TrySendResult::Returned => match self.phase {
                    SendPhase::FirstTry => (SendPhase::Polling, SendAction::PollInterfaces),
                    _ => if self.report_backlog {
                        (SendPhase::Done, SendAction::Finish(SendOutcome::NotReady))
                    } else {
                        (SendPhase::Done, SendAction::Finish(SendOutcome::Ready))
                    },
                },
            },
            SendEvent::Polled(r) => match r {
                PollResult::Failed => (SendPhase::Done, SendAction::Finish(SendOutcome::Failed)),
                PollResult::Complete => (SendPhase::Done, SendAction::Finish(SendOutcome::Ready)),
                PollResult::Pending => (SendPhase::SecondTry, SendAction::TrySend),
            },
        };
        self.phase = phase;
        action
    }
}

/// A rank of the phases that every step lowers: a send finishes after at
/// most four steps.
pub open spec fn send_rank(phase: SendPhase) -> nat {
    match phase {
        SendPhase::Sealing => 4,
        SendPhase::FirstTry => 3,
        SendPhase::Polling => 2,
        SendPhase::SecondTry => 1,
        SendPhase::Done => 0,
    }
}

/// Every step of a send makes progress, and the send has finished exactly
/// when the machine answers the caller.
pub proof fn send_progresses(phase: SendPhase, report_backlog: bool, event: SendEvent)
    requires
        send_accepts(phase, event),
    ensures
        send_rank(send_next(phase, report_backlog, event).0) < send_rank(phase),
        (send_next(phase, report_backlog, event).0 == SendPhase::Done)
            <==> (send_next(phase, report_backlog, event).1 is Finish),
{
}

/// A send starts by sealing exactly the packets that are to be signed or
/// encrypted; a plain packet goes straight to the protocol.
pub proof fn send_seals_only_when_asked(state: State)
    ensures
        send_start(state).1 == SendAction::Sign <==> state == State::Signed,
        send_start(state).1 == SendAction::Encrypt <==> state == State::Encrypted,
        send_start(state).1 == SendAction::TrySend <==> state == State::Plain,
{
}

/// `NotReady` is answered only by a socket, and only when the protocol gave
/// the packet back a second time after the interfaces were polled.
pub proof fn send_backlog_only_after_second_refusal(phase: SendPhase, report_backlog: bool, event: SendEvent)
    requires
        send_accepts(phase, event),
        send_next(phase, report_backlog, event).1 == SendAction::Finish(SendOutcome::NotReady),
    ensures
        report_backlog,
        phase == SendPhase::SecondTry,
        event == SendEvent::Tried(TrySendResult::Returned),
{
}

/// A failure reported by any piece of work ends the send with that failure.
pub proof fn send_failures_propagate(phase: SendPhase, report_backlog: bool, event: SendEvent)
    requires
        send_accepts(phase, event),
        event == SendEvent::Sealed(false) || event == SendEvent::Tried(TrySendResult::Failed)
            || event == SendEvent::Polled(PollResult::Failed),
    ensures
        send_next(phase, report_backlog, event) == (SendPhase::Done, SendAction::Finish(SendOutcome::Failed)),
{
}

/// A send fails only when a piece of work failed: every other report leads
/// on, or to `Ready` or `NotReady`.
pub proof fn send_fails_only_on_failure(phase: SendPhase, report_backlog: bool, event: SendEvent)
    requires
        send_accepts(phase, event),
        send_next(phase, report_backlog, event).1 == SendAction::Finish(SendOutcome::Failed),
    ensures
        event == SendEvent::Sealed(false) || event == SendEvent::Tried(TrySendResult::Failed)
            || event == SendEvent::Polled(PollResult::Failed),
{
}

/// Whenever the protocol takes the packet, on the first or the second try,
/// from a socket or a framed sink, the send is done and the sink is ready.
pub proof fn send_taken_is_ready(phase: SendPhase, report_backlog: bool)
    requires
        send_accepts(phase, SendEvent::Tried(TrySendResult::Sent)),
    ensures
        send_next(phase, report_backlog, SendEvent::Tried(TrySendResult::Sent))
            == (SendPhase::Done, SendAction::Finish(SendOutcome::Ready)),
{
}

/// A socket whose packet the protocol refuses, whose interfaces are still
/// busy, and that then gets its packet taken, answers `Ready`; had the
/// second try been refused too, it would answer `NotReady`.
pub proof fn send_retry_outcomes(report_backlog: bool)
    ensures
        send_next(SendPhase::FirstTry, report_backlog, SendEvent::Tried(TrySendResult::Returned))
            == (SendPhase::Polling, SendAction::PollInterfaces),
        send_next(SendPhase::Polling, report_backlog, SendEvent::Polled(PollResult::Pending))
            == (SendPhase::SecondTry, SendAction::TrySend),
        send_next(SendPhase::SecondTry, report_backlog, SendEvent::Tried(TrySendResult::Sent)).1
            == SendAction::Finish(SendOutcome::Ready),
        send_next(SendPhase::SecondTry, report_backlog, SendEvent::Tried(TrySendResult::Returned)).1
            == SendAction::Finish(if report_backlog { SendOutcome::NotReady } else { SendOutcome::Ready }),
{
}

} // verus!
