//! Socket primitives for working with MDP.
//!
//! A `Socket` is the equivalent of a UDP socket over an MDP overlay network:
//! it is bound to an MDP address (a public key) and a 32-bit MDP port, and it
//! carries the time-to-live and the Quality-of-Service class of the messages
//! it sends. What the protocol keeps about a socket (its broadcast flag, its
//! sequence counter) and the packets themselves live outside this type; the
//! methods here take what they need of them as plain values.
use vstd::prelude::*;
use crate::send::{SendAction, SendMachine, SendPhase, SendView, send_start};
use crate::recv::{RecvAction, RecvMachine, RecvPhase, RecvView};

verus! {

/// The default TTL value for MDP sockets.
pub const TTL_DEFAULT: u8 = 31;

/// The largest TTL value that MDP carries.
pub const TTL_MAX: u8 = 31;

/// The default size of a socket's read buffer.
pub const READ_BUFFER_DEFAULT: usize = 64 * 1200;

/// The default size of a socket's write buffer.
pub const WRITE_BUFFER_DEFAULT: usize = 8 * 1200;

/// Errors of the MDP socket layer.
#[derive(Clone, Copy, Debug, PartialEq, Eq, Structural)]
pub enum Error {
    /// The socket is not known to its protocol, or its queue is gone.
    InvalidSocket,
    /// A packet or frame could not be made sense of.
    MalformedPacket,
    /// Signing, verifying, encrypting or decrypting failed.
    Crypto,
    /// An interface could not take or pass on a packet.
    Io,
}

/// Quality-of-Service classes: the class a message is sorted into decides
/// its scheduling and timeouts.
#[derive(Clone, Copy, Debug, PartialEq, Eq, Hash, Structural)]
pub enum Class {
    Voice,
    Management,
    Video,
    Ordinary,
    Opportunistic,
}

/// The Quality-of-Service class of a new socket.
pub const QOS_DEFAULT: Class = Class::Ordinary;

/// How a message travels: in the clear, signed by its source, or encrypted
/// for its destination.
#[derive(Clone, Copy, Debug, PartialEq, Eq, Hash, Structural)]
pub enum State {
    Plain,
    Signed,
    Encrypted,
}

/// An MDP address: the public key of an elliptic-curve key pair.
#[derive(Clone, Copy, Debug, PartialEq, Eq, Hash)]
pub struct Addr {
    pub key: [u8; 32],
}

impl Addr {
    /// Whether this is the empty address: all its bytes are zero.
    pub open spec fn is_empty(self) -> bool {
        forall|i: int| 0 <= i < 32 ==> #[trigger] self.key[i] == 0
    }

    /// The empty address, used where a packet names no intermediate hop.
    pub fn empty() -> (a: Addr)
        ensures
            a.is_empty(),
    {
        Addr { key: [0u8; 32] }
    }
}

/// An MDP socket address: an address and a port in MDP's own port space.
#[derive(Clone, Copy, Debug, PartialEq, Eq, Hash)]
pub struct SocketAddr {
    pub addr: Addr,
    pub port: u32,
}

/// The header fields of an outgoing packet.
#[derive(Clone, Copy, Debug, PartialEq, Eq)]
pub struct PacketHeader {
    pub src: SocketAddr,
    pub dst: SocketAddr,
    pub via: Addr,
    pub ttl: u8,
    pub qos: Class,
    pub seq: i64,
    pub broadcast: bool,
}

/// What a message about to be sent consists of: its header, the machine
/// that decides how sending goes on, and that machine's first request.
pub struct Outgoing {
    pub header: PacketHeader,
    pub machine: SendMachine,
    pub action: SendAction,
}

/// The values a socket holds.
pub struct SocketView {
    pub index: usize,
    pub addr: Addr,
    pub port: u32,
    pub qos: Class,
    pub ttl: u8,
}

/// A virtual socket on an MDP overlay network, bound to an MDP socket
/// address.
pub struct Socket {
    index: usize,
    addr: Addr,
    port: u32,
    qos: Class,
    ttl: u8,
}

impl View for Socket {
    type V = SocketView;

    closed spec fn view(&self) -> SocketView {
        SocketView { index: self.index, addr: self.addr, port: self.port, qos: self.qos, ttl: self.ttl }
    }
}

/// The TTL a socket keeps when asked for `ttl`: values above the maximum
/// are cut down to it.
pub open spec fn clamp_ttl(ttl: u8) -> u8 {
    if ttl > TTL_MAX { TTL_MAX } else { ttl }
}

/// The sequence number of an outgoing packet: the protocol's next one for
/// the socket, or -1 when the protocol does not know the socket.
pub open spec fn sequence_number(next: Option<i64>) -> i64 {
    match next {
        Some(seq) => seq,
        None => -1i64,
    }
}

/// The broadcast flag of a socket, given the flag the protocol keeps for
/// it: `false` when the protocol does not know the socket.
pub open spec fn broadcast_flag(registered: Option<bool>) -> bool {
    registered == Some(true)
}

/// The flag the protocol keeps after the broadcast flag was set to `on`:
/// unchanged (nothing) when the protocol does not know the socket.
pub open spec fn stored_broadcast(registered: Option<bool>, on: bool) -> Option<bool> {
    if registered is Some { Some(on) } else { None }
}

/// Reading the broadcast flag after setting it gives what was set, when the
/// protocol knows the socket, and `false` otherwise.
pub proof fn broadcast_read_after_write(registered: Option<bool>, on: bool)
    ensures
        broadcast_flag(stored_broadcast(registered, on)) == (registered is Some && on),
{
}

/// When the protocol knows the socket, the flag it is to store is exactly
/// the one set, whatever it held before, and reading it back gives that
/// flag; when it does not know the socket, nothing is stored.
pub proof fn broadcast_set_stores_value(old_flag: bool, on: bool)
    ensures
        stored_broadcast(Some(old_flag), on) == Some(on),
        broadcast_flag(stored_broadcast(Some(old_flag), on)) == on,
        stored_broadcast(None, on) == None::<bool>,
        broadcast_flag(Some(old_flag)) == old_flag,
        !broadcast_flag(None),
{
}

/// The TTL a socket keeps never exceeds the maximum; a value within it is
/// kept as it is, a larger one becomes the maximum; and setting the TTL
/// again to what it is changes nothing.
pub proof fn ttl_clamped(ttl: u8)
    ensures
        clamp_ttl(ttl) <= TTL_MAX,
        ttl <= TTL_MAX ==> clamp_ttl(ttl) == ttl,
        ttl > TTL_MAX ==> clamp_ttl(ttl) == TTL_MAX,
        clamp_ttl(clamp_ttl(ttl)) == clamp_ttl(ttl),
        TTL_DEFAULT <= TTL_MAX,
{
}

/// Whether `h` is the header of a packet that the socket `s` sends to `to`,
/// given `next`, the protocol's next sequence number for the socket if it
/// knows the socket: from the socket's address and port, through no
/// intermediate hop, with the socket's TTL and class, not broadcast.
pub open spec fn header_for(h: PacketHeader, s: SocketView, to: SocketAddr, next: Option<i64>) -> bool {
    &&& h.src == (SocketAddr { addr: s.addr, port: s.port })
    &&& h.dst == to
    &&& h.via.is_empty()
    &&& h.ttl == s.ttl
    &&& h.qos == s.qos
    &&& h.seq == sequence_number(next)
    &&& !h.broadcast
}

impl Socket {
    #[verifier::type_invariant]
    spec fn ttl_in_range(self) -> bool {
        self.ttl <= TTL_MAX
    }

    /// A socket with the given protocol index, bound to `addr` and `port`,
    /// with the default TTL and Quality-of-Service class.
    pub fn new(index: usize, addr: Addr, port: u32) -> (s: Socket)
        ensures
            s@ == (SocketView { index, addr, port, qos: QOS_DEFAULT, ttl: TTL_DEFAULT }),
    {
        Socket { index, addr, port, qos: Class::Ordinary, ttl: TTL_DEFAULT }
    }

    /// The index under which the protocol keeps this socket.
    pub fn index(&self) -> (i: usize)
        ensures
            i == self@.index,
    {
        self.index
    }

    /// The MDP socket address this socket is bound to.
    pub fn local_addr(&self) -> (a: SocketAddr)
        ensures
            a == (SocketAddr { addr: self@.addr, port: self@.port }),
    {
        SocketAddr { addr: self.addr, port: self.port }
    }

    /// Get the time-to-live value for this socket; it never exceeds
    /// `TTL_MAX`.
    pub fn ttl(&self) -> (t: u8)
        ensures
            t == self@.ttl,
            t <= TTL_MAX,
    {
        proof {
            use_type_invariant(self);
        }
        self.ttl
    }

    /// Set the time-to-live value for this socket: any value higher than
    /// `TTL_MAX` is set to the maximum. Nothing else changes.
    pub fn set_ttl(&mut self, ttl: u8)
        ensures
            final(self)@ == (SocketView { ttl: clamp_ttl(ttl), ..old(self)@ }),
    {
        if ttl > TTL_MAX {
            self.ttl = TTL_MAX
        } else {
            self.ttl = ttl
        }
    }

    /// Get the default Quality-of-Service class for this socket.
    pub fn qos(&self) -> (c: Class)
        ensures
            c == self@.qos,
    {
        self.qos
    }

    /// Set the default Quality-of-Service class for this socket. Nothing
    /// else changes.
    pub fn set_qos(&mut self, class: Class)
        ensures
            final(self)@ == (SocketView { qos: class, ..old(self)@ }),
    {
        proof {
            use_type_invariant(&*self);
        }
        self.qos = class
    }

    /// The broadcast flag of this socket, given the flag that the protocol
    /// keeps for it (`None` when the protocol does not know the socket):
    /// that flag, or `false`.
    pub fn broadcast(&self, registered: Option<bool>) -> (on: bool)
        ensures
            on == broadcast_flag(registered),
    {
        match registered {
            Some(flag) => flag,
            None => false,
        }
    }

    /// Setting the broadcast flag, given the flag that the protocol keeps
    /// for this socket (`None` when the protocol does not know it): the
    /// flag the protocol is to keep from now on, `on`, or nothing to store
    /// when it does not know the socket.
    pub fn set_broadcast(&self, registered: Option<bool>, on: bool) -> (stored: Option<bool>)
        ensures
            stored == stored_broadcast(registered, on),
    {
        match registered {
            Some(_) => Some(on),
            None => None,
        }
    }

    /// The header of a packet sent from this socket to `to`, numbered by
    /// `next` (the protocol's next sequence number for the socket, if it
    /// knows the socket).
    pub fn header(&self, to: SocketAddr, next: Option<i64>) -> (h: PacketHeader)
        ensures
            header_for(h, self@, to, next),
    {
        let seq = match next {
            Some(s) => s,
            None => -1,
        };
        PacketHeader {
            src: SocketAddr { addr: self.addr, port: self.port },
            dst: to,
            via: Addr::empty(),
            ttl: self.ttl,
            qos: self.qos,
            seq,
            broadcast: false,
        }
    }

    /// Begins sending one message to `to` in the given state: its header,
    /// and the decisions of sending it, where a packet still refused after
    /// the interfaces were polled is reported as `NotReady`.
    fn send_to(&self, to: SocketAddr, next: Option<i64>, state: State) -> (o: Outgoing)
        ensures
            header_for(o.header, self@, to, next),
            o.machine@ == (SendView { phase: send_start(state).0, report_backlog: true }),
            o.action == send_start(state).1,
    {
        let header = self.header(to, next);
        let (machine, action) = SendMachine::start(state, true);
        Outgoing { header, machine, action }
    }

    /// Begins sending one message to `to`, encrypted with the destination's
    /// key.
    pub fn send_to_encrypt(&self, to: SocketAddr, next: Option<i64>) -> (o: Outgoing)
        ensures
            header_for(o.header, self@, to, next),
            o.machine@ == (SendView { phase: SendPhase::Sealing, report_backlog: true }),
            o.action == SendAction::Encrypt,
    {
        self.send_to(to, next, State::Encrypted)
    }

    /// Begins sending one message to `to`, signed with this socket's key.
    pub fn send_to_sign(&self, to: SocketAddr, next: Option<i64>) -> (o: Outgoing)
        ensures
            header_for(o.header, self@, to, next),
            o.machine@ == (SendView { phase: SendPhase::Sealing, report_backlog: true }),
            o.action == SendAction::Sign,
    {
        self.send_to(to, next, State::Signed)
    }

    /// Begins sending one plaintext message to `to`.
    pub fn send_to_plain(&self, to: SocketAddr, next: Option<i64>) -> (o: Outgoing)
        ensures
            header_for(o.header, self@, to, next),
            o.machine@ == (SendView { phase: SendPhase::FirstTry, report_backlog: true }),
            o.action == SendAction::TrySend,
    {
        self.send_to(to, next, State::Plain)
    }

    /// Begins receiving one message on this socket: payloads are handed out
    /// as they are, and encrypted packets count only when addressed to this
    /// socket's port.
    pub fn recv_from(&self) -> (r: (RecvMachine, RecvAction))
        ensures
            r.0@ == (RecvView { phase: RecvPhase::Polling, port: self@.port, framed: false }),
            r.1 == RecvAction::PollIncoming,
    {
        RecvMachine::start(self.port, false)
    }
}

} // verus!
