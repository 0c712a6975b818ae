//! A socket paired with a codec: a stream of decoded frames and a sink of
//! items to encode.
use vstd::prelude::*;
use bytes::BytesMut;
use crate::buffer::{buffer_bytes, buffer_with_capacity};
use crate::codec::{Decoder, Encoder};
use crate::recv::{DecodeResult, RecvAction, RecvMachine, RecvPhase, RecvView};
use crate::send::{PollResult, SendMachine, SendOutcome, SendView, send_start};
use crate::socket::{header_for, Outgoing, Socket, SocketAddr, State, WRITE_BUFFER_DEFAULT};

verus! {

/// A socket, a codec, and the buffer that items are encoded into before
/// they are sent.
pub struct Framed<C> {
    socket: Socket,
    codec: C,
    wr: BytesMut,
}

/// How a decode went, as the receive decisions need it: a frame, no frame,
/// or an error.
pub open spec fn decode_result_of<I, E>(r: Result<Option<I>, E>) -> DecodeResult {
    match r {
        Ok(Some(_)) => DecodeResult::Frame,
        Ok(None) => DecodeResult::Empty,
        Err(_) => DecodeResult::Failed,
    }
}

/// A decode counts as a frame exactly when the codec gave one, as a failure
/// exactly when it gave an error, and as empty exactly when it gave nothing.
pub proof fn decode_result_matches<I, E>(r: Result<Option<I>, E>)
    ensures
        (decode_result_of(r) == DecodeResult::Frame) <==> (r matches Ok(Some(_))),
        (decode_result_of(r) == DecodeResult::Failed) <==> (r is Err),
        (decode_result_of(r) == DecodeResult::Empty) <==> (r matches Ok(None)),
{
}

/// Reports how a decode went, for the receive decisions.
pub fn decode_result<I, E>(r: &Result<Option<I>, E>) -> (d: DecodeResult)
    ensures
        d == decode_result_of(*r),
{
    match r {
        Ok(Some(_)) => DecodeResult::Frame,
        Ok(None) => DecodeResult::Empty,
        Err(_) => DecodeResult::Failed,
    }
}

/// A result with its success value dropped.
pub open spec fn unit_result<T, E>(r: Result<T, E>) -> Result<(), E> {
    match r {
        Ok(_) => Ok(()),
        Err(e) => Err(e),
    }
}

impl<C> Framed<C> {
    /// The socket.
    pub closed spec fn socket_of(&self) -> Socket {
        self.socket
    }

    /// The codec.
    pub closed spec fn codec_of(&self) -> C {
        self.codec
    }

    /// The write buffer.
    pub closed spec fn write_buffer(&self) -> BytesMut {
        self.wr
    }

    /// Pairs `socket` with `codec`, with an empty write buffer.
    pub fn new(socket: Socket, codec: C) -> (f: Framed<C>)
        ensures
            f.socket_of() == socket,
            f.codec_of() == codec,
            buffer_bytes(f.write_buffer()) == Seq::<u8>::empty(),
    {
        Framed { socket, codec, wr: buffer_with_capacity(WRITE_BUFFER_DEFAULT) }
    }

    /// The socket.
    pub fn get_ref(&self) -> (s: &Socket)
        ensures
            *s == self.socket_of(),
    {
        &self.socket
    }

    /// The socket, to change; the codec and the write buffer stay as they
    /// are.
    pub fn get_mut(&mut self) -> (s: &mut Socket)
        ensures
            *s == old(self).socket_of(),
            final(self).socket_of() == *final(s),
            final(self).codec_of() == old(self).codec_of(),
            final(self).write_buffer() == old(self).write_buffer(),
    {
        &mut self.socket
    }

    /// The write buffer, to hand its bytes to an outgoing packet; the
    /// socket and the codec stay as they are.
    pub fn write_buffer_mut(&mut self) -> (b: &mut BytesMut)
        ensures
            *b == old(self).write_buffer(),
            final(self).write_buffer() == *final(b),
            final(self).socket_of() == old(self).socket_of(),
            final(self).codec_of() == old(self).codec_of(),
    {
        &mut self.wr
    }

    /// Gives the socket back.
    pub fn into_inner(self) -> (s: Socket)
        ensures
            s == self.socket_of(),
    {
        self.socket
    }

    /// Begins receiving one frame: encrypted packets count only when
    /// addressed to this socket's port, and payloads go through the codec.
    pub fn poll(&self) -> (r: (RecvMachine, RecvAction))
        ensures
            r.0@ == (RecvView { phase: RecvPhase::Polling, port: self.socket_of()@.port, framed: true }),
            r.1 == RecvAction::PollIncoming,
    {
        RecvMachine::start(self.socket.local_addr().port, true)
    }

    /// The answer to a caller waiting for sent items to go out, given how
    /// polling the protocol's interfaces went: ready once they have all
    /// finished.
    pub fn poll_complete(&self, polled: PollResult) -> (o: SendOutcome)
        ensures
            o == (match polled {
                PollResult::Complete => SendOutcome::Ready,
                PollResult::Pending => SendOutcome::NotReady,
                PollResult::Failed => SendOutcome::Failed,
            }),
    {
        match polled {
            PollResult::Complete => SendOutcome::Ready,
            PollResult::Pending => SendOutcome::NotReady,
            PollResult::Failed => SendOutcome::Failed,
        }
    }
}

impl<C: Encoder> Framed<C> {
    /// Begins sending `item` to `to` in the given state: the item is encoded
    /// into the write buffer; if that fails the codec's error is returned;
    /// otherwise the header of the packet and the decisions of sending it,
    /// where a packet still refused after the interfaces were polled counts
    /// as sent all the same. `next` is the protocol's next sequence number
    /// for the socket, if it knows the socket.
    pub fn start_send(&mut self, item: <C as Encoder>::Item, to: SocketAddr, state: State, next: Option<i64>)
        -> (r: Result<Outgoing, <C as Encoder>::Error>)
        requires
            old(self).codec_of().encodable(item, buffer_bytes(old(self).write_buffer())),
        ensures
            old(self).codec_of().encoded(
                item,
                buffer_bytes(old(self).write_buffer()),
                unit_result(r),
                final(self).codec_of(),
                buffer_bytes(final(self).write_buffer()),
            ),
            final(self).socket_of() == old(self).socket_of(),
            r matches Ok(o) ==> {
                &&& header_for(o.header, old(self).socket_of()@, to, next)
                &&& o.machine@ == (SendView { phase: send_start(state).0, report_backlog: false })
                &&& o.action == send_start(state).1
            },
    {
        let encoded = self.codec.encode(item, &mut self.wr);
        let r = match encoded {
            Err(e) => Err(e),
            Ok(u) => {
                assert(u == ());
                let header = self.socket.header(to, next);
                let (machine, action) = SendMachine::start(state, false);
                Ok(Outgoing { header, machine, action })
            },
        };
        assert(unit_result(r) == encoded);
        r
    }
}

impl<C: Decoder> Framed<C> {
    /// Decodes a frame out of a packet's payload with the codec; the socket
    /// and the write buffer stay as they are.
    pub fn decode_frame(&mut self, contents: &mut BytesMut) -> (r: Result<Option<<C as Decoder>::Item>, <C as Decoder>::Error>)
        ensures
            old(self).codec_of().decoded(
                buffer_bytes(*old(contents)),
                r,
                final(self).codec_of(),
                buffer_bytes(*final(contents)),
            ),
            final(self).socket_of() == old(self).socket_of(),
            final(self).write_buffer() == old(self).write_buffer(),
    {
        self.codec.decode(contents)
    }
}

} // verus!
