use bytes::BytesMut;
use mdp::buffer::buffer_length;
use mdp::codec::{BytesCodec, Decoder, Encoder};
use mdp::framed::{decode_result, Framed};
use mdp::recv::{DecodeResult, Incoming, RecvAction, RecvEvent, RecvOutcome};
use mdp::send::{PollResult, SendAction, SendEvent, SendOutcome, TrySendResult};
use mdp::socket::{Addr, Error, Socket, SocketAddr, State};

fn socket() -> Socket {
    Socket::new(1, Addr { key: [3u8; 32] }, 6000)
}

#[test]
fn buffer_length_counts_bytes() {
    assert_eq!(buffer_length(&BytesMut::from(&b"four"[..])), 4);
    assert_eq!(buffer_length(&BytesMut::new()), 0);
}

#[test]
fn bytes_codec_new_is_the_one_codec() {
    assert_eq!(BytesCodec::new(), BytesCodec::new());
}

#[test]
fn bytes_codec_decode_takes_whole_buffer() {
    let mut codec = BytesCodec::new();
    let mut buf = BytesMut::from(&b"Hello!"[..]);
    let frame = codec.decode(&mut buf).unwrap().unwrap();
    assert_eq!(&frame[..], b"Hello!");
    assert!(buf.is_empty());
}

#[test]
fn bytes_codec_decode_empty_gives_nothing() {
    let mut codec = BytesCodec::new();
    let mut buf = BytesMut::new();
    assert!(codec.decode(&mut buf).unwrap().is_none());
    assert!(buf.is_empty());
}

#[test]
fn bytes_codec_encode_appends() {
    let mut codec = BytesCodec::new();
    let mut buf = BytesMut::from(&b"ab"[..]);
    codec.encode(BytesMut::from(&b"cde"[..]), &mut buf).unwrap();
    assert_eq!(&buf[..], b"abcde");
}

#[test]
fn bytes_codec_round_trip() {
    let mut codec = BytesCodec::new();
    let mut buf = BytesMut::new();
    codec.encode(BytesMut::from(&b"payload"[..]), &mut buf).unwrap();
    let frame = codec.decode(&mut buf).unwrap().unwrap();
    assert_eq!(&frame[..], b"payload");
    assert!(codec.decode(&mut buf).unwrap().is_none());
}

#[test]
fn bytes_codec_round_trip_of_empty_item_gives_no_frame() {
    let mut codec = BytesCodec::new();
    let mut buf = BytesMut::new();
    codec.encode(BytesMut::new(), &mut buf).unwrap();
    assert!(codec.decode(&mut buf).unwrap().is_none());
}

#[test]
fn bytes_codec_decode_eof_never_malformed() {
    let mut codec = BytesCodec::new();
    let mut buf = BytesMut::from(&b"xyz"[..]);
    let frame = codec.decode_eof(&mut buf).unwrap().unwrap();
    assert_eq!(&frame[..], b"xyz");
    assert!(codec.decode_eof(&mut buf).unwrap().is_none());
}

/// A codec that never finds a frame, to reach the malformed-packet answer of
/// `decode_eof`.
struct NeverDecoder;

impl Decoder for NeverDecoder {
    type Item = ();
    type Error = Error;

    fn decoded(
        &self,
        _buf: vstd::seq::Seq<u8>,
        _res: Result<Option<()>, Error>,
        _next: NeverDecoder,
        _after: vstd::seq::Seq<u8>,
    ) -> bool {
        true
    }

    fn decode(&mut self, _buf: &mut BytesMut) -> Result<Option<()>, Error> {
        Ok(None)
    }
}

#[test]
fn decode_eof_reports_leftover_bytes_as_malformed() {
    let mut codec = NeverDecoder;
    let mut buf = BytesMut::from(&b"left"[..]);
    assert_eq!(codec.decode_eof(&mut buf), Err(Error::MalformedPacket));
    let mut empty = BytesMut::new();
    assert_eq!(codec.decode_eof(&mut empty), Ok(None));
}

#[test]
fn framed_new_keeps_socket_and_starts_with_empty_buffer() {
    let mut framed = Framed::new(socket(), BytesCodec::new());
    assert_eq!(framed.get_ref().index(), 1);
    assert!(framed.write_buffer_mut().is_empty());
    framed.get_mut().set_ttl(4);
    assert_eq!(framed.get_ref().ttl(), 4);
    let s = framed.into_inner();
    assert_eq!(s.ttl(), 4);
    assert_eq!(s.local_addr().port, 6000);
}

#[test]
fn framed_start_send_encodes_into_write_buffer() {
    let mut framed = Framed::new(socket(), BytesCodec::new());
    let to = SocketAddr { addr: Addr { key: [5u8; 32] }, port: 7000 };
    let mut out = framed.start_send(BytesMut::from(&b"frame"[..]), to, State::Signed, Some(3)).unwrap();
    assert_eq!(&framed.write_buffer_mut()[..], b"frame");
    assert_eq!(out.action, SendAction::Sign);
    assert_eq!(out.header.seq, 3);
    assert_eq!(out.header.src.port, 6000);
    assert_eq!(out.machine.step(SendEvent::Sealed(true)), SendAction::TrySend);
    assert_eq!(out.machine.step(SendEvent::Tried(TrySendResult::Returned)), SendAction::PollInterfaces);
    assert_eq!(out.machine.step(SendEvent::Polled(PollResult::Pending)), SendAction::TrySend);
    assert_eq!(
        out.machine.step(SendEvent::Tried(TrySendResult::Returned)),
        SendAction::Finish(SendOutcome::Ready)
    );
}

#[test]
fn framed_poll_complete() {
    let framed = Framed::new(socket(), BytesCodec::new());
    assert_eq!(framed.poll_complete(PollResult::Complete), SendOutcome::Ready);
    assert_eq!(framed.poll_complete(PollResult::Pending), SendOutcome::NotReady);
    assert_eq!(framed.poll_complete(PollResult::Failed), SendOutcome::Failed);
}

#[test]
fn framed_poll_decodes_payload() {
    let mut framed = Framed::new(socket(), BytesCodec::new());
    let (mut m, a) = framed.poll();
    assert_eq!(a, RecvAction::PollIncoming);
    let a = m.step(RecvEvent::Polled(Incoming::Packet { state: State::Plain, src_port: Some(4000) }));
    assert_eq!(a, RecvAction::Decode);
    let mut contents = BytesMut::from(&b"data"[..]);
    let r = framed.decode_frame(&mut contents);
    assert_eq!(decode_result(&r), DecodeResult::Frame);
    assert_eq!(&r.unwrap().unwrap()[..], b"data");
    assert_eq!(
        m.step(RecvEvent::Decoded(DecodeResult::Frame)),
        RecvAction::Finish(RecvOutcome::Delivered { state: State::Plain, src_port: 4000 })
    );
}

#[test]
fn framed_poll_without_source_port_is_malformed() {
    let framed = Framed::new(socket(), BytesCodec::new());
    let (mut m, _) = framed.poll();
    assert_eq!(
        m.step(RecvEvent::Polled(Incoming::Packet { state: State::Plain, src_port: None })),
        RecvAction::Finish(RecvOutcome::MalformedPacket)
    );
}

#[test]
fn framed_poll_empty_decode_is_malformed() {
    let mut framed = Framed::new(socket(), BytesCodec::new());
    let (mut m, _) = framed.poll();
    m.step(RecvEvent::Polled(Incoming::Packet { state: State::Plain, src_port: Some(1) }));
    let mut contents = BytesMut::new();
    let r = framed.decode_frame(&mut contents);
    assert_eq!(decode_result(&r), DecodeResult::Empty);
    assert_eq!(m.step(RecvEvent::Decoded(DecodeResult::Empty)), RecvAction::Finish(RecvOutcome::MalformedPacket));
}

#[test]
fn framed_poll_decode_failure_fails() {
    let framed = Framed::new(socket(), BytesCodec::new());
    let (mut m, _) = framed.poll();
    m.step(RecvEvent::Polled(Incoming::Packet { state: State::Signed, src_port: Some(1) }));
    assert_eq!(m.step(RecvEvent::Verified(true)), RecvAction::Decode);
    assert_eq!(m.step(RecvEvent::Decoded(DecodeResult::Failed)), RecvAction::Finish(RecvOutcome::Failed));
}
