//! Framing codecs: how an item is written into bytes and read back out.
use vstd::prelude::*;
use bytes::BytesMut;
use crate::buffer::{buffer_bytes, buffer_len, buffer_is_empty, buffer_split_to, buffer_append};
use crate::socket::Error;

verus! {

/// What `decode_eof` may answer, given what `decode` answered and the bytes
/// it left in the buffer: the frame or the error of `decode` as it is;
/// nothing when no bytes are left; else a malformed-packet error, converted
/// into the codec's error type.
pub open spec fn eof_answer<I, E: From<Error>>(decoded: Result<Option<I>, E>, rest: Seq<u8>, res: Result<Option<I>, E>) -> bool {
    match decoded {
        Ok(Some(frame)) => res == Ok::<Option<I>, E>(Some(frame)),
        Ok(None) => if rest.len() == 0 {
            res == Ok::<Option<I>, E>(None)
        } else {
            res matches Err(e) && call_ensures(E::from, (Error::MalformedPacket,), e)
        },
        Err(e) => res == Err::<Option<I>, E>(e),
    }
}

/// Trait of helper objects to write out messages as bytes.
pub trait Encoder: Sized {
    /// The type of items consumed by the `Encoder`.
    type Item;

    /// The type of encoding errors.
    type Error: From<Error>;

    /// What `encode` does: `encoded(item, buf, res, next, after)` holds
    /// when encoding `item` behind the bytes `buf` may answer `res`, leave
    /// the encoder as `next` and the buffer holding the bytes `after`.
    spec fn encoded(&self, item: Self::Item, buf: Seq<u8>, res: Result<(), Self::Error>, next: Self, after: Seq<u8>) -> bool;

    /// Whether `item` can be written behind the bytes `buf` without passing
    /// the size limit of a buffer.
    spec fn encodable(&self, item: Self::Item, buf: Seq<u8>) -> bool;

    /// Encodes a frame into the buffer provided.
    fn encode(&mut self, item: Self::Item, buf: &mut BytesMut) -> (res: Result<(), Self::Error>)
        requires
            old(self).encodable(item, buffer_bytes(*old(buf))),
        ensures
            old(self).encoded(item, buffer_bytes(*old(buf)), res, *final(self), buffer_bytes(*final(buf))),
    ;
}

/// Decoding of frames via buffers.
pub trait Decoder: Sized {
    /// The type of decoded frames.
    type Item;

    /// The type of unrecoverable frame decoding errors.
    type Error: From<Error>;

    /// What `decode` does: `decoded(buf, res, next, after)` holds when
    /// decoding the bytes `buf` may answer `res`, leave the decoder as `next`
    /// and the buffer holding the bytes `after`.
    spec fn decoded(&self, buf: Seq<u8>, res: Result<Option<Self::Item>, Self::Error>, next: Self, after: Seq<u8>) -> bool;

    /// Attempts to decode a frame from the provided buffer of bytes.
    fn decode(&mut self, buf: &mut BytesMut) -> (res: Result<Option<Self::Item>, Self::Error>)
        ensures
            old(self).decoded(buffer_bytes(*old(buf)), res, *final(self), buffer_bytes(*final(buf))),
    ;

    /// Called when no more bytes will arrive: decodes once more, and reports
    /// a malformed packet when no frame came out but bytes are left over.
    fn decode_eof(&mut self, buf: &mut BytesMut) -> (res: Result<Option<Self::Item>, Self::Error>)
        default_ensures
            exists|decoded: Result<Option<Self::Item>, Self::Error>| {
                &&& #[trigger] old(self).decoded(buffer_bytes(*old(buf)), decoded, *final(self), buffer_bytes(*final(buf)))
                &&& eof_answer(decoded, buffer_bytes(*final(buf)), res)
            },
    {
        let decoded = self.decode(buf);
        let ghost first = decoded;
        let res = match decoded {
            Ok(Some(frame)) => Ok(Some(frame)),
            Ok(None) => {
                if buffer_is_empty(buf) {
                    Ok(None)
                } else {
                    Err(Self::Error::from(Error::MalformedPacket))
                }
            },
            Err(e) => Err(e),
        };
        assert(eof_answer(first, buffer_bytes(*buf), res));
        res
    }
}

/// A simple codec that ships raw bytes around: a frame is whatever bytes
/// are there.
#[derive(Copy, Clone, Debug, Eq, PartialEq, Ord, PartialOrd, Hash)]
pub struct BytesCodec(());

impl BytesCodec {
    /// The codec: the type has this one value.
    pub closed spec fn the_codec() -> BytesCodec {
        BytesCodec(())
    }

    /// Creates a new `BytesCodec` for shipping around raw bytes.
    pub fn new() -> (c: BytesCodec)
        ensures
            c == BytesCodec::the_codec(),
    {
        BytesCodec(())
    }
}

impl Decoder for BytesCodec {
    type Item = BytesMut;
    type Error = Error;

    /// A non-empty buffer is taken whole as one frame and left empty; an
    /// empty one gives no frame and stays as it is. Decoding never fails.
    open spec fn decoded(&self, buf: Seq<u8>, res: Result<Option<BytesMut>, Error>, next: BytesCodec, after: Seq<u8>) -> bool {
        &&& next == *self
        &&& if buf.len() > 0 {
            &&& res matches Ok(Some(frame))
            &&& buffer_bytes(frame) == buf
            &&& after == Seq::<u8>::empty()
        } else {
            &&& res == Ok::<Option<BytesMut>, Error>(None)
            &&& after == buf
        }
    }

    fn decode(&mut self, buf: &mut BytesMut) -> (res: Result<Option<BytesMut>, Error>) {
        let len = buffer_len(buf);
        if len > 0 {
            let frame = buffer_split_to(buf, len);
            proof {
                assert(buffer_bytes(*old(buf)).take(len as int) =~= buffer_bytes(*old(buf)));
                assert(buffer_bytes(*old(buf)).skip(len as int) =~= Seq::<u8>::empty());
            }
            Ok(Some(frame))
        } else {
            Ok(None)
        }
    }
}

impl Encoder for BytesCodec {
    type Item = BytesMut;
    type Error = Error;

    /// The bytes of the item are appended to the buffer; encoding never
    /// fails.
    open spec fn encoded(&self, item: BytesMut, buf: Seq<u8>, res: Result<(), Error>, next: BytesCodec, after: Seq<u8>) -> bool {
        &&& next == *self
        &&& res == Ok::<(), Error>(())
        &&& after == buf + buffer_bytes(item)
    }

    open spec fn encodable(&self, item: BytesMut, buf: Seq<u8>) -> bool {
        buf.len() + buffer_bytes(item).len() <= isize::MAX
    }

    fn encode(&mut self, data: BytesMut, buf: &mut BytesMut) -> (res: Result<(), Error>) {
        buffer_append(buf, &data);
        Ok(())
    }
}

/// What `BytesCodec` encodes, it decodes back: encoding a non-empty item
/// into an empty buffer and decoding that buffer gives a frame of exactly
/// the item's bytes and leaves the buffer empty. (An empty item leaves the
/// buffer empty, and decoding it gives no frame.)
pub proof fn bytes_codec_round_trip(
    codec: BytesCodec,
    item: BytesMut,
    encode_res: Result<(), Error>,
    codec1: BytesCodec,
    encoded: Seq<u8>,
    decode_res: Result<Option<BytesMut>, Error>,
    codec2: BytesCodec,
    rest: Seq<u8>,
)
    requires
        buffer_bytes(item).len() > 0,
        codec.encoded(item, Seq::<u8>::empty(), encode_res, codec1, encoded),
        codec1.decoded(encoded, decode_res, codec2, rest),
    ensures
        encode_res is Ok,
        decode_res matches Ok(Some(frame)) && buffer_bytes(frame) == buffer_bytes(item),
        rest == Seq::<u8>::empty(),
{
    assert(encoded =~= buffer_bytes(item));
}

/// `BytesCodec` takes all there is: after a decode the buffer is empty, and
/// decoding again gives no frame.
pub proof fn bytes_codec_drains(
    codec: BytesCodec,
    buf: Seq<u8>,
    res: Result<Option<BytesMut>, Error>,
    codec1: BytesCodec,
    after: Seq<u8>,
    res2: Result<Option<BytesMut>, Error>,
    codec2: BytesCodec,
    after2: Seq<u8>,
)
    requires
        codec.decoded(buf, res, codec1, after),
        codec1.decoded(after, res2, codec2, after2),
    ensures
        after.len() == 0,
        res2 == Ok::<Option<BytesMut>, Error>(None),
        after2.len() == 0,
{
}

/// At the end of the input, `BytesCodec` never reports a malformed packet:
/// `decode_eof` answers what `decode` answers.
pub proof fn bytes_codec_eof_is_decode(
    codec: BytesCodec,
    buf: Seq<u8>,
    decoded: Result<Option<BytesMut>, Error>,
    codec1: BytesCodec,
    after: Seq<u8>,
    res: Result<Option<BytesMut>, Error>,
)
    requires
        codec.decoded(buf, decoded, codec1, after),
        eof_answer(decoded, after, res),
    ensures
        res == decoded,
        res is Ok,
{
}

/// For every decoder and whatever bytes are left: `decode_eof` passes on a
/// frame or an error that `decode` gave as it is, answers nothing when
/// `decode` found nothing in an empty buffer, and answers an error (the
/// malformed-packet error converted) only when `decode` found nothing while
/// bytes are left.
pub proof fn eof_answer_passes_on_decode<I, E: From<Error>>(
    decoded: Result<Option<I>, E>,
    rest: Seq<u8>,
    res: Result<Option<I>, E>,
)
    requires
        eof_answer(decoded, rest, res),
    ensures
        decoded matches Ok(Some(f)) ==> res == Ok::<Option<I>, E>(Some(f)),
        decoded matches Err(e) ==> res == Err::<Option<I>, E>(e),
        decoded == Ok::<Option<I>, E>(None) && rest.len() == 0 ==> res == Ok::<Option<I>, E>(None),
        res is Err && decoded is Ok ==> decoded == Ok::<Option<I>, E>(None) && rest.len() > 0,
        decoded == Ok::<Option<I>, E>(None) && rest.len() > 0 ==> res is Err,
{
}

} // verus!
