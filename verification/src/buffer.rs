//! The byte buffer of the `bytes` crate, as the library sees it: a sequence
//! of bytes.
use vstd::prelude::*;
use bytes::BytesMut;

verus! {

#[verifier::external_type_specification]
#[verifier::external_body]
pub struct ExBytesMut(BytesMut);

/// The bytes that a `BytesMut` holds, in order.
pub uninterp spec fn buffer_bytes(buf: BytesMut) -> Seq<u8>;

/// `BytesMut::with_capacity`: a buffer that holds no bytes (room for
/// `capacity` of them is reserved; how much was allocated is not stated).
#[verifier::external_body]
pub(crate) fn buffer_with_capacity(capacity: usize) -> (buf: BytesMut)
    ensures
        buffer_bytes(buf) == Seq::<u8>::empty(),
{
    BytesMut::with_capacity(capacity)
}

/// `BytesMut::len`: the number of bytes the buffer holds.
#[verifier::external_body]
pub(crate) fn buffer_len(buf: &BytesMut) -> (n: usize)
    ensures
        n == buffer_bytes(*buf).len(),
{
    buf.len()
}

/// The number of bytes a buffer holds.
pub fn buffer_length(buf: &BytesMut) -> (n: usize)
    ensures
        n == buffer_bytes(*buf).len(),
{
    buffer_len(buf)
}

/// `BytesMut::is_empty`: whether the buffer holds no bytes.
#[verifier::external_body]
pub(crate) fn buffer_is_empty(buf: &BytesMut) -> (b: bool)
    ensures
        b == (buffer_bytes(*buf).len() == 0),
{
    buf.is_empty()
}

/// `BytesMut::split_to`: the first `at` bytes move to the returned buffer and
/// the rest stay, in order. The crate panics when `at` exceeds the length,
/// which the precondition rules out.
#[verifier::external_body]
pub(crate) fn buffer_split_to(buf: &mut BytesMut, at: usize) -> (front: BytesMut)
    requires
        at <= buffer_bytes(*old(buf)).len(),
    ensures
        buffer_bytes(front) == buffer_bytes(*old(buf)).take(at as int),
        buffer_bytes(*final(buf)) == buffer_bytes(*old(buf)).skip(at as int),
{
    buf.split_to(at)
}

/// `BytesMut::extend_from_slice`, given the bytes of `data`: they are
/// appended to `buf` in order. The crate grows the allocation first; the
/// precondition keeps the new length within `isize::MAX`, the limit past
/// which that growth panics. That the allocator can serve the request is not
/// stated (an allocation failure aborts the process).
#[verifier::external_body]
pub(crate) fn buffer_append(buf: &mut BytesMut, data: &BytesMut)
    requires
        buffer_bytes(*old(buf)).len() + buffer_bytes(*data).len() <= isize::MAX,
    ensures
        buffer_bytes(*final(buf)) == buffer_bytes(*old(buf)) + buffer_bytes(*data),
{
    buf.extend_from_slice(&data[..])
}

} // verus!
