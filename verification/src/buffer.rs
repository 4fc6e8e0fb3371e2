//! The output buffer: `bytes::BytesMut`, seen through the bytes it holds.

use bytes::BufMut;
use bytes::BytesMut;
use vstd::prelude::*;

use crate::encoding::be_bytes;

verus! {

/// `bytes::BytesMut`, carried opaquely.
#[verifier::external_type_specification]
#[verifier::external_body]
pub struct ExBytesMut(bytes::BytesMut);

/// The bytes that a `BytesMut` holds, in order (its `Deref<Target = [u8]>`).
pub uninterp spec fn buffer_contents(buf: BytesMut) -> Seq<u8>;

/// Largest length a `BytesMut` can reach: its `remaining_mut` is
/// `isize::MAX - len`, and growing past it panics.
pub open spec fn buffer_room(buf: BytesMut, extra: nat) -> bool {
    buffer_contents(buf).len() + extra <= isize::MAX
}

/// `BytesMut::with_capacity`: an empty buffer (the capacity is not its length).
#[verifier::external_body]
pub(crate) fn buffer_with_capacity(capacity: usize) -> (buf: BytesMut)
    requires
        capacity <= isize::MAX,
    ensures
        buffer_contents(buf) == Seq::<u8>::empty(),
{
    BytesMut::with_capacity(capacity)
}

/// `BufMut::put_u8` on a `BytesMut`: appends the byte.
#[verifier::external_body]
pub(crate) fn buffer_put_u8(buf: &mut BytesMut, v: u8)
    requires
        buffer_room(*old(buf), 1),
    ensures
        buffer_contents(*final(buf)) == buffer_contents(*old(buf)) + seq![v],
{
    buf.put_u8(v)
}

/// `BufMut::put_u16` on a `BytesMut`: appends the two bytes of `v` in
/// big-endian order (`v.to_be_bytes()`).
#[verifier::external_body]
pub(crate) fn buffer_put_u16(buf: &mut BytesMut, v: u16)
    requires
        buffer_room(*old(buf), 2),
    ensures
        buffer_contents(*final(buf)) == buffer_contents(*old(buf)) + be_bytes(v as nat, 2),
{
    buf.put_u16(v)
}

/// `BufMut::put_u32` on a `BytesMut`: appends the four bytes of `v` in
/// big-endian order (`v.to_be_bytes()`).
#[verifier::external_body]
pub(crate) fn buffer_put_u32(buf: &mut BytesMut, v: u32)
    requires
        buffer_room(*old(buf), 4),
    ensures
        buffer_contents(*final(buf)) == buffer_contents(*old(buf)) + be_bytes(v as nat, 4),
{
    buf.put_u32(v)
}

/// `BufMut::put_u64` on a `BytesMut`: appends the eight bytes of `v` in
/// big-endian order (`v.to_be_bytes()`).
#[verifier::external_body]
pub(crate) fn buffer_put_u64(buf: &mut BytesMut, v: u64)
    requires
        buffer_room(*old(buf), 8),
    ensures
        buffer_contents(*final(buf)) == buffer_contents(*old(buf)) + be_bytes(v as nat, 8),
{
    buf.put_u64(v)
}

/// `BufMut::put_slice` on a `BytesMut` (its `extend_from_slice`): appends
/// the bytes of `src` in order.
#[verifier::external_body]
pub(crate) fn buffer_put_slice(buf: &mut BytesMut, src: &[u8])
    requires
        buffer_room(*old(buf), src@.len()),
    ensures
        buffer_contents(*final(buf)) == buffer_contents(*old(buf)) + src@,
{
    buf.put_slice(src)
}

/// `BytesMut::len`: the number of bytes held.
#[verifier::external_body]
pub(crate) fn buffer_len(buf: &BytesMut) -> (n: usize)
    ensures
        n == buffer_contents(*buf).len(),
{
    buf.len()
}

} // verus!
