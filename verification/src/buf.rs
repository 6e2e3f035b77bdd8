//! Trusted interface to `bytes::BytesMut`, the destination buffer that
//! encoding appends wire bytes to.

use bytes::BufMut;
use vstd::prelude::*;

verus! {

#[verifier::external_type_specification]
#[verifier::external_body]
pub struct ExBytesMut(bytes::BytesMut);

/// The bytes held by a `BytesMut`, oldest first.
pub uninterp spec fn buf_bytes(b: bytes::BytesMut) -> Seq<u8>;

/// The big-endian bytes of a 16-bit integer.
pub open spec fn be16_bytes(v: u16) -> Seq<u8> {
    seq![(v / 256) as u8, (v % 256) as u8]
}

/// The big-endian bytes of a 32-bit integer.
pub open spec fn be32_bytes(v: u32) -> Seq<u8> {
    seq![
        (v / 0x1000000) as u8,
        ((v / 0x10000) % 256) as u8,
        ((v / 256) % 256) as u8,
        (v % 256) as u8,
    ]
}

/// Relies on `bytes::BufMut::put_u8` for `BytesMut`: appends the byte.
#[verifier::external_body]
pub(crate) fn put_u8(dst: &mut bytes::BytesMut, v: u8)
    ensures
        buf_bytes(*final(dst)) == buf_bytes(*old(dst)).push(v),
{
    dst.put_u8(v);
}

/// Relies on `bytes::BufMut::put_u16` for `BytesMut`: appends the integer
/// in big-endian byte order.
#[verifier::external_body]
pub(crate) fn put_u16(dst: &mut bytes::BytesMut, v: u16)
    ensures
        buf_bytes(*final(dst)) == buf_bytes(*old(dst)) + be16_bytes(v),
{
    dst.put_u16(v);
}

/// Relies on `bytes::BufMut::put_u32` for `BytesMut`: appends the integer
/// in big-endian byte order.
#[verifier::external_body]
pub(crate) fn put_u32(dst: &mut bytes::BytesMut, v: u32)
    ensures
        buf_bytes(*final(dst)) == buf_bytes(*old(dst)) + be32_bytes(v),
{
    dst.put_u32(v);
}

} // verus!
