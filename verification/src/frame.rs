//! The collaborator surface around the SETTINGS codec: the frame head, the
//! shared error kinds, and the frame-size limits.

use crate::buf::{be32_bytes, buf_bytes, put_u32, put_u8};
use vstd::prelude::*;

verus! {

/// A frame-size value on the wire.
pub type FrameSize = u32;

/// The wire code of the SETTINGS frame kind.
pub const KIND_SETTINGS: u8 = 0x4;

/// The default value of SETTINGS_HEADER_TABLE_SIZE.
pub const DEFAULT_SETTINGS_HEADER_TABLE_SIZE: usize = 4096;

/// The default value of SETTINGS_INITIAL_WINDOW_SIZE.
pub const DEFAULT_INITIAL_WINDOW_SIZE: u32 = 65535;

/// The default value of SETTINGS_MAX_FRAME_SIZE.
pub const DEFAULT_MAX_FRAME_SIZE: FrameSize = 16384;

/// SETTINGS_INITIAL_WINDOW_SIZE upper bound.
pub const MAX_INITIAL_WINDOW_SIZE: u32 = 0x7fffffff;

/// SETTINGS_MAX_FRAME_SIZE upper bound.
pub const MAX_MAX_FRAME_SIZE: FrameSize = 0xffffff;

/// Why a SETTINGS frame was rejected; every kind is terminal for the frame
/// being processed.
#[derive(Clone, Copy, Debug, Hash, PartialEq, Eq, Structural)]
pub enum Error {
    /// The frame was not addressed to the connection-control stream.
    InvalidStreamId,
    /// An ACK frame carried a non-empty payload.
    InvalidPayloadLength,
    /// A non-ACK payload length was not a multiple of the 6-byte record
    /// width. (The name is historical; it is unrelated to ACK frames.)
    InvalidPayloadAckSettings,
    /// A recognized setting's value violated its domain.
    InvalidSettingValue,
}

/// A parsed frame head: the kind byte, the flag byte, and the stream
/// identifier the frame is addressed to.
#[derive(Clone, Copy, Debug, Hash, PartialEq, Eq, Structural)]
pub struct Head {
    /// The frame kind byte.
    pub kind: u8,
    /// The frame flag byte.
    pub flag: u8,
    /// The stream identifier; `0` is the connection-control stream.
    pub stream_id: u32,
}

/// The nine header bytes of a frame: 24-bit payload length, the kind byte,
/// the flag byte, and the 32-bit stream identifier, all big-endian.
pub open spec fn head_bytes(payload_len: int, kind: u8, flag: u8, stream_id: u32) -> Seq<u8> {
    seq![
        ((payload_len / 0x10000) % 256) as u8,
        ((payload_len / 256) % 256) as u8,
        (payload_len % 256) as u8,
        kind,
        flag,
    ] + be32_bytes(stream_id)
}

impl Head {
    /// A head for a frame of the given kind, flags, and stream.
    pub fn new(kind: u8, flag: u8, stream_id: u32) -> (r: Head)
        ensures
            r == (Head { kind, flag, stream_id }),
    {
        Head { kind, flag, stream_id }
    }

    /// The frame kind byte.
    pub fn kind(&self) -> (r: u8)
        ensures
            r == self.kind,
    {
        self.kind
    }

    /// The frame flag byte.
    pub fn flag(&self) -> (r: u8)
        ensures
            r == self.flag,
    {
        self.flag
    }

    /// The stream identifier.
    pub fn stream_id(&self) -> (r: u32)
        ensures
            r == self.stream_id,
    {
        self.stream_id
    }

    /// Serializes the nine header bytes for a payload of the given length.
    pub fn encode(&self, payload_len: usize, dst: &mut bytes::BytesMut)
        requires
            payload_len < 0x1000000,
            self.stream_id < 0x80000000,
        ensures
            buf_bytes(*final(dst)) == buf_bytes(*old(dst)) + head_bytes(
                payload_len as int,
                self.kind,
                self.flag,
                self.stream_id,
            ),
    {
        let b0: u8 = ((payload_len / 0x10000) % 256) as u8;
        let b1: u8 = ((payload_len / 256) % 256) as u8;
        let b2: u8 = (payload_len % 256) as u8;
        put_u8(dst, b0);
        put_u8(dst, b1);
        put_u8(dst, b2);
        put_u8(dst, self.kind);
        put_u8(dst, self.flag);
        put_u32(dst, self.stream_id);
        proof {
            assert(buf_bytes(*dst) =~= buf_bytes(*old(dst)) + head_bytes(
                payload_len as int,
                self.kind,
                self.flag,
                self.stream_id,
            ));
        }
    }
}

} // verus!
