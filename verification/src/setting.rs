//! A single validated (identifier, value) pair: the atomic wire unit of a
//! SETTINGS payload.

use crate::buf::{be16_bytes, be32_bytes, buf_bytes, put_u16, put_u32};
use crate::ids::{constructible, spec_code, spec_from_code, SettingId, MAX_ID};
use vstd::prelude::*;

verus! {

/// An (identifier, 32-bit value) pair, constructible only when the
/// identifier is standard or unknown-and-representable.
#[derive(Clone, Copy, Debug, Hash, PartialEq, Eq, Structural)]
pub struct Setting {
    id: SettingId,
    value: u32,
}

/// The 16-bit code read big-endian from the first two bytes of a record.
pub open spec fn record_code(raw: Seq<u8>) -> u16 {
    ((raw[0] as int) * 256 + (raw[1] as int)) as u16
}

/// The 32-bit value read big-endian from the last four bytes of a record.
pub open spec fn record_value(raw: Seq<u8>) -> u32 {
    ((raw[2] as int) * 0x1000000 + (raw[3] as int) * 0x10000 + (raw[4] as int) * 0x100 + (
    raw[5] as int)) as u32
}

/// The six wire bytes of one setting record.
pub open spec fn record_bytes(code: u16, value: u32) -> Seq<u8> {
    be16_bytes(code) + be32_bytes(value)
}

impl Setting {
    /// The identifier of this setting.
    pub closed spec fn spec_id(&self) -> SettingId {
        self.id
    }

    /// The value of this setting.
    pub closed spec fn spec_value(&self) -> u32 {
        self.value
    }

    /// Creates a `Setting`, guaranteeing that the identifier is standard or
    /// unknown with a representable code; any other identifier yields
    /// nothing (an internal guard, not a protocol error).
    pub fn from_id(id: SettingId, value: u32) -> (r: Option<Setting>)
        ensures
            (r is Some) == constructible(id),
            r matches Some(s) ==> s.spec_id() == id && s.spec_value() == value,
    {
        if let SettingId::Unknown(code) = id {
            if code == 0 || code > MAX_ID {
                return None;
            }
        }
        Some(Setting { id, value })
    }

    /// Parses one 6-byte record: a big-endian 16-bit code followed by a
    /// big-endian 32-bit value, validated by `from_id`.
    pub fn load(raw: &[u8]) -> (r: Option<Setting>)
        requires
            raw@.len() >= 6,
        ensures
            (r is Some) == constructible(spec_from_code(record_code(raw@))),
            r matches Some(s) ==> s.spec_id() == spec_from_code(record_code(raw@))
                && s.spec_value() == record_value(raw@),
    {
        let id: u16 = (raw[0] as u16) * 256 + (raw[1] as u16);
        let val: u32 = (raw[2] as u32) * 0x1000000 + (raw[3] as u32) * 0x10000 + (raw[4] as u32)
            * 0x100 + (raw[5] as u32);
        Setting::from_id(SettingId::from_code(id), val)
    }

    /// Reassembles a setting whose identifier is already known to be
    /// constructible, as the collections of the crate store it.
    pub(crate) fn from_parts(id: SettingId, value: u32) -> (r: Setting)
        requires
            constructible(id),
        ensures
            r.spec_id() == id,
            r.spec_value() == value,
    {
        Setting { id, value }
    }

    /// The identifier of this setting.
    pub fn id(&self) -> (r: SettingId)
        ensures
            r == self.spec_id(),
    {
        self.id
    }

    /// The value of this setting.
    pub fn value(&self) -> (r: u32)
        ensures
            r == self.spec_value(),
    {
        self.value
    }

    /// Writes the 16-bit code then the 32-bit value, big-endian.
    pub fn encode(&self, dst: &mut bytes::BytesMut)
        ensures
            buf_bytes(*final(dst)) == buf_bytes(*old(dst)) + record_bytes(
                spec_code(self.spec_id()),
                self.spec_value(),
            ),
    {
        let kind = self.id.code();
        let val = self.value;
        put_u16(dst, kind);
        put_u32(dst, val);
        proof {
            assert(buf_bytes(*dst) =~= buf_bytes(*old(dst)) + record_bytes(
                spec_code(self.spec_id()),
                self.spec_value(),
            ));
        }
    }
}

} // verus!
