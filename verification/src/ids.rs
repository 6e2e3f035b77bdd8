//! Setting identifiers: the eight standard parameters of RFC 9113 plus an
//! open `Unknown` case carrying a raw 16-bit wire code.

use vstd::prelude::*;

verus! {

/// Largest wire code that an identifier can be deduplicated by: codes
/// `1..=MAX_ID` map to a unique bit of a 16-bit mask, everything else maps
/// to mask `0`.
pub const MAX_ID: u16 = 15;

/// A setting identifier: one of the eight standard parameters, or any other
/// 16-bit wire code wrapped as `Unknown`.
#[derive(Clone, Copy, Debug, Hash, PartialEq, Eq, Structural)]
pub enum SettingId {
    /// Maximum size of the field-block compression table (code 0x1).
    HeaderTableSize,
    /// Enables or disables server push (code 0x2).
    EnablePush,
    /// Maximum number of concurrent streams (code 0x3).
    MaxConcurrentStreams,
    /// Initial stream-level flow-control window size (code 0x4).
    InitialWindowSize,
    /// Largest acceptable frame payload size (code 0x5).
    MaxFrameSize,
    /// Maximum field section size (code 0x6).
    MaxHeaderListSize,
    /// Enables the Extended CONNECT protocol (code 0x8).
    EnableConnectProtocol,
    /// Disables RFC 7540 stream priorities (code 0x9).
    NoRfc7540Priorities,
    /// Any other wire code, kept for forward compatibility.
    Unknown(u16),
}

/// The wire code of an identifier.
pub open spec fn spec_code(id: SettingId) -> u16 {
    match id {
        SettingId::HeaderTableSize => 1,
        SettingId::EnablePush => 2,
        SettingId::MaxConcurrentStreams => 3,
        SettingId::InitialWindowSize => 4,
        SettingId::MaxFrameSize => 5,
        SettingId::MaxHeaderListSize => 6,
        SettingId::EnableConnectProtocol => 8,
        SettingId::NoRfc7540Priorities => 9,
        SettingId::Unknown(code) => code,
    }
}

/// The identifier denoted by a wire code; total, so that unrecognized codes
/// stay representable instead of failing.
pub open spec fn spec_from_code(code: u16) -> SettingId {
    if code == 1 {
        SettingId::HeaderTableSize
    } else if code == 2 {
        SettingId::EnablePush
    } else if code == 3 {
        SettingId::MaxConcurrentStreams
    } else if code == 4 {
        SettingId::InitialWindowSize
    } else if code == 5 {
        SettingId::MaxFrameSize
    } else if code == 6 {
        SettingId::MaxHeaderListSize
    } else if code == 8 {
        SettingId::EnableConnectProtocol
    } else if code == 9 {
        SettingId::NoRfc7540Priorities
    } else {
        SettingId::Unknown(code)
    }
}

/// Codes assigned to the eight standard parameters.
pub open spec fn is_standard_code(code: u16) -> bool {
    code == 1 || code == 2 || code == 3 || code == 4 || code == 5 || code == 6 || code == 8
        || code == 9
}

/// Codes that own a mask bit: `1..=MAX_ID`.
pub open spec fn valid_code(code: u16) -> bool {
    1 <= code <= MAX_ID
}

/// Identifiers that a `Setting` may carry: standard ones, and `Unknown`
/// ones whose code is representable.
pub open spec fn constructible(id: SettingId) -> bool {
    match id {
        SettingId::Unknown(code) => valid_code(code),
        _ => true,
    }
}

/// The mask bit of a wire code: a unique bit for each representable code,
/// `0` for code `0` and codes beyond `MAX_ID`.
pub open spec fn spec_mask_of_code(code: u16) -> u16 {
    if valid_code(code) {
        (1u16 << code) as u16
    } else {
        0
    }
}

impl SettingId {
    /// The wire code of this identifier.
    pub fn code(&self) -> (r: u16)
        ensures
            r == spec_code(*self),
    {
        match self {
            SettingId::HeaderTableSize => 1,
            SettingId::EnablePush => 2,
            SettingId::MaxConcurrentStreams => 3,
            SettingId::InitialWindowSize => 4,
            SettingId::MaxFrameSize => 5,
            SettingId::MaxHeaderListSize => 6,
            SettingId::EnableConnectProtocol => 8,
            SettingId::NoRfc7540Priorities => 9,
            SettingId::Unknown(code) => *code,
        }
    }

    /// The identifier denoted by a wire code.
    pub fn from_code(code: u16) -> (r: SettingId)
        ensures
            r == spec_from_code(code),
    {
        if code == 1 {
            SettingId::HeaderTableSize
        } else if code == 2 {
            SettingId::EnablePush
        } else if code == 3 {
            SettingId::MaxConcurrentStreams
        } else if code == 4 {
            SettingId::InitialWindowSize
        } else if code == 5 {
            SettingId::MaxFrameSize
        } else if code == 6 {
            SettingId::MaxHeaderListSize
        } else if code == 8 {
            SettingId::EnableConnectProtocol
        } else if code == 9 {
            SettingId::NoRfc7540Priorities
        } else {
            SettingId::Unknown(code)
        }
    }

    /// The mask bit used by every deduplication routine in the system.
    pub fn mask_id(&self) -> (r: u16)
        ensures
            r == spec_mask_of_code(spec_code(*self)),
    {
        let code = self.code();
        if 1 <= code && code <= MAX_ID {
            proof {
                lemma_mask_bits_low(code);
            }
            1u16 << code
        } else {
            0
        }
    }
}

/// Mask bits of representable codes are nonzero.
pub proof fn lemma_mask_bits_low(code: u16)
    by (bit_vector)
    requires
        1 <= code <= 15,
    ensures
        (1u16 << code) != 0u16,
{
}

/// Distinct representable codes own distinct mask bits, and setting one
/// code's bit does not disturb the test for another code.
pub proof fn lemma_mask_or(m: u16, c0: u16, c: u16)
    by (bit_vector)
    requires
        1 <= c0 <= 15,
        1 <= c <= 15,
    ensures
        ((m | (1u16 << c0)) & (1u16 << c)) != 0 <==> ((m & (1u16 << c)) != 0 || c == c0),
{
}

/// The zero mask has no bit set.
pub proof fn lemma_mask_empty(c: u16)
    by (bit_vector)
    requires
        1 <= c <= 15,
    ensures
        (0u16 & (1u16 << c)) == 0,
{
}

} // verus!
