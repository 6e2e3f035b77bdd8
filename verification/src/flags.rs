//! The SETTINGS frame flag byte: only bit 0 (ACK) is defined.

use vstd::prelude::*;

verus! {

/// The ACK bit of the SETTINGS flag byte.
pub const ACK: u8 = 0x1;

/// Whether a wire flag byte has the ACK bit set.
pub open spec fn ack_bit_set(bits: u8) -> bool {
    (bits & ACK) == ACK
}

/// The flag byte of a SETTINGS frame. Only the ACK bit is ever retained;
/// every other bit is cleared on load and never set on construction.
#[derive(Clone, Copy, Debug, Hash, PartialEq, Eq, Structural)]
pub struct SettingsFlags(u8);

impl SettingsFlags {
    /// The raw flag byte.
    pub closed spec fn spec_bits(&self) -> u8 {
        self.0
    }

    /// Whether the ACK bit is set.
    pub open spec fn spec_is_ack(&self) -> bool {
        self.spec_bits() == ACK
    }

    /// Every value of the type keeps only the ACK bit.
    pub open spec fn wf(&self) -> bool {
        self.spec_bits() == 0 || self.spec_bits() == ACK
    }

    /// Flags with no bit set.
    pub fn empty() -> (r: SettingsFlags)
        ensures
            r.wf(),
            !r.spec_is_ack(),
    {
        SettingsFlags(0)
    }

    /// Flags parsed from a wire byte: every undefined bit is ignored.
    pub fn load(bits: u8) -> (r: SettingsFlags)
        ensures
            r.wf(),
            r.spec_is_ack() == ack_bit_set(bits),
    {
        proof {
            lemma_ack_bit(bits);
        }
        SettingsFlags(bits & ACK)
    }

    /// Flags with the ACK bit set.
    pub fn ack() -> (r: SettingsFlags)
        ensures
            r.wf(),
            r.spec_is_ack(),
    {
        SettingsFlags(ACK)
    }

    /// Whether the ACK bit is set.
    pub fn is_ack(&self) -> (r: bool)
        requires
            self.wf(),
        ensures
            r == self.spec_is_ack(),
    {
        let b = self.0;
        proof {
            assert((b & 0x1u8 == 0x1) == (b == 0x1)) by (bit_vector)
                requires
                    b == 0 || b == 1,
            ;
        }
        b & ACK == ACK
    }

    /// The wire value of the flags; exact, since no information beyond the
    /// ACK bit is ever retained.
    pub fn bits(&self) -> (r: u8)
        ensures
            r == self.spec_bits(),
    {
        self.0
    }
}

impl Default for SettingsFlags {
    /// Flags with no bit set.
    fn default() -> (r: SettingsFlags)
        ensures
            r.wf(),
            !r.spec_is_ack(),
    {
        SettingsFlags::empty()
    }
}

/// Masking a byte with the ACK bit keeps at most that bit.
proof fn lemma_ack_bit(bits: u8)
    by (bit_vector)
    ensures
        (bits & 0x1) == 0 || (bits & 0x1) == 0x1,
{
}

} // verus!
