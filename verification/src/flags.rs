//! The four-flag status register (zero, subtract, half-carry, carry) and its
//! packed byte form: zero at bit 7, subtract at bit 6, half-carry at bit 5,
//! carry at bit 4; bits 0 through 3 are always zero.

use vstd::prelude::*;

verus! {

/// The four status flags of the arithmetic unit.
#[derive(Debug, Clone, Copy, PartialEq, Eq, Structural)]
pub struct FlagsRegister {
    pub zero: bool,
    pub subtract: bool,
    pub half_carry: bool,
    pub carry: bool,
}

/// The byte the four flags pack into.
pub open spec fn packed_flags(flags: FlagsRegister) -> u8 {
    ((if flags.zero {
        0x80int
    } else {
        0int
    }) + (if flags.subtract {
        0x40int
    } else {
        0int
    }) + (if flags.half_carry {
        0x20int
    } else {
        0int
    }) + (if flags.carry {
        0x10int
    } else {
        0int
    })) as u8
}

/// The flags a byte unpacks into; bits 0 through 3 are ignored.
pub open spec fn unpacked_flags(byte: u8) -> FlagsRegister {
    FlagsRegister {
        zero: byte & 0x80 != 0,
        subtract: byte & 0x40 != 0,
        half_carry: byte & 0x20 != 0,
        carry: byte & 0x10 != 0,
    }
}

/// Packing the flags into a byte and unpacking that byte is the identity.
pub proof fn lemma_pack_unpack_identity(flags: FlagsRegister)
    ensures
        unpacked_flags(packed_flags(flags)) == flags,
{
    let z = flags.zero;
    let n = flags.subtract;
    let h = flags.half_carry;
    let c = flags.carry;
    let byte = packed_flags(flags);
    assert(byte == ((if z { 0x80u8 } else { 0 }) + (if n { 0x40u8 } else { 0 }) + (if h {
        0x20u8
    } else {
        0
    }) + (if c { 0x10u8 } else { 0 })) as u8);
    if z {
        assert(byte & 0x80 != 0 && (byte & 0x80 != 0) == z) by (bit_vector)
            requires
                byte == ((0x80u8) + (if n { 0x40u8 } else { 0 }) + (if h { 0x20u8 } else { 0 }) + (
                if c {
                    0x10u8
                } else {
                    0
                })) as u8,
                z,
        ;
    } else {
        assert((byte & 0x80 != 0) == z) by (bit_vector)
            requires
                byte == ((0u8) + (if n { 0x40u8 } else { 0 }) + (if h { 0x20u8 } else { 0 }) + (if c {
                    0x10u8
                } else {
                    0
                })) as u8,
                !z,
        ;
    }
    assert((byte & 0x40 != 0) == n && (byte & 0x20 != 0) == h && (byte & 0x10 != 0) == c)
        by (bit_vector)
        requires
            byte == ((if z { 0x80u8 } else { 0 }) + (if n { 0x40u8 } else { 0 }) + (if h {
                0x20u8
            } else {
                0
            }) + (if c { 0x10u8 } else { 0 })) as u8,
    ;
}

impl FlagsRegister {
    /// All four flags start cleared.
    pub fn new() -> (r: FlagsRegister)
        ensures
            r == (FlagsRegister { zero: false, subtract: false, half_carry: false, carry: false }),
    {
        FlagsRegister { zero: false, subtract: false, half_carry: false, carry: false }
    }

    /// Clears all four flags.
    pub fn reset(&mut self)
        ensures
            *final(self) == (FlagsRegister {
                zero: false,
                subtract: false,
                half_carry: false,
                carry: false,
            }),
    {
        self.zero = false;
        self.subtract = false;
        self.half_carry = false;
        self.carry = false;
    }

    pub fn set_zero(&mut self, value: bool)
        ensures
            *final(self) == (FlagsRegister { zero: value, ..*old(self) }),
    {
        self.zero = value;
    }

    pub fn set_subtract(&mut self, value: bool)
        ensures
            *final(self) == (FlagsRegister { subtract: value, ..*old(self) }),
    {
        self.subtract = value;
    }

    pub fn set_half_carry(&mut self, value: bool)
        ensures
            *final(self) == (FlagsRegister { half_carry: value, ..*old(self) }),
    {
        self.half_carry = value;
    }

    pub fn set_carry(&mut self, value: bool)
        ensures
            *final(self) == (FlagsRegister { carry: value, ..*old(self) }),
    {
        self.carry = value;
    }

    /// Packs the four flags into their byte form.
    pub fn to_byte(&self) -> (r: u8)
        ensures
            r == packed_flags(*self),
    {
        (if self.zero {
            0x80u8
        } else {
            0
        }) + (if self.subtract {
            0x40u8
        } else {
            0
        }) + (if self.half_carry {
            0x20u8
        } else {
            0
        }) + (if self.carry {
            0x10u8
        } else {
            0
        })
    }

    /// Unpacks a byte into the four flags; bits 0 through 3 are ignored.
    pub fn from_byte(byte: u8) -> (r: FlagsRegister)
        ensures
            r == unpacked_flags(byte),
    {
        proof {
            assert(((byte >> 7) & 1 != 0) == (byte & 0x80 != 0) && ((byte >> 6) & 1 != 0) == (byte
                & 0x40 != 0) && ((byte >> 5) & 1 != 0) == (byte & 0x20 != 0) && ((byte >> 4) & 1
                != 0) == (byte & 0x10 != 0)) by (bit_vector);
        }
        FlagsRegister {
            zero: (byte >> 7) & 1 != 0,
            subtract: (byte >> 6) & 1 != 0,
            half_carry: (byte >> 5) & 1 != 0,
            carry: (byte >> 4) & 1 != 0,
        }
    }
}

impl Default for FlagsRegister {
    fn default() -> (r: FlagsRegister)
        ensures
            r == (FlagsRegister { zero: false, subtract: false, half_carry: false, carry: false }),
    {
        FlagsRegister::new()
    }
}

} // verus!
