//! The register file: eight named 8-bit slots, with the BC, DE and HL pairs
//! read and written as composed 16-bit values (high byte first).

use vstd::prelude::*;

verus! {

/// One of the eight 8-bit registers.
#[derive(Debug, Clone, Copy, PartialEq, Eq, Structural)]
pub enum Register {
    A,
    B,
    C,
    D,
    E,
    F,
    H,
    L,
}

/// One of the 16-bit register pairs; SP is treated as a pseudo-pair.
#[derive(Debug, Clone, Copy, PartialEq, Eq, Structural)]
pub enum RegisterPair {
    BC,
    DE,
    HL,
    SP,
}

/// The eight 8-bit register slots.
#[derive(Debug, Clone, Copy, PartialEq, Eq, Structural)]
pub struct Registers {
    pub a: u8,
    pub b: u8,
    pub c: u8,
    pub d: u8,
    pub e: u8,
    pub f: u8,
    pub h: u8,
    pub l: u8,
}

/// The 16-bit value composed from a high and a low 8-bit register.
pub open spec fn pair_value(high: u8, low: u8) -> u16 {
    (high * 256 + low) as u16
}

/// The high byte of a 16-bit value.
pub open spec fn high_byte(value: u16) -> u8 {
    (value / 256) as u8
}

/// The low byte of a 16-bit value.
pub open spec fn low_byte(value: u16) -> u8 {
    (value % 256) as u8
}

/// Splitting a 16-bit value and recomposing it gives the value back.
pub proof fn lemma_split_recompose(value: u16)
    ensures
        pair_value(high_byte(value), low_byte(value)) == value,
{
    assert(((value / 256) * 256 + value % 256) as u16 == value) by (bit_vector);
}

impl Registers {
    /// The value a register selector names.
    pub open spec fn spec_get(self, reg: Register) -> u8 {
        match reg {
            Register::A => self.a,
            Register::B => self.b,
            Register::C => self.c,
            Register::D => self.d,
            Register::E => self.e,
            Register::F => self.f,
            Register::H => self.h,
            Register::L => self.l,
        }
    }

    /// The register file with one slot replaced.
    pub open spec fn spec_set(self, reg: Register, value: u8) -> Registers {
        match reg {
            Register::A => Registers { a: value, ..self },
            Register::B => Registers { b: value, ..self },
            Register::C => Registers { c: value, ..self },
            Register::D => Registers { d: value, ..self },
            Register::E => Registers { e: value, ..self },
            Register::F => Registers { f: value, ..self },
            Register::H => Registers { h: value, ..self },
            Register::L => Registers { l: value, ..self },
        }
    }

    /// All eight slots start at zero.
    pub fn new() -> (r: Registers)
        ensures
            r == (Registers { a: 0, b: 0, c: 0, d: 0, e: 0, f: 0, h: 0, l: 0 }),
    {
        Registers { a: 0, b: 0, c: 0, d: 0, e: 0, f: 0, h: 0, l: 0 }
    }

    pub fn get_bc(&self) -> (r: u16)
        ensures
            r == pair_value(self.b, self.c),
    {
        proof {
            let b = self.b;
            let c = self.c;
            assert((b as u16) << 8 | c as u16 == (b * 256 + c) as u16) by (bit_vector);
        }
        (self.b as u16) << 8 | self.c as u16
    }

    pub fn set_bc(&mut self, value: u16)
        ensures
            final(self).b == high_byte(value),
            final(self).c == low_byte(value),
            *final(self) == (Registers { b: high_byte(value), c: low_byte(value), ..*old(self) }),
    {
        proof {
            assert(((value & 0xFF00) >> 8) as u8 == (value / 256) as u8) by (bit_vector);
            assert((value & 0xFF) as u8 == (value % 256) as u8) by (bit_vector);
        }
        self.b = ((value & 0xFF00) >> 8) as u8;
        self.c = (value & 0xFF) as u8;
    }

    pub fn get_de(&self) -> (r: u16)
        ensures
            r == pair_value(self.d, self.e),
    {
        proof {
            let d = self.d;
            let e = self.e;
            assert((d as u16) << 8 | e as u16 == (d * 256 + e) as u16) by (bit_vector);
        }
        (self.d as u16) << 8 | self.e as u16
    }

    pub fn set_de(&mut self, value: u16)
        ensures
            final(self).d == high_byte(value),
            final(self).e == low_byte(value),
            *final(self) == (Registers { d: high_byte(value), e: low_byte(value), ..*old(self) }),
    {
        proof {
            assert(((value & 0xFF00) >> 8) as u8 == (value / 256) as u8) by (bit_vector);
            assert((value & 0xFF) as u8 == (value % 256) as u8) by (bit_vector);
        }
        self.d = ((value & 0xFF00) >> 8) as u8;
        self.e = (value & 0xFF) as u8;
    }

    pub fn get_hl(&self) -> (r: u16)
        ensures
            r == pair_value(self.h, self.l),
    {
        proof {
            let h = self.h;
            let l = self.l;
            assert((h as u16) << 8 | l as u16 == (h * 256 + l) as u16) by (bit_vector);
        }
        (self.h as u16) << 8 | self.l as u16
    }

    pub fn set_hl(&mut self, value: u16)
        ensures
            final(self).h == high_byte(value),
            final(self).l == low_byte(value),
            *final(self) == (Registers { h: high_byte(value), l: low_byte(value), ..*old(self) }),
    {
        proof {
            assert(((value & 0xFF00) >> 8) as u8 == (value / 256) as u8) by (bit_vector);
            assert((value & 0xFF) as u8 == (value % 256) as u8) by (bit_vector);
        }
        self.h = ((value & 0xFF00) >> 8) as u8;
        self.l = (value & 0xFF) as u8;
    }

    pub fn get_register(&self, reg: Register) -> (r: u8)
        ensures
            r == self.spec_get(reg),
    {
        match reg {
            Register::A => self.a,
            Register::B => self.b,
            Register::C => self.c,
            Register::D => self.d,
            Register::E => self.e,
            Register::F => self.f,
            Register::H => self.h,
            Register::L => self.l,
        }
    }

    pub fn set_register(&mut self, reg: Register, value: u8)
        ensures
            *final(self) == old(self).spec_set(reg, value),
            final(self).spec_get(reg) == value,
    {
        match reg {
            Register::A => self.a = value,
            Register::B => self.b = value,
            Register::C => self.c = value,
            Register::D => self.d = value,
            Register::E => self.e = value,
            Register::H => self.h = value,
            Register::F => self.f = value,
            Register::L => self.l = value,
        }
    }
}

impl Default for Registers {
    fn default() -> (r: Registers)
        ensures
            r == (Registers { a: 0, b: 0, c: 0, d: 0, e: 0, f: 0, h: 0, l: 0 }),
    {
        Registers::new()
    }
}

} // verus!
