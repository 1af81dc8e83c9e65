//! The memory bus: a flat byte store covering addresses `0 .. 0xFFFF`.
//!
//! Writes are bounds-checked against the address space and silently dropped
//! past its top; reads past the top return zero, so every access is total
//! over the full 16-bit address range.

use vstd::prelude::*;

verus! {

/// The number of addressable bytes; `MEM_TOP` is the first address past the
/// store.
pub const MEM_TOP: u16 = 0xFFFF;

/// A flat, exclusively owned byte store.
#[derive(Debug)]
pub struct MemoryBus {
    memory: Vec<u8>,
}

impl Clone for MemoryBus {
    /// A clone holds the same bytes.
    fn clone(&self) -> (r: Self)
        ensures
            r@ == self@,
    {
        proof {
            use_type_invariant(self);
        }
        let memory = self.memory.clone();
        proof {
            assert(memory@ =~= self.memory@);
        }
        MemoryBus { memory }
    }
}

impl View for MemoryBus {
    type V = Seq<u8>;

    closed spec fn view(&self) -> Seq<u8> {
        self.memory@
    }
}

impl MemoryBus {
    #[verifier::type_invariant]
    spec fn type_inv(self) -> bool {
        self.memory@.len() == MEM_TOP
    }

    /// The byte a read of `address` returns: the stored byte inside the
    /// address space, zero past its top.
    pub open spec fn spec_read(&self, address: u16) -> u8 {
        if address < MEM_TOP {
            self@[address as int]
        } else {
            0
        }
    }

    /// A fresh bus with every byte zero.
    pub fn new() -> (r: MemoryBus)
        ensures
            r@ == Seq::new(MEM_TOP as nat, |i: int| 0u8),
            r@.len() == MEM_TOP,
    {
        let memory: Vec<u8> = vec![0u8; MEM_TOP as usize];
        proof {
            assert(memory@ =~= Seq::new(MEM_TOP as nat, |i: int| 0u8));
        }
        MemoryBus { memory }
    }

    /// Reads one byte; an address past the top of the space reads zero.
    pub fn read_byte(&self, address: u16) -> (r: u8)
        ensures
            r == self.spec_read(address),
    {
        proof {
            use_type_invariant(self);
        }
        if address < MEM_TOP {
            self.memory[address as usize]
        } else {
            0
        }
    }

    /// Writes one byte; an address past the top of the space is silently
    /// dropped.
    pub fn write_byte(&mut self, address: u16, value: u8)
        ensures
            final(self)@.len() == old(self)@.len(),
            address < MEM_TOP ==> final(self)@ == old(self)@.update(address as int, value),
            address >= MEM_TOP ==> final(self)@ == old(self)@,
    {
        proof {
            use_type_invariant(&*self);
        }
        if address < MEM_TOP {
            self.memory[address as usize] = value;
        }
    }

    /// The 16-bit little-endian word a read of `address` returns.
    pub open spec fn spec_read_word(&self, address: u16) -> u16 {
        (self.spec_read(address) + self.spec_read(wrap_inc(address)) * 256) as u16
    }

    /// Reads a 16-bit word, little-endian; the second byte comes from the
    /// next address, wrapping at the end of the address range.
    pub fn read_word(&self, address: u16) -> (r: u16)
        ensures
            r == self.spec_read_word(address),
    {
        let next: u16 = if address == 0xFFFF {
            0
        } else {
            address + 1
        };
        let low = self.read_byte(address) as u16;
        let high = self.read_byte(next) as u16;
        proof {
            let l = low;
            let h = high;
            assert(l < 256 && h < 256 ==> (h << 8 | l) == (l + h * 256) as u16) by (bit_vector);
        }
        high << 8 | low
    }

    /// Writes a 16-bit word, little-endian; the second byte goes to the next
    /// address, wrapping at the end of the address range.
    pub fn write_word(&mut self, address: u16, value: u16)
        ensures
            address < MEM_TOP ==> final(self).spec_read(address) == low_byte_of(value),
            wrap_inc(address) < MEM_TOP ==> final(self).spec_read(wrap_inc(address))
                == high_byte_of(value),
            final(self)@.len() == old(self)@.len(),
            forall|a: u16|
                a != address && a != wrap_inc(address) ==> final(self).spec_read(a) == old(
                    self,
                ).spec_read(a),
    {
        proof {
            use_type_invariant(&*self);
            let v = value;
            assert((v & 0xFF) == (v % 256) && (v & 0xFF) < 256) by (bit_vector);
            assert(((v >> 8) & 0xFF) == (v / 256) && ((v >> 8) & 0xFF) < 256) by (bit_vector);
        }
        let next: u16 = if address == 0xFFFF {
            0
        } else {
            address + 1
        };
        self.write_byte(address, (value & 0xFF) as u8);
        self.write_byte(next, ((value >> 8) & 0xFF) as u8);
    }

    /// Copies a program into memory starting at `start_address`; bytes that
    /// would land past the top of the address space are silently dropped.
    pub fn load_program(&mut self, start_address: u16, program: &[u8])
        requires
            start_address + program@.len() <= 0x10000,
        ensures
            final(self)@.len() == old(self)@.len(),
            forall|i: int|
                0 <= i < program@.len() && start_address + i < MEM_TOP ==> final(self)@[
                start_address + i] == program@[i],
            forall|a: int|
                0 <= a < MEM_TOP && !(start_address <= a < start_address + program@.len())
                    ==> final(self)@[a] == old(self)@[a],
    {
        proof {
            use_type_invariant(&*self);
        }
        let mut i: usize = 0;
        while i < program.len()
            invariant
                i <= program@.len(),
                start_address + program@.len() <= 0x10000,
                self@.len() == old(self)@.len(),
                self.type_inv(),
                forall|j: int|
                    0 <= j < i && start_address + j < MEM_TOP ==> self@[start_address + j]
                        == program@[j],
                forall|a: int|
                    0 <= a < MEM_TOP && !(start_address <= a < start_address + program@.len())
                        ==> self@[a] == old(self)@[a],
            decreases program@.len() - i,
        {
            let address = start_address + i as u16;
            if address < MEM_TOP {
                self.memory[address as usize] = program[i];
            }
            i = i + 1;
        }
    }

    /// The whole store, read-only.
    pub fn memory(&self) -> (r: &[u8])
        ensures
            r@ == self@,
            r@.len() == MEM_TOP,
    {
        proof {
            use_type_invariant(self);
        }
        self.memory.as_slice()
    }
}

/// The address one past `address`, wrapping at the end of the 16-bit range.
pub open spec fn wrap_inc(address: u16) -> u16 {
    if address == 0xFFFF {
        0
    } else {
        (address + 1) as u16
    }
}

/// The low byte of a 16-bit value.
pub open spec fn low_byte_of(value: u16) -> u8 {
    (value % 256) as u8
}

/// The high byte of a 16-bit value.
pub open spec fn high_byte_of(value: u16) -> u8 {
    (value / 256) as u8
}

impl Default for MemoryBus {
    fn default() -> (r: MemoryBus)
        ensures
            r@ == Seq::new(MEM_TOP as nat, |i: int| 0u8),
    {
        MemoryBus::new()
    }
}

} // verus!
