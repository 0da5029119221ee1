//! The machine's flat, byte-addressable memory.

use vstd::prelude::*;

verus! {

/// Number of addressable bytes.
pub const MEMORY_SIZE: usize = 4096;

/// 4096 bytes, addressed from zero. Its view is the sequence of those bytes.
pub struct Memory {
    mem: [u8; 4096],
}

impl View for Memory {
    type V = Seq<u8>;

    closed spec fn view(&self) -> Seq<u8> {
        self.mem@
    }
}

/// The big-endian 16-bit word made of the two bytes at `index` and `index + 1`.
pub open spec fn word_at(bytes: Seq<u8>, index: int) -> int {
    bytes[index] as int * 256 + bytes[index + 1] as int
}

impl Memory {
    /// Every memory holds exactly `MEMORY_SIZE` bytes.
    pub proof fn size(&self)
        ensures
            self@.len() == MEMORY_SIZE,
    {
    }

    /// A memory of zeroes.
    pub fn new() -> (m: Self)
        ensures
            m@ == Seq::new(MEMORY_SIZE as nat, |i: int| 0u8),
    {
        let m = Self { mem: [0u8; 4096] };
        assert(m@ =~= Seq::new(MEMORY_SIZE as nat, |i: int| 0u8));
        m
    }

    /// Stores `value` at `index`; every other byte keeps its value.
    pub fn set(&mut self, index: usize, value: u8)
        requires
            index < MEMORY_SIZE,
        ensures
            final(self)@ == old(self)@.update(index as int, value),
    {
        self.mem[index] = value;
    }

    /// Reads the big-endian word at `index`.
    pub fn read16(&self, index: usize) -> (number: u16)
        requires
            index + 1 < MEMORY_SIZE,
        ensures
            number == word_at(self@, index as int),
    {
        let hi: u8 = self.mem[index];
        let lo: u8 = self.mem[index + 1];
        assert(((hi as u16) << 8) | (lo as u16) == (hi as u16) * 256 + (lo as u16))
            by (bit_vector);
        ((hi as u16) << 8) | lo as u16
    }

    /// Reads the byte at `index`.
    pub fn read8(&self, index: usize) -> (number: u8)
        requires
            index < MEMORY_SIZE,
        ensures
            number == self@[index as int],
    {
        self.mem[index]
    }
}

} // verus!
