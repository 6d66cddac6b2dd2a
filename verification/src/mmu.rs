//! Memory abstraction: one contiguous buffer covering the full 16-bit address
//! space, read and written through byte and big-endian word operations.
//!
//! A word operation touches the byte at `addr` and the byte at the following
//! address; at the very top of the address space the following address wraps
//! to zero. That wrapping policy is stated explicitly in the contracts below.

use vstd::prelude::*;

use crate::bits::{high_byte, lo8, low_byte, hi8, wadd, wrap16};

verus! {

/// Number of addressable bytes: the full 16-bit address space.
pub const MEM_SIZE: usize = 0x10000;

/// Flat, linearly addressable byte store. There are no banks, no protected
/// regions and no redirection: every address maps to one byte of the buffer.
pub struct MMU {
    memory: Vec<u8>,
}

impl View for MMU {
    type V = Seq<u8>;

    closed spec fn view(&self) -> Seq<u8> {
        self.memory@
    }
}

/// The big-endian word formed by the byte at `addr` (high half) and the byte
/// at the following address (low half), the latter wrapping to zero at the
/// top of the address space.
pub open spec fn word_at(mem: Seq<u8>, addr: u16) -> u16 {
    (mem[addr as int] * 0x100 + mem[wrap16(addr + 1) as int]) as u16
}

/// Memory after a big-endian word store of `w` at `addr`: the high byte lands
/// at `addr`, the low byte at the following address (wrapping to zero at the
/// top of the address space).
pub open spec fn word_store(mem: Seq<u8>, addr: u16, w: u16) -> Seq<u8> {
    mem.update(addr as int, high_byte(w)).update(wrap16(addr + 1) as int, low_byte(w))
}

impl MMU {
    /// Every memory image holds exactly one byte per 16-bit address.
    pub open spec fn wf(&self) -> bool {
        self@.len() == MEM_SIZE
    }

    /// Read the byte at `addr`.
    pub fn rb(&self, addr: u16) -> (b: u8)
        requires
            self.wf(),
        ensures
            b == self@[addr as int],
    {
        self.memory[addr as usize]
    }

    /// Write one byte at `addr`; no other address changes.
    pub fn wb(&mut self, addr: u16, value: u8)
        requires
            old(self).wf(),
        ensures
            final(self).wf(),
            final(self)@ == old(self)@.update(addr as int, value),
    {
        self.memory[addr as usize] = value;
    }

    /// Read a 16-bit word at `addr`: big-endian composition of the byte at
    /// `addr` and the byte at the following (wrapping) address.
    pub fn rw(&self, addr: u16) -> (w: u16)
        requires
            self.wf(),
        ensures
            w == word_at(self@, addr),
    {
        let hi = self.rb(addr);
        let lo = self.rb(wadd(addr, 1));
        (hi as u16) * 0x100 + (lo as u16)
    }

    /// Write a 16-bit word at `addr`: the high byte at `addr`, the low byte at
    /// the following (wrapping) address.
    pub fn ww(&mut self, addr: u16, value: u16)
        requires
            old(self).wf(),
        ensures
            final(self).wf(),
            final(self)@ == word_store(old(self)@, addr, value),
    {
        self.wb(addr, hi8(value));
        self.wb(wadd(addr, 1), lo8(value));
    }
}

impl Default for MMU {
    /// A fresh memory image: every byte zero.
    fn default() -> (mmu: Self)
        ensures
            mmu.wf(),
            mmu@ == Seq::new(MEM_SIZE as nat, |i: int| 0u8),
    {
        let mut memory: Vec<u8> = Vec::new();
        while memory.len() < MEM_SIZE
            invariant
                memory@.len() <= MEM_SIZE,
                forall|i: int| 0 <= i < memory@.len() ==> memory@[i] == 0u8,
            decreases MEM_SIZE - memory@.len(),
        {
            memory.push(0u8);
        }
        proof {
            assert(memory@ =~= Seq::new(MEM_SIZE as nat, |i: int| 0u8));
        }
        MMU { memory }
    }
}

} // verus!
