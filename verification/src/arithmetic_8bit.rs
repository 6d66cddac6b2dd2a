//! 8-bit arithmetic: the ADD family, with the accumulator as destination and
//! a register, an immediate byte, or the byte addressed by HL as operand.
//!
//! Flag contract for an addition of `a` and `b`: Carry iff the unsigned sum
//! exceeds 255, Half-Carry iff the low nibbles alone overflow, Zero iff the
//! truncated result is zero, Subtract left clear, and the four low bits of
//! the flag byte forced to zero — the flag byte is fully overwritten, never
//! merged with prior flag state.

use vstd::prelude::*;

use crate::bits::{wadd, wrap16};
use crate::cpu::{CpuState, CPU};

verus! {

/// The flag byte produced by an 8-bit addition of `a` and `b`: Carry at bit
/// 4, Half-Carry at bit 5, Zero at bit 7, every other bit zero.
pub open spec fn add_flags(a: u8, b: u8) -> u8 {
    ((if a + b > 255 {
        0x10int
    } else {
        0int
    }) + (if (a % 16) + (b % 16) > 0xF {
        0x20int
    } else {
        0int
    }) + (if (a + b) % 256 == 0 {
        0x80int
    } else {
        0int
    })) as u8
}

impl CpuState {
    /// Add `operand` to the accumulator: the result modulo 256 lands in the
    /// accumulator and the flag byte is fully overwritten.
    pub open spec fn add_a(self, operand: u8) -> CpuState {
        self.with_a(((self.a + operand) % 256) as u8).with_f(add_flags(self.a, operand))
    }

    /// ADD A, r: add the register selected by `y` to the accumulator.
    pub open spec fn add_a_r(self, y: u8) -> CpuState {
        self.add_a(self.reg(y))
    }

    /// ADD A, n: add the immediate byte to the accumulator.
    pub open spec fn add_a_n(self) -> CpuState {
        self.add_a(self.byte_at(self.pc)).with_pc(wrap16(self.pc + 1))
    }

    /// ADD A, (HL): add the byte addressed by HL to the accumulator.
    pub open spec fn add_a_hl(self) -> CpuState {
        self.add_a(self.byte_at(self.hl()))
    }
}

impl CPU {
    /// Add `operand` to the accumulator and overwrite the flag byte.
    fn add_to_a(&mut self, operand: u8)
        ensures
            final(self)@ == old(self)@.add_a(operand),
    {
        let a = self.a;
        let sum: u16 = (a as u16) + (operand as u16);
        let result: u8 = (sum % 0x100) as u8;
        let carry = sum > 0xFF;
        self.set_add_flags(a, operand, result, carry);
        self.a = result;
    }

    /// ADD A, r: add the register selected by `y` to the accumulator.
    pub fn add_a_r(&mut self, register: u8)
        requires
            old(self).wf(),
            register < 8,
        ensures
            final(self).wf(),
            final(self)@ == old(self)@.add_a_r(register),
    {
        let operand = self.read_r(register);
        self.add_to_a(operand);
    }

    /// ADD A, n: add the immediate byte to the accumulator. Consumes one
    /// immediate byte, so the program counter advances by one.
    pub fn add_a_n(&mut self)
        requires
            old(self).wf(),
        ensures
            final(self).wf(),
            final(self)@ == old(self)@.add_a_n(),
    {
        let operand = self.mmu.rb(self.program_counter);
        self.add_to_a(operand);
        self.program_counter = wadd(self.program_counter, 1);
    }

    /// ADD A, (HL): add the byte addressed by HL to the accumulator. No
    /// immediate byte is consumed, so the program counter does not move.
    pub fn add_a_hl(&mut self)
        requires
            old(self).wf(),
        ensures
            final(self).wf(),
            final(self)@ == old(self)@.add_a_hl(),
    {
        let addr = self.hl();
        let operand = self.mmu.rb(addr);
        self.add_to_a(operand);
    }

    /// Overwrite the flag byte from an addition of `a` and `b` whose
    /// truncated result and carry-out are given.
    fn set_add_flags(&mut self, a: u8, b: u8, result: u8, carry: bool)
        requires
            carry == (a + b > 255),
            result == (a + b) % 256,
        ensures
            final(self)@ == old(self)@.with_f(add_flags(a, b)),
    {
        let mut flags: u8 = 0;
        if carry {
            flags = flags + 0x10;
        }
        if Self::half_carry(a, b, result) {
            flags = flags + 0x20;
        }
        if result == 0 {
            flags = flags + 0x80;
        }
        self.f = flags;
    }
}

} // verus!
