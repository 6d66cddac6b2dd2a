//! 8-bit load instructions: immediate-to-register, register-to-register,
//! (HL)/(BC)/(DE)-indirect reads and writes, HL-indirect with post-increment
//! or post-decrement, high-page accesses through addresses of the form
//! `0xFF00 | offset`, and absolute 16-bit-address load and store.
//!
//! Each handler advances the program counter by exactly the number of
//! immediate bytes it consumes (0, 1 or 2); the opcode byte itself has
//! already been consumed by the fetch step.

use vstd::prelude::*;

use crate::bits::{wadd, wrap16};
use crate::cpu::{CpuState, CPU, REG_A};
use crate::mmu::word_at;

verus! {

impl CpuState {
    /// Store the byte that follows the opcode at the address in HL.
    pub open spec fn ld_hl_n(self) -> CpuState {
        self.store(self.hl(), self.byte_at(self.pc)).with_pc(wrap16(self.pc + 1))
    }

    /// Load the accumulator from the address held by a register pair.
    pub open spec fn ld_a_ptr(self, upper: u8, lower: u8) -> CpuState {
        self.with_reg(REG_A, self.byte_at(self.pair_of(upper, lower)))
    }

    /// Store the accumulator at the address held by a register pair.
    pub open spec fn ld_ptr_a(self, upper: u8, lower: u8) -> CpuState {
        self.store(self.pair_of(upper, lower), self.a)
    }

    /// Load the accumulator from the address in HL, then increment HL.
    pub open spec fn ld_a_hli(self) -> CpuState {
        self.with_reg(REG_A, self.byte_at(self.hl())).with_hl(wrap16(self.hl() + 1))
    }

    /// Load the accumulator from the address in HL, then decrement HL.
    pub open spec fn ld_a_hld(self) -> CpuState {
        self.with_reg(REG_A, self.byte_at(self.hl())).with_hl(wrap16(self.hl() + 0xFFFF))
    }

    /// Store the accumulator at the address in HL, then increment HL.
    pub open spec fn ld_hli_a(self) -> CpuState {
        self.store(self.hl(), self.a).with_hl(wrap16(self.hl() + 1))
    }

    /// Store the accumulator at the address in HL, then decrement HL.
    pub open spec fn ld_hld_a(self) -> CpuState {
        self.store(self.hl(), self.a).with_hl(wrap16(self.hl() + 0xFFFF))
    }

    /// Load the register selected by `x` with the byte after the opcode.
    pub open spec fn ld_r_n(self, x: u8) -> CpuState {
        self.with_reg(x, self.byte_at(self.pc)).with_pc(wrap16(self.pc + 1))
    }

    /// Load the register selected by `x` from the address in HL.
    pub open spec fn ld_r_hl(self, x: u8) -> CpuState {
        self.with_reg(x, self.byte_at(self.hl()))
    }

    /// Store the register selected by `y` at the address in HL.
    pub open spec fn ld_hl_r(self, y: u8) -> CpuState {
        self.store(self.hl(), self.reg(y))
    }

    /// Copy the register selected by `y` into the register selected by `x`.
    pub open spec fn ld_rr(self, x: u8, y: u8) -> CpuState {
        self.with_reg(x, self.reg(y))
    }

    /// Store the accumulator in the high page, at `0xFF00 | C`.
    pub open spec fn ld_c_a(self) -> CpuState {
        self.store((0xFF00 + self.c) as u16, self.a)
    }

    /// Load the accumulator from the high page, at `0xFF00 | n`.
    pub open spec fn ld_a_n(self) -> CpuState {
        self.with_reg(REG_A, self.byte_at((0xFF00 + self.byte_at(self.pc)) as u16)).with_pc(
            wrap16(self.pc + 1),
        )
    }

    /// Store the accumulator in the high page, at `0xFF00 | n`.
    pub open spec fn ld_n_a(self) -> CpuState {
        self.store((0xFF00 + self.byte_at(self.pc)) as u16, self.a).with_pc(wrap16(self.pc + 1))
    }

    /// Load the accumulator from an absolute 16-bit address given as a
    /// big-endian immediate word.
    pub open spec fn ld_a_nn(self) -> CpuState {
        self.with_reg(REG_A, self.byte_at(word_at(self.mem, self.pc))).with_pc(wrap16(self.pc + 2))
    }

    /// Store the accumulator at an absolute 16-bit address given as a
    /// big-endian immediate word.
    pub open spec fn ld_nn_a(self) -> CpuState {
        self.store(word_at(self.mem, self.pc), self.a).with_pc(wrap16(self.pc + 2))
    }
}

impl CPU {
    /// LD (HL), n: store the immediate byte at the address in HL.
    pub fn ld_hl_n(&mut self)
        requires
            old(self).wf(),
        ensures
            final(self).wf(),
            final(self)@ == old(self)@.ld_hl_n(),
    {
        let addr = self.hl();
        let n = self.mmu.rb(self.program_counter);
        self.mmu.wb(addr, n);
        self.program_counter = wadd(self.program_counter, 1);
    }

    /// LD A, (rr): load the accumulator through a register-pair pointer.
    pub fn ld_a_ptr(&mut self, upper: u8, lower: u8)
        requires
            old(self).wf(),
            upper < 8,
            lower < 8,
        ensures
            final(self).wf(),
            final(self)@ == old(self)@.ld_a_ptr(upper, lower),
    {
        let addr = (self.read_r(upper) as u16) * 0x100 + (self.read_r(lower) as u16);
        self.a = self.mmu.rb(addr);
    }

    /// LD (rr), A: store the accumulator through a register-pair pointer.
    pub fn ld_ptr_a(&mut self, upper: u8, lower: u8)
        requires
            old(self).wf(),
            upper < 8,
            lower < 8,
        ensures
            final(self).wf(),
            final(self)@ == old(self)@.ld_ptr_a(upper, lower),
    {
        let addr = (self.read_r(upper) as u16) * 0x100 + (self.read_r(lower) as u16);
        let a = self.a;
        self.mmu.wb(addr, a);
    }

    /// LD A, (HL+): load the accumulator from (HL), then increment HL.
    pub fn ld_a_hli(&mut self)
        requires
            old(self).wf(),
        ensures
            final(self).wf(),
            final(self)@ == old(self)@.ld_a_hli(),
    {
        let addr = self.hl();
        self.a = self.mmu.rb(addr);
        self.set_hl(wadd(addr, 1));
    }

    /// LD A, (HL-): load the accumulator from (HL), then decrement HL.
    pub fn ld_a_hld(&mut self)
        requires
            old(self).wf(),
        ensures
            final(self).wf(),
            final(self)@ == old(self)@.ld_a_hld(),
    {
        let addr = self.hl();
        self.a = self.mmu.rb(addr);
        self.set_hl(wadd(addr, 0xFFFF));
    }

    /// LD (HL+), A: store the accumulator at (HL), then increment HL.
    pub fn ld_hli_a(&mut self)
        requires
            old(self).wf(),
        ensures
            final(self).wf(),
            final(self)@ == old(self)@.ld_hli_a(),
    {
        let addr = self.hl();
        let a = self.a;
        self.mmu.wb(addr, a);
        self.set_hl(wadd(addr, 1));
    }

    /// LD (HL-), A: store the accumulator at (HL), then decrement HL.
    pub fn ld_hld_a(&mut self)
        requires
            old(self).wf(),
        ensures
            final(self).wf(),
            final(self)@ == old(self)@.ld_hld_a(),
    {
        let addr = self.hl();
        let a = self.a;
        self.mmu.wb(addr, a);
        self.set_hl(wadd(addr, 0xFFFF));
    }

    /// LD r, n: load a register with the immediate byte.
    pub fn ld_r_n(&mut self, x: u8)
        requires
            old(self).wf(),
            x < 8,
        ensures
            final(self).wf(),
            final(self)@ == old(self)@.ld_r_n(x),
    {
        let n = self.mmu.rb(self.program_counter);
        self.write_r(x, n);
        self.program_counter = wadd(self.program_counter, 1);
    }

    /// LD r, (HL): load a register from the address in HL.
    pub fn ld_r_hl(&mut self, x: u8)
        requires
            old(self).wf(),
            x < 8,
        ensures
            final(self).wf(),
            final(self)@ == old(self)@.ld_r_hl(x),
    {
        let addr = self.hl();
        let v = self.mmu.rb(addr);
        self.write_r(x, v);
    }

    /// LD (HL), r: store a register at the address in HL.
    pub fn ld_hl_r(&mut self, y: u8)
        requires
            old(self).wf(),
            y < 8,
        ensures
            final(self).wf(),
            final(self)@ == old(self)@.ld_hl_r(y),
    {
        let addr = self.hl();
        let v = self.read_r(y);
        self.mmu.wb(addr, v);
    }

    /// LD r, r': copy one register into another.
    pub fn ld_rr(&mut self, x: u8, y: u8)
        requires
            old(self).wf(),
            x < 8,
            y < 8,
        ensures
            final(self).wf(),
            final(self)@ == old(self)@.ld_rr(x, y),
    {
        let v = self.read_r(y);
        self.write_r(x, v);
    }

    /// LD (C), A: store the accumulator in the high page at `0xFF00 | C`.
    pub fn ld_c_a(&mut self)
        requires
            old(self).wf(),
        ensures
            final(self).wf(),
            final(self)@ == old(self)@.ld_c_a(),
    {
        let addr: u16 = 0xFF00 + (self.c as u16);
        let a = self.a;
        self.mmu.wb(addr, a);
    }

    /// LD A, (n): load the accumulator from the high page at `0xFF00 | n`.
    pub fn ld_a_n(&mut self)
        requires
            old(self).wf(),
        ensures
            final(self).wf(),
            final(self)@ == old(self)@.ld_a_n(),
    {
        let offset = self.mmu.rb(self.program_counter);
        let addr: u16 = 0xFF00 + (offset as u16);
        self.a = self.mmu.rb(addr);
        self.program_counter = wadd(self.program_counter, 1);
    }

    /// LD (n), A: store the accumulator in the high page at `0xFF00 | n`.
    pub fn ld_n_a(&mut self)
        requires
            old(self).wf(),
        ensures
            final(self).wf(),
            final(self)@ == old(self)@.ld_n_a(),
    {
        let offset = self.mmu.rb(self.program_counter);
        let addr: u16 = 0xFF00 + (offset as u16);
        let a = self.a;
        self.mmu.wb(addr, a);
        self.program_counter = wadd(self.program_counter, 1);
    }

    /// LD A, (nn): load the accumulator from an absolute address.
    pub fn ld_a_nn(&mut self)
        requires
            old(self).wf(),
        ensures
            final(self).wf(),
            final(self)@ == old(self)@.ld_a_nn(),
    {
        let addr = self.mmu.rw(self.program_counter);
        self.a = self.mmu.rb(addr);
        self.program_counter = wadd(self.program_counter, 2);
    }

    /// LD (nn), A: store the accumulator at an absolute address.
    pub fn ld_nn_a(&mut self)
        requires
            old(self).wf(),
        ensures
            final(self).wf(),
            final(self)@ == old(self)@.ld_nn_a(),
    {
        let addr = self.mmu.rw(self.program_counter);
        let a = self.a;
        self.mmu.wb(addr, a);
        self.program_counter = wadd(self.program_counter, 2);
    }
}

} // verus!
