//! 16-bit load and stack instructions: register-pair immediate load,
//! stack-pointer assignment from HL, push and pop, absolute store of the
//! stack pointer, and the stack-pointer-plus-signed-displacement load
//! into HL.
//!
//! Push pre-decrements the stack pointer by 2 and stores the pair's high
//! byte at the higher of the two addresses, the low byte at the lower one;
//! pop is its exact structural inverse and post-increments by 2. Both
//! counters wrap modulo 65536.

use vstd::prelude::*;

use crate::bits::{hi8, high_byte, lo8, low_byte, wadd, wrap16};
use crate::cpu::{CpuState, CPU};
use crate::mmu::{word_at, word_store};

verus! {

impl CpuState {
    /// Load a register pair (or, for index 3, the stack pointer) with the
    /// big-endian immediate word that follows the opcode.
    pub open spec fn ld_dd_nn(self, dd: u8) -> CpuState {
        let hi = self.byte_at(self.pc);
        let lo = self.byte_at(wrap16(self.pc + 1));
        let loaded = if dd == 0 {
            CpuState { b: hi, c: lo, ..self }
        } else if dd == 1 {
            CpuState { d: hi, e: lo, ..self }
        } else if dd == 2 {
            CpuState { h: hi, l: lo, ..self }
        } else {
            CpuState { sp: word_at(self.mem, self.pc), ..self }
        };
        loaded.with_pc(wrap16(self.pc + 2))
    }

    /// Copy the HL pair into the stack pointer.
    pub open spec fn ld_sp_hl(self) -> CpuState {
        self.with_sp(self.hl())
    }

    /// The 16-bit destination selected by a 2-bit index in the register-pair
    /// immediate load: B:C, D:E, H:L, or the stack pointer.
    pub open spec fn dd_value(self, dd: u8) -> u16 {
        if dd == 0 {
            (self.b * 0x100 + self.c) as u16
        } else if dd == 1 {
            (self.d * 0x100 + self.e) as u16
        } else if dd == 2 {
            (self.h * 0x100 + self.l) as u16
        } else {
            self.sp
        }
    }

    /// Push a register pair: decrement the stack pointer by 2, then store the
    /// pair's low byte at the new stack pointer and its high byte at the
    /// following address.
    pub open spec fn push_qq(self, qq: u8) -> CpuState {
        let sp2 = wrap16(self.sp + 0xFFFE);
        let v = self.pair(qq);
        CpuState {
            sp: sp2,
            mem: self.mem.update(sp2 as int, low_byte(v)).update(
                wrap16(sp2 + 1) as int,
                high_byte(v),
            ),
            ..self
        }
    }

    /// Pop a register pair: load the low byte from the stack pointer and the
    /// high byte from the following address, then increment the stack
    /// pointer by 2.
    pub open spec fn pop_qq(self, qq: u8) -> CpuState {
        let lo = self.byte_at(self.sp);
        let hi = self.byte_at(wrap16(self.sp + 1));
        let loaded = if qq == 0 {
            CpuState { b: hi, c: lo, ..self }
        } else if qq == 1 {
            CpuState { d: hi, e: lo, ..self }
        } else if qq == 2 {
            CpuState { h: hi, l: lo, ..self }
        } else {
            CpuState { a: hi, f: lo, ..self }
        };
        loaded.with_sp(wrap16(self.sp + 2))
    }

    /// Load HL with the stack pointer plus a signed 8-bit displacement.
    ///
    /// The displacement byte is interpreted as two's-complement and
    /// sign-extended before the 16-bit addition (adding `0xFF00` to a
    /// negative byte is exactly sign extension modulo 65536). The flag
    /// byte's condition nibble is overwritten: Carry and Half-Carry come
    /// from the addition of the displacement byte to the stack pointer's
    /// low byte, Zero and Subtract are cleared; the low nibble is kept.
    pub open spec fn ldhl_sp_e(self) -> CpuState {
        let e = self.byte_at(self.pc);
        let displacement: int = if e >= 0x80 {
            e + 0xFF00
        } else {
            e as int
        };
        let result = wrap16(self.sp + displacement);
        let flags = ((self.f % 16) + (if (self.sp % 256) + e > 0xFF {
            0x10int
        } else {
            0int
        }) + (if (self.sp % 16) + (e % 16) > 0xF {
            0x20int
        } else {
            0int
        })) as u8;
        self.with_hl(result).with_f(flags).with_pc(wrap16(self.pc + 1))
    }

    /// Store the stack pointer, as a big-endian word, at the absolute
    /// address given by the immediate word.
    pub open spec fn ld_nn_sp(self) -> CpuState {
        let addr = word_at(self.mem, self.pc);
        CpuState { mem: word_store(self.mem, addr, self.sp), ..self }.with_pc(wrap16(self.pc + 2))
    }
}

impl CPU {
    /// LD dd, nn: load a register pair (index 3: the stack pointer) with the
    /// immediate word.
    pub fn ld_dd_nn(&mut self, dd: u8)
        requires
            old(self).wf(),
            dd < 4,
        ensures
            final(self).wf(),
            final(self)@ == old(self)@.ld_dd_nn(dd),
    {
        let hi = self.mmu.rb(self.program_counter);
        let lo = self.mmu.rb(wadd(self.program_counter, 1));
        if dd == 0 {
            self.b = hi;
            self.c = lo;
        } else if dd == 1 {
            self.d = hi;
            self.e = lo;
        } else if dd == 2 {
            self.h = hi;
            self.l = lo;
        } else {
            self.stack_pointer = (hi as u16) * 0x100 + (lo as u16);
        }
        self.program_counter = wadd(self.program_counter, 2);
    }

    /// LD SP, HL: copy the HL pair into the stack pointer.
    pub fn ld_sp_hl(&mut self)
        requires
            old(self).wf(),
        ensures
            final(self).wf(),
            final(self)@ == old(self)@.ld_sp_hl(),
    {
        self.stack_pointer = self.hl();
    }

    /// PUSH qq: pre-decrement the stack pointer by 2, then store the pair's
    /// high byte at the higher address and its low byte at the lower one.
    pub fn push_qq(&mut self, qq: u8)
        requires
            old(self).wf(),
            qq < 4,
        ensures
            final(self).wf(),
            final(self)@ == old(self)@.push_qq(qq),
    {
        let sp = wadd(self.stack_pointer, 0xFFFE);
        self.stack_pointer = sp;
        let hi: u8;
        let lo: u8;
        if qq == 0 {
            hi = self.b;
            lo = self.c;
        } else if qq == 1 {
            hi = self.d;
            lo = self.e;
        } else if qq == 2 {
            hi = self.h;
            lo = self.l;
        } else {
            hi = self.a;
            lo = self.f;
        }
        self.mmu.wb(sp, lo);
        self.mmu.wb(wadd(sp, 1), hi);
    }

    /// POP qq: load the pair's low byte from the stack pointer and its high
    /// byte from the following address, then post-increment by 2.
    pub fn pop_qq(&mut self, qq: u8)
        requires
            old(self).wf(),
            qq < 4,
        ensures
            final(self).wf(),
            final(self)@ == old(self)@.pop_qq(qq),
    {
        let lo = self.mmu.rb(self.stack_pointer);
        let hi = self.mmu.rb(wadd(self.stack_pointer, 1));
        if qq == 0 {
            self.b = hi;
            self.c = lo;
        } else if qq == 1 {
            self.d = hi;
            self.e = lo;
        } else if qq == 2 {
            self.h = hi;
            self.l = lo;
        } else {
            self.a = hi;
            self.f = lo;
        }
        self.stack_pointer = wadd(self.stack_pointer, 2);
    }

    /// LDHL SP, e: load HL with the stack pointer plus the signed immediate
    /// displacement; Carry and Half-Carry come from the low-byte addition.
    pub fn ldhl_sp_e(&mut self)
        requires
            old(self).wf(),
        ensures
            final(self).wf(),
            final(self)@ == old(self)@.ldhl_sp_e(),
    {
        let e = self.mmu.rb(self.program_counter);
        let displacement: u16 = if e >= 0x80 {
            (e as u16) + 0xFF00
        } else {
            e as u16
        };
        let result = wadd(self.stack_pointer, displacement);
        let mut flags: u8 = self.f % 0x10;
        if (self.stack_pointer % 0x100) + (e as u16) > 0xFF {
            flags = flags + 0x10;
        }
        if (self.stack_pointer % 0x10) + ((e % 0x10) as u16) > 0xF {
            flags = flags + 0x20;
        }
        self.set_hl(result);
        self.f = flags;
        self.program_counter = wadd(self.program_counter, 1);
    }

    /// LD (nn), SP: store the stack pointer at the absolute immediate
    /// address, high byte first.
    pub fn ld_nn_sp(&mut self)
        requires
            old(self).wf(),
        ensures
            final(self).wf(),
            final(self)@ == old(self)@.ld_nn_sp(),
    {
        let addr = self.mmu.rw(self.program_counter);
        let sp = self.stack_pointer;
        self.mmu.ww(addr, sp);
        self.program_counter = wadd(self.program_counter, 2);
    }
}

} // verus!
