//! The CPU core: register file, flag byte, program counter, stack pointer and
//! memory, together with the opcode decoder and the execution engine.
//!
//! Registers are addressed by a canonical 3-bit code:
//!
//! | Register | code |
//! |----------|------|
//! | A        | 111  |
//! | B        | 000  |
//! | C        | 001  |
//! | D        | 010  |
//! | E        | 011  |
//! | F        | 110  |
//! | H        | 100  |
//! | L        | 101  |
//!
//! Code `110` denotes the flag register F only in direct register-to-register
//! contexts; in 8-bit load addressing contexts the same bit pattern instead
//! selects "the byte addressed by HL", and the decoder — not the register
//! file — disambiguates the two.

use vstd::prelude::*;

use crate::bits::{high_byte, hi8, lo8, low_byte, wadd, wrap16};
use crate::mmu::{MEM_SIZE, MMU};

verus! {

/// 3-bit code of register B.
pub const REG_B: u8 = 0b000;
/// 3-bit code of register C.
pub const REG_C: u8 = 0b001;
/// 3-bit code of register D.
pub const REG_D: u8 = 0b010;
/// 3-bit code of register E.
pub const REG_E: u8 = 0b011;
/// 3-bit code of register H.
pub const REG_H: u8 = 0b100;
/// 3-bit code of register L.
pub const REG_L: u8 = 0b101;
/// 3-bit code of the flag register F.
pub const REG_F: u8 = 0b110;
/// 3-bit code of the accumulator A.
pub const REG_A: u8 = 0b111;

/// Mathematical model of the whole machine state: the eight register bytes,
/// the two 16-bit counters, and the memory image as a sequence of bytes.
#[verifier::ext_equal]
pub ghost struct CpuState {
    pub a: u8,
    pub b: u8,
    pub c: u8,
    pub d: u8,
    pub e: u8,
    pub f: u8,
    pub h: u8,
    pub l: u8,
    pub pc: u16,
    pub sp: u16,
    pub mem: Seq<u8>,
}

impl CpuState {
    /// The memory image covers the full 16-bit address space.
    pub open spec fn wf(self) -> bool {
        self.mem.len() == MEM_SIZE
    }

    /// The state in which a CPU is constructed: every register, counter and
    /// memory byte zero.
    pub open spec fn initial() -> CpuState {
        CpuState {
            a: 0,
            b: 0,
            c: 0,
            d: 0,
            e: 0,
            f: 0,
            h: 0,
            l: 0,
            pc: 0,
            sp: 0,
            mem: Seq::new(MEM_SIZE as nat, |i: int| 0u8),
        }
    }

    /// The register selected by a 3-bit code.
    pub open spec fn reg(self, code: u8) -> u8 {
        if code == REG_B {
            self.b
        } else if code == REG_C {
            self.c
        } else if code == REG_D {
            self.d
        } else if code == REG_E {
            self.e
        } else if code == REG_H {
            self.h
        } else if code == REG_L {
            self.l
        } else if code == REG_F {
            self.f
        } else {
            self.a
        }
    }

    /// The state with the register selected by `code` set to `v`.
    pub open spec fn with_reg(self, code: u8, v: u8) -> CpuState {
        if code == REG_B {
            CpuState { b: v, ..self }
        } else if code == REG_C {
            CpuState { c: v, ..self }
        } else if code == REG_D {
            CpuState { d: v, ..self }
        } else if code == REG_E {
            CpuState { e: v, ..self }
        } else if code == REG_H {
            CpuState { h: v, ..self }
        } else if code == REG_L {
            CpuState { l: v, ..self }
        } else if code == REG_F {
            CpuState { f: v, ..self }
        } else {
            CpuState { a: v, ..self }
        }
    }

    /// The 16-bit pair formed by two registers, the first as high byte.
    pub open spec fn pair_of(self, upper: u8, lower: u8) -> u16 {
        (self.reg(upper) * 0x100 + self.reg(lower)) as u16
    }

    /// The HL register pair as a 16-bit value, H as high byte.
    pub open spec fn hl(self) -> u16 {
        (self.h * 0x100 + self.l) as u16
    }

    /// The state with the HL pair set to `v`.
    pub open spec fn with_hl(self, v: u16) -> CpuState {
        CpuState { h: high_byte(v), l: low_byte(v), ..self }
    }

    /// The 16-bit stack pair selected by a 2-bit index: B:C, D:E, H:L, or A:F
    /// (A as high byte, F as low byte).
    pub open spec fn pair(self, qq: u8) -> u16 {
        if qq == 0 {
            (self.b * 0x100 + self.c) as u16
        } else if qq == 1 {
            (self.d * 0x100 + self.e) as u16
        } else if qq == 2 {
            (self.h * 0x100 + self.l) as u16
        } else {
            (self.a * 0x100 + self.f) as u16
        }
    }

    /// The byte of memory at `addr`.
    pub open spec fn byte_at(self, addr: u16) -> u8 {
        self.mem[addr as int]
    }

    /// The state with one byte of memory replaced.
    pub open spec fn store(self, addr: u16, v: u8) -> CpuState {
        CpuState { mem: self.mem.update(addr as int, v), ..self }
    }

    /// The state with the program counter replaced.
    pub open spec fn with_pc(self, pc: u16) -> CpuState {
        CpuState { pc, ..self }
    }

    /// The state with the stack pointer replaced.
    pub open spec fn with_sp(self, sp: u16) -> CpuState {
        CpuState { sp, ..self }
    }

    /// The state with the accumulator replaced.
    pub open spec fn with_a(self, a: u8) -> CpuState {
        CpuState { a, ..self }
    }

    /// The state with the flag byte replaced.
    pub open spec fn with_f(self, f: u8) -> CpuState {
        CpuState { f, ..self }
    }
}

/// The CPU: eight register bytes, two 16-bit counters and the memory
/// abstraction, exclusively owned and mutated one instruction at a time.
pub struct CPU {
    /// Accumulator.
    pub a: u8,
    /// Register B.
    pub b: u8,
    /// Register C.
    pub c: u8,
    /// Register D.
    pub d: u8,
    /// Register E.
    pub e: u8,
    /// Flag byte: Zero at bit 7, Subtract at bit 6, Half-Carry at bit 5,
    /// Carry at bit 4; the four low bits read zero after any full overwrite.
    pub f: u8,
    /// Register H.
    pub h: u8,
    /// Register L.
    pub l: u8,
    /// Program counter; wraps modulo 65536 on arithmetic.
    pub program_counter: u16,
    /// Stack pointer; wraps modulo 65536 on arithmetic.
    pub stack_pointer: u16,
    /// The memory abstraction, sole data path to the byte store.
    pub mmu: MMU,
}

impl View for CPU {
    type V = CpuState;

    open spec fn view(&self) -> CpuState {
        CpuState {
            a: self.a,
            b: self.b,
            c: self.c,
            d: self.d,
            e: self.e,
            f: self.f,
            h: self.h,
            l: self.l,
            pc: self.program_counter,
            sp: self.stack_pointer,
            mem: self.mmu@,
        }
    }
}

impl Default for CPU {
    /// A fresh CPU: all state zeroed.
    fn default() -> (cpu: Self)
        ensures
            cpu.wf(),
            cpu@ == CpuState::initial(),
    {
        CPU {
            a: 0,
            b: 0,
            c: 0,
            d: 0,
            e: 0,
            f: 0,
            h: 0,
            l: 0,
            program_counter: 0,
            stack_pointer: 0,
            mmu: MMU::default(),
        }
    }
}

impl CPU {
    /// The memory image covers the full 16-bit address space.
    pub open spec fn wf(&self) -> bool {
        self@.wf()
    }

    /// Read the register selected by a 3-bit code.
    pub fn read_r(&self, code: u8) -> (v: u8)
        requires
            code < 8,
        ensures
            v == self@.reg(code),
    {
        if code == REG_B {
            self.b
        } else if code == REG_C {
            self.c
        } else if code == REG_D {
            self.d
        } else if code == REG_E {
            self.e
        } else if code == REG_H {
            self.h
        } else if code == REG_L {
            self.l
        } else if code == REG_F {
            self.f
        } else {
            self.a
        }
    }

    /// Write the register selected by a 3-bit code.
    pub fn write_r(&mut self, code: u8, v: u8)
        requires
            code < 8,
        ensures
            final(self)@ == old(self)@.with_reg(code, v),
    {
        if code == REG_B {
            self.b = v;
        } else if code == REG_C {
            self.c = v;
        } else if code == REG_D {
            self.d = v;
        } else if code == REG_E {
            self.e = v;
        } else if code == REG_H {
            self.h = v;
        } else if code == REG_L {
            self.l = v;
        } else if code == REG_F {
            self.f = v;
        } else {
            self.a = v;
        }
    }

    /// The HL register pair, read as one 16-bit value.
    pub fn hl(&self) -> (v: u16)
        ensures
            v == self@.hl(),
    {
        (self.h as u16) * 0x100 + (self.l as u16)
    }

    /// Write the HL register pair as one 16-bit value.
    pub fn set_hl(&mut self, v: u16)
        ensures
            final(self)@ == old(self)@.with_hl(v),
    {
        self.h = hi8(v);
        self.l = lo8(v);
    }

    /// Carry propagated out of bit 3 during an 8-bit addition, recovered from
    /// the two operands and the truncated result. When `result` really is
    /// the truncated sum, this is exactly "the low nibbles alone overflow".
    pub fn half_carry(a: u8, b: u8, result: u8) -> (hc: bool)
        ensures
            hc == (((a ^ b ^ result) & 0x10) != 0),
            result == (a + b) % 256 ==> hc == ((a % 16) + (b % 16) > 0xF),
    {
        proof {
            assert(result == (a + b) % 256 ==> (((a ^ b ^ result) & 0x10 != 0) == ((a & 0xF) + (b
                & 0xF) > 0xF))) by (bit_vector);
            assert(a & 0xF == a % 16) by (bit_vector);
            assert(b & 0xF == b % 16) by (bit_vector);
        }
        (a ^ b ^ result) & 0x10 != 0
    }

    /// No operation: the state is left untouched.
    pub fn nop(&self) {
    }
}

/// A failure surfaced by the single-step and continuous-run entry points;
/// it is never swallowed silently.
#[derive(Clone, Copy, Debug, PartialEq, Eq, Structural)]
pub enum StepError {
    /// The opcode byte matches no known instruction pattern; carries the
    /// offending byte and the program-counter value.
    Decode { opcode: u8, pc: u16 },
    /// The opcode names a recognized but not-yet-built instruction (halt),
    /// so a caller can report "not yet supported" rather than "malformed".
    Unimplemented { opcode: u8, pc: u16 },
    /// Reserved for a future banked or mapped memory model with gaps or
    /// protected regions; the flat model never raises it.
    Addressing { addr: u16 },
}

/// A recognized instruction, as resolved by the decoder.
#[derive(Clone, Copy, Debug, PartialEq, Eq, Structural)]
pub enum Instr {
    /// No operation.
    Nop,
    /// Recognized but not yet implemented.
    Halt,
    /// LD (HL), n.
    LdHlN,
    /// LD A, (rr) for the BC and DE pairs, given by register codes.
    LdAPtr { upper: u8, lower: u8 },
    /// LD (rr), A for the BC and DE pairs, given by register codes.
    LdPtrA { upper: u8, lower: u8 },
    /// LD A, (HL+).
    LdAHli,
    /// LD A, (HL-).
    LdAHld,
    /// LD (HL+), A.
    LdHliA,
    /// LD (HL-), A.
    LdHldA,
    /// LD (nn), SP.
    LdNnSp,
    /// LD dd, nn with a 2-bit pair index.
    LdDdNn { dd: u8 },
    /// LD r, n.
    LdRN { x: u8 },
    /// LD r, (HL).
    LdRHl { x: u8 },
    /// LD (HL), r.
    LdHlR { y: u8 },
    /// LD r, r'.
    LdRr { x: u8, y: u8 },
    /// ADD A, r.
    AddAR { y: u8 },
    /// ADD A, n.
    AddAN,
    /// ADD A, (HL).
    AddAHl,
    /// LD (C), A.
    LdCA,
    /// LD A, (n).
    LdAN,
    /// LD (n), A.
    LdNA,
    /// LD A, (nn).
    LdANn,
    /// LD (nn), A.
    LdNnA,
    /// LDHL SP, e.
    LdhlSpE,
    /// LD SP, HL.
    LdSpHl,
    /// PUSH qq with a 2-bit pair index.
    PushQq { qq: u8 },
    /// POP qq with a 2-bit pair index.
    PopQq { qq: u8 },
}

/// Split an opcode byte into its three bit-fields — `op` is bits 7–6, `x`
/// bits 5–3, `y` bits 2–0 — and resolve it by structural matching tried in
/// a fixed priority order: every specific pattern stands before the general
/// pattern that would otherwise shadow it. `None` is a decode failure.
pub open spec fn spec_decode(opcode: u8) -> Option<Instr> {
    let op: u8 = (opcode / 64) as u8;
    let x: u8 = ((opcode / 8) % 8) as u8;
    let y: u8 = (opcode % 8) as u8;
    if op == 0 {
        if x == 0 && y == 0 {
            Some(Instr::Nop)
        } else if x == 6 && y == 6 {
            Some(Instr::LdHlN)
        } else if x == 1 && y == 2 {
            Some(Instr::LdAPtr { upper: REG_B, lower: REG_C })
        } else if x == 3 && y == 2 {
            Some(Instr::LdAPtr { upper: REG_D, lower: REG_E })
        } else if x == 0 && y == 2 {
            Some(Instr::LdPtrA { upper: REG_B, lower: REG_C })
        } else if x == 2 && y == 2 {
            Some(Instr::LdPtrA { upper: REG_D, lower: REG_E })
        } else if x == 5 && y == 2 {
            Some(Instr::LdAHli)
        } else if x == 7 && y == 2 {
            Some(Instr::LdAHld)
        } else if x == 4 && y == 2 {
            Some(Instr::LdHliA)
        } else if x == 6 && y == 2 {
            Some(Instr::LdHldA)
        } else if x == 1 && y == 0 {
            Some(Instr::LdNnSp)
        } else if y == 1 && x % 2 == 0 {
            Some(Instr::LdDdNn { dd: (x / 2) as u8 })
        } else if y == 6 {
            Some(Instr::LdRN { x })
        } else {
            None
        }
    } else if op == 1 {
        if x == 6 && y == 6 {
            Some(Instr::Halt)
        } else if y == 6 {
            Some(Instr::LdRHl { x })
        } else if x == 6 {
            Some(Instr::LdHlR { y })
        } else {
            Some(Instr::LdRr { x, y })
        }
    } else if op == 2 {
        if x == 0 && y == 6 {
            Some(Instr::AddAHl)
        } else if x == 0 {
            Some(Instr::AddAR { y })
        } else {
            None
        }
    } else {
        if x == 0 && y == 6 {
            Some(Instr::AddAN)
        } else if x == 4 && y == 2 {
            Some(Instr::LdCA)
        } else if x == 6 && y == 0 {
            Some(Instr::LdAN)
        } else if x == 4 && y == 0 {
            Some(Instr::LdNA)
        } else if x == 7 && y == 2 {
            Some(Instr::LdANn)
        } else if x == 5 && y == 2 {
            Some(Instr::LdNnA)
        } else if x == 7 && y == 0 {
            Some(Instr::LdhlSpE)
        } else if x == 7 && y == 1 {
            Some(Instr::LdSpHl)
        } else if y == 5 && x % 2 == 0 {
            Some(Instr::PushQq { qq: (x / 2) as u8 })
        } else if y == 1 && x % 2 == 0 {
            Some(Instr::PopQq { qq: (x / 2) as u8 })
        } else {
            None
        }
    }
}

/// Decode one opcode byte. Returns exactly what the mathematical decoder
/// resolves, `None` on a decode failure.
pub fn decode(opcode: u8) -> (r: Option<Instr>)
    ensures
        r == spec_decode(opcode),
{
    let op: u8 = opcode / 64;
    let x: u8 = (opcode / 8) % 8;
    let y: u8 = opcode % 8;
    if op == 0 {
        if x == 0 && y == 0 {
            Some(Instr::Nop)
        } else if x == 6 && y == 6 {
            Some(Instr::LdHlN)
        } else if x == 1 && y == 2 {
            Some(Instr::LdAPtr { upper: REG_B, lower: REG_C })
        } else if x == 3 && y == 2 {
            Some(Instr::LdAPtr { upper: REG_D, lower: REG_E })
        } else if x == 0 && y == 2 {
            Some(Instr::LdPtrA { upper: REG_B, lower: REG_C })
        } else if x == 2 && y == 2 {
            Some(Instr::LdPtrA { upper: REG_D, lower: REG_E })
        } else if x == 5 && y == 2 {
            Some(Instr::LdAHli)
        } else if x == 7 && y == 2 {
            Some(Instr::LdAHld)
        } else if x == 4 && y == 2 {
            Some(Instr::LdHliA)
        } else if x == 6 && y == 2 {
            Some(Instr::LdHldA)
        } else if x == 1 && y == 0 {
            Some(Instr::LdNnSp)
        } else if y == 1 && x % 2 == 0 {
            Some(Instr::LdDdNn { dd: x / 2 })
        } else if y == 6 {
            Some(Instr::LdRN { x })
        } else {
            None
        }
    } else if op == 1 {
        if x == 6 && y == 6 {
            Some(Instr::Halt)
        } else if y == 6 {
            Some(Instr::LdRHl { x })
        } else if x == 6 {
            Some(Instr::LdHlR { y })
        } else {
            Some(Instr::LdRr { x, y })
        }
    } else if op == 2 {
        if x == 0 && y == 6 {
            Some(Instr::AddAHl)
        } else if x == 0 {
            Some(Instr::AddAR { y })
        } else {
            None
        }
    } else {
        if x == 0 && y == 6 {
            Some(Instr::AddAN)
        } else if x == 4 && y == 2 {
            Some(Instr::LdCA)
        } else if x == 6 && y == 0 {
            Some(Instr::LdAN)
        } else if x == 4 && y == 0 {
            Some(Instr::LdNA)
        } else if x == 7 && y == 2 {
            Some(Instr::LdANn)
        } else if x == 5 && y == 2 {
            Some(Instr::LdNnA)
        } else if x == 7 && y == 0 {
            Some(Instr::LdhlSpE)
        } else if x == 7 && y == 1 {
            Some(Instr::LdSpHl)
        } else if y == 5 && x % 2 == 0 {
            Some(Instr::PushQq { qq: x / 2 })
        } else if y == 1 && x % 2 == 0 {
            Some(Instr::PopQq { qq: x / 2 })
        } else {
            None
        }
    }
}

impl CpuState {
    /// The successor state of one decoded instruction. Halt is recognized
    /// but not built: it maps to the unchanged state here and is rejected
    /// by `execute` before this function is consulted.
    pub open spec fn apply(self, instr: Instr) -> CpuState {
        match instr {
            Instr::Nop => self,
            Instr::Halt => self,
            Instr::LdHlN => self.ld_hl_n(),
            Instr::LdAPtr { upper, lower } => self.ld_a_ptr(upper, lower),
            Instr::LdPtrA { upper, lower } => self.ld_ptr_a(upper, lower),
            Instr::LdAHli => self.ld_a_hli(),
            Instr::LdAHld => self.ld_a_hld(),
            Instr::LdHliA => self.ld_hli_a(),
            Instr::LdHldA => self.ld_hld_a(),
            Instr::LdNnSp => self.ld_nn_sp(),
            Instr::LdDdNn { dd } => self.ld_dd_nn(dd),
            Instr::LdRN { x } => self.ld_r_n(x),
            Instr::LdRHl { x } => self.ld_r_hl(x),
            Instr::LdHlR { y } => self.ld_hl_r(y),
            Instr::LdRr { x, y } => self.ld_rr(x, y),
            Instr::AddAR { y } => self.add_a_r(y),
            Instr::AddAN => self.add_a_n(),
            Instr::AddAHl => self.add_a_hl(),
            Instr::LdCA => self.ld_c_a(),
            Instr::LdAN => self.ld_a_n(),
            Instr::LdNA => self.ld_n_a(),
            Instr::LdANn => self.ld_a_nn(),
            Instr::LdNnA => self.ld_nn_a(),
            Instr::LdhlSpE => self.ldhl_sp_e(),
            Instr::LdSpHl => self.ld_sp_hl(),
            Instr::PushQq { qq } => self.push_qq(qq),
            Instr::PopQq { qq } => self.pop_qq(qq),
        }
    }
}

/// The machine state and outcome after at most `steps` fetch-decode-execute
/// cycles from `s`: each cycle fetches the byte at the program counter,
/// advances the counter (wrapping), and either dispatches the instruction or
/// stops with the first decode or unimplemented-instruction failure.
pub open spec fn spec_run(s: CpuState, steps: nat) -> (CpuState, Option<StepError>)
    decreases steps,
{
    if steps == 0 {
        (s, None)
    } else {
        let opcode = s.byte_at(s.pc);
        let fetched = s.with_pc(wrap16(s.pc + 1));
        match spec_decode(opcode) {
            Option::None => (fetched, Some(StepError::Decode { opcode, pc: fetched.pc })),
            Option::Some(instr) => if instr == Instr::Halt {
                (fetched, Some(StepError::Unimplemented { opcode, pc: fetched.pc }))
            } else {
                spec_run(fetched.apply(instr), (steps - 1) as nat)
            },
        }
    }
}

impl CPU {
    /// Execute one instruction from an already-fetched opcode byte: the
    /// single-step entry point.
    ///
    /// An opcode matching no pattern yields a `Decode` error and the
    /// recognized-but-unbuilt halt instruction an `Unimplemented` error,
    /// each carrying the byte and the program-counter value; either way the
    /// state is untouched. Every other opcode dispatches to exactly one
    /// handler, which advances the program counter by its own immediate
    /// width.
    pub fn execute(&mut self, opcode: u8) -> (r: Result<(), StepError>)
        requires
            old(self).wf(),
        ensures
            final(self).wf(),
            (match spec_decode(opcode) {
                Option::None => final(self)@ == old(self)@ && r == Err::<(), StepError>(
                    (StepError::Decode { opcode, pc: old(self)@.pc }),
                ),
                Option::Some(instr) => if instr == Instr::Halt {
                    final(self)@ == old(self)@ && r == Err::<(), StepError>(
                        (StepError::Unimplemented { opcode, pc: old(self)@.pc }),
                    )
                } else {
                    final(self)@ == old(self)@.apply(instr) && r == Ok::<(), StepError>(())
                },
            }),
    {
        let pc = self.program_counter;
        match decode(opcode) {
            Option::None => Err(StepError::Decode { opcode, pc }),
            Option::Some(instr) => match instr {
                Instr::Halt => Err(StepError::Unimplemented { opcode, pc }),
                Instr::Nop => {
                    self.nop();
                    Ok(())
                },
                Instr::LdHlN => {
                    self.ld_hl_n();
                    Ok(())
                },
                Instr::LdAPtr { upper, lower } => {
                    self.ld_a_ptr(upper, lower);
                    Ok(())
                },
                Instr::LdPtrA { upper, lower } => {
                    self.ld_ptr_a(upper, lower);
                    Ok(())
                },
                Instr::LdAHli => {
                    self.ld_a_hli();
                    Ok(())
                },
                Instr::LdAHld => {
                    self.ld_a_hld();
                    Ok(())
                },
                Instr::LdHliA => {
                    self.ld_hli_a();
                    Ok(())
                },
                Instr::LdHldA => {
                    self.ld_hld_a();
                    Ok(())
                },
                Instr::LdNnSp => {
                    self.ld_nn_sp();
                    Ok(())
                },
                Instr::LdDdNn { dd } => {
                    self.ld_dd_nn(dd);
                    Ok(())
                },
                Instr::LdRN { x } => {
                    self.ld_r_n(x);
                    Ok(())
                },
                Instr::LdRHl { x } => {
                    self.ld_r_hl(x);
                    Ok(())
                },
                Instr::LdHlR { y } => {
                    self.ld_hl_r(y);
                    Ok(())
                },
                Instr::LdRr { x, y } => {
                    self.ld_rr(x, y);
                    Ok(())
                },
                Instr::AddAR { y } => {
                    self.add_a_r(y);
                    Ok(())
                },
                Instr::AddAN => {
                    self.add_a_n();
                    Ok(())
                },
                Instr::AddAHl => {
                    self.add_a_hl();
                    Ok(())
                },
                Instr::LdCA => {
                    self.ld_c_a();
                    Ok(())
                },
                Instr::LdAN => {
                    self.ld_a_n();
                    Ok(())
                },
                Instr::LdNA => {
                    self.ld_n_a();
                    Ok(())
                },
                Instr::LdANn => {
                    self.ld_a_nn();
                    Ok(())
                },
                Instr::LdNnA => {
                    self.ld_nn_a();
                    Ok(())
                },
                Instr::LdhlSpE => {
                    self.ldhl_sp_e();
                    Ok(())
                },
                Instr::LdSpHl => {
                    self.ld_sp_hl();
                    Ok(())
                },
                Instr::PushQq { qq } => {
                    self.push_qq(qq);
                    Ok(())
                },
                Instr::PopQq { qq } => {
                    self.pop_qq(qq);
                    Ok(())
                },
            },
        }
    }

    /// The continuous-run entry point: fetch the byte at the program
    /// counter, advance the counter, decode and dispatch, at most `steps`
    /// times.
    ///
    /// Returns `None` when the step budget is exhausted with the machine
    /// still running — the external stop signal of this synchronous core —
    /// and otherwise surfaces the first failure, untouched by any later
    /// step.
    pub fn run(&mut self, steps: u64) -> (r: Option<StepError>)
        requires
            old(self).wf(),
        ensures
            final(self).wf(),
            final(self)@ == spec_run(old(self)@, steps as nat).0,
            r == spec_run(old(self)@, steps as nat).1,
        decreases steps,
    {
        if steps == 0 {
            return None;
        }
        let opcode = self.mmu.rb(self.program_counter);
        self.program_counter = wadd(self.program_counter, 1);
        match self.execute(opcode) {
            Result::Err(err) => Some(err),
            Result::Ok(()) => self.run(steps - 1),
        }
    }
}

} // verus!
