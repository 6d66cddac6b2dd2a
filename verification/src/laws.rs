//! General laws of the core, each stated over the mathematical machine model
//! and proved once for every input that satisfies its hypotheses.

use vstd::prelude::*;

use crate::arithmetic_8bit::add_flags;
use crate::bits::{lemma_word_bytes, wrap16};
use crate::cpu::CpuState;
use crate::mmu::word_store;

verus! {

/// Register-to-register move: for register codes `x != y`, moving `y` into
/// `x` leaves register `y` unchanged and sets register `x` to `y`'s prior
/// value; every other register, both counters and all of memory keep their
/// values.
pub proof fn lemma_reg_move(s: CpuState, x: u8, y: u8)
    requires
        x < 8,
        y < 8,
        x != y,
    ensures
        s.ld_rr(x, y).reg(x) == s.reg(y),
        s.ld_rr(x, y).reg(y) == s.reg(y),
        forall|c: u8| c < 8 && c != x ==> #[trigger] s.ld_rr(x, y).reg(c) == s.reg(c),
        s.ld_rr(x, y).pc == s.pc,
        s.ld_rr(x, y).sp == s.sp,
        s.ld_rr(x, y).mem == s.mem,
{
}

/// Addition: adding `b` to accumulator value `a` yields `(a + b) mod 256`;
/// Carry is set iff the unsigned sum exceeds 255, Half-Carry iff the low
/// nibbles alone overflow, Zero iff the truncated result is zero; Subtract
/// stays clear and no other flag bit is set.
pub proof fn lemma_add(s: CpuState, b: u8)
    ensures
        s.add_a(b).a == (s.a + b) % 256,
        (s.add_a(b).f & 0x10 != 0) == (s.a + b > 255),
        (s.add_a(b).f & 0x20 != 0) == ((s.a & 0xF) + (b & 0xF) > 0xF),
        (s.add_a(b).f & 0x80 != 0) == ((s.a + b) % 256 == 0),
        s.add_a(b).f & 0x4F == 0,
{
    let a0 = s.a;
    assert(a0 & 0xF == a0 % 16 && b & 0xF == b % 16) by (bit_vector);
    let cb: u8 = if s.a + b > 255 {
        0x10
    } else {
        0
    };
    let hb: u8 = if (s.a & 0xF) + (b & 0xF) > 0xF {
        0x20
    } else {
        0
    };
    let zb: u8 = if (s.a + b) % 256 == 0 {
        0x80
    } else {
        0
    };
    assert(add_flags(s.a, b) == (cb + hb + zb) as u8);
    assert((cb == 0 || cb == 0x10) && (hb == 0 || hb == 0x20) && (zb == 0 || zb == 0x80) ==> (
    (cb + hb + zb) as u8 & 0x10 == cb && (cb + hb + zb) as u8 & 0x20 == hb && (cb + hb + zb) as u8
        & 0x80 == zb && (cb + hb + zb) as u8 & 0x4F == 0)) by (bit_vector);
}

/// Push/pop inverse law: for any register pair and any stack pointer with
/// room on both sides, push followed immediately by pop of the same pair
/// restores the pair's original value and the pre-push stack pointer.
pub proof fn lemma_push_pop_roundtrip(s: CpuState, qq: u8)
    requires
        s.wf(),
        qq < 4,
        2 <= s.sp,
    ensures
        s.push_qq(qq).pop_qq(qq).pair(qq) == s.pair(qq),
        s.push_qq(qq).pop_qq(qq).sp == s.sp,
{
    assert(wrap16(s.sp + 0xFFFE) == s.sp - 2);
    assert(wrap16((s.sp - 2) + 1) == s.sp - 1);
    assert(wrap16((s.sp - 2) + 2) == s.sp);
    lemma_word_bytes(s.pair(qq));
}

/// HL auto-increment/decrement: writing the accumulator through the
/// increment form stores it at the pre-update HL address and leaves HL at
/// `(HL + 1) mod 65536`; the decrement form stores at the same address and
/// leaves `(HL + 65535) mod 65536`, which is subtraction of one modulo
/// 65536.
pub proof fn lemma_hl_autoinc(s: CpuState)
    requires
        s.wf(),
    ensures
        s.ld_hli_a().byte_at(s.hl()) == s.a,
        s.ld_hli_a().hl() == wrap16(s.hl() + 1),
        s.ld_hld_a().byte_at(s.hl()) == s.a,
        s.ld_hld_a().hl() == wrap16(s.hl() + 0xFFFF),
{
}

/// Word round-trip: storing a 16-bit value at the program counter through
/// the word-store primitive and reading it back with the register-pair
/// immediate load yields the identical value in the selected destination,
/// and the program counter advances by exactly 2 (mod 65536).
pub proof fn lemma_word_roundtrip(s: CpuState, dd: u8, v: u16)
    requires
        s.wf(),
        dd < 4,
    ensures
        ({
            let loaded = CpuState { mem: word_store(s.mem, s.pc, v), ..s }.ld_dd_nn(dd);
            loaded.dd_value(dd) == v && loaded.pc == wrap16(s.pc + 2)
        }),
{
    assert(wrap16(s.pc + 1) != s.pc);
    lemma_word_bytes(v);
}

} // verus!
