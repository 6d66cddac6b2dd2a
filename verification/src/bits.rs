//! 16-bit machine arithmetic: wrapping addition modulo the address space and
//! the decomposition of a word into its big-endian byte halves.

use vstd::prelude::*;

verus! {

/// `v` reduced modulo 65536, the size of the 16-bit address space.
pub open spec fn wrap16(v: int) -> u16 {
    (v % 0x10000) as u16
}

/// The high (most significant) byte of a 16-bit word.
pub open spec fn high_byte(w: u16) -> u8 {
    (w / 0x100) as u8
}

/// The low (least significant) byte of a 16-bit word.
pub open spec fn low_byte(w: u16) -> u8 {
    (w % 0x100) as u8
}

/// Addition of two 16-bit counters, wrapping modulo 65536.
pub fn wadd(a: u16, b: u16) -> (r: u16)
    ensures
        r == wrap16(a + b),
{
    let wide: u32 = (a as u32) + (b as u32);
    (wide % 0x10000) as u16
}

/// The high byte of `w`, as executable code.
pub fn hi8(w: u16) -> (b: u8)
    ensures
        b == high_byte(w),
{
    (w / 0x100) as u8
}

/// The low byte of `w`, as executable code.
pub fn lo8(w: u16) -> (b: u8)
    ensures
        b == low_byte(w),
{
    (w % 0x100) as u8
}

/// A word is exactly the big-endian composition of its two byte halves.
pub proof fn lemma_word_bytes(w: u16)
    ensures
        high_byte(w) * 0x100 + low_byte(w) == w,
{
}

} // verus!
