//! Instruction-execution core of an 8-bit CPU of the Game Boy (Sharp LR35902)
//! family: a register file with a flag byte, a flat byte-addressable memory
//! abstraction spanning the full 16-bit address space, an opcode decoder over
//! bit-fields with priority rules, and the load and accumulator-addition
//! instruction families, all with machine-checked contracts.

pub mod bits;
pub mod mmu;
pub mod cpu;
pub mod load_8bit;
pub mod load_16bit;
pub mod arithmetic_8bit;
pub mod laws;
