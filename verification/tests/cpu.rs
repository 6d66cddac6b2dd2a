use gb_core::cpu::{decode, Instr, StepError, CPU};

#[test]
fn half_carry_tests() {
    assert_eq!(CPU::half_carry(0x25, 0x48, 0x6D), false);
    assert_eq!(CPU::half_carry(0x39, 0x48, 0x81), true);
    assert_eq!(CPU::half_carry(0x72, 0x73, 0xE5), false);
}

#[test]
fn default_state_is_zeroed() {
    let cpu = CPU::default();

    assert_eq!(cpu.a, 0);
    assert_eq!(cpu.b, 0);
    assert_eq!(cpu.c, 0);
    assert_eq!(cpu.d, 0);
    assert_eq!(cpu.e, 0);
    assert_eq!(cpu.f, 0);
    assert_eq!(cpu.h, 0);
    assert_eq!(cpu.l, 0);
    assert_eq!(cpu.program_counter, 0);
    assert_eq!(cpu.stack_pointer, 0);
    assert_eq!(cpu.mmu.rb(0x0000), 0);
    assert_eq!(cpu.mmu.rb(0xFFFF), 0);
}

#[test]
fn decode_resolves_specific_before_general() {
    // the (HL)-indirect and halt patterns shadow the general moves
    assert_eq!(decode(0b01_110_110), Some(Instr::Halt));
    assert_eq!(decode(0b01_010_110), Some(Instr::LdRHl { x: 0b010 }));
    assert_eq!(decode(0b01_110_011), Some(Instr::LdHlR { y: 0b011 }));
    assert_eq!(decode(0b01_010_011), Some(Instr::LdRr { x: 0b010, y: 0b011 }));
    // even field values select a pair index for 16-bit load, push and pop
    assert_eq!(decode(0b00_100_001), Some(Instr::LdDdNn { dd: 0b10 }));
    assert_eq!(decode(0b11_010_101), Some(Instr::PushQq { qq: 0b01 }));
    assert_eq!(decode(0b11_010_001), Some(Instr::PopQq { qq: 0b01 }));
    // an odd field value in a pair slot decodes to nothing
    assert_eq!(decode(0b00_011_001), None);
}

#[test]
fn execute_reports_decode_failure() {
    let mut cpu = CPU::default();
    cpu.a = 0x11;

    let r = cpu.execute(0b00_000_111);

    assert_eq!(r, Err(StepError::Decode { opcode: 0b00_000_111, pc: 0 }));
    // the state is untouched on a decode failure
    assert_eq!(cpu.a, 0x11);
    assert_eq!(cpu.program_counter, 0);
}

#[test]
fn execute_reports_halt_as_unimplemented() {
    let mut cpu = CPU::default();

    let r = cpu.execute(0b01_110_110);

    assert_eq!(r, Err(StepError::Unimplemented { opcode: 0b01_110_110, pc: 0 }));
    assert_eq!(cpu.program_counter, 0);
}

#[test]
fn run_executes_a_small_program() {
    let mut cpu = CPU::default();

    // LD A, 0x45; ADD A, 0xF4; HALT
    cpu.mmu.wb(0x0, 0b00_111_110);
    cpu.mmu.wb(0x1, 0x45);
    cpu.mmu.wb(0x2, 0b11_000_110);
    cpu.mmu.wb(0x3, 0xF4);
    cpu.mmu.wb(0x4, 0b01_110_110);

    let r = cpu.run(10);

    assert_eq!(r, Some(StepError::Unimplemented { opcode: 0b01_110_110, pc: 5 }));
    assert_eq!(cpu.a, 0x39);
    assert_eq!(cpu.f, 0b00010000);
    assert_eq!(cpu.program_counter, 5);
}

#[test]
fn run_stops_on_a_decode_failure() {
    let mut cpu = CPU::default();

    cpu.mmu.wb(0x0, 0b00_111_110);
    cpu.mmu.wb(0x1, 0x07);
    cpu.mmu.wb(0x2, 0b00_000_111);

    let r = cpu.run(10);

    assert_eq!(r, Some(StepError::Decode { opcode: 0b00_000_111, pc: 3 }));
    assert_eq!(cpu.a, 0x07);
}

#[test]
fn run_exhausts_its_step_budget_on_nops() {
    let mut cpu = CPU::default();

    let r = cpu.run(5);

    assert_eq!(r, None);
    assert_eq!(cpu.program_counter, 5);
}

#[test]
fn word_ops_wrap_at_top_of_memory() {
    let mut cpu = CPU::default();

    cpu.mmu.ww(0xFFFF, 0x1234);

    assert_eq!(cpu.mmu.rb(0xFFFF), 0x12);
    assert_eq!(cpu.mmu.rb(0x0000), 0x34);
    assert_eq!(cpu.mmu.rw(0xFFFF), 0x1234);
}

#[test]
fn byte_ops_read_back_what_was_written() {
    let mut cpu = CPU::default();

    cpu.mmu.wb(0x8000, 0xAB);

    assert_eq!(cpu.mmu.rb(0x8000), 0xAB);
    assert_eq!(cpu.mmu.rb(0x8001), 0x00);
}
