use gb_core::cpu::CPU;

#[test]
fn ld_hl_n_tests() {
    let mut cpu = CPU::default();
    cpu.mmu.wb(0, 0x34);
    cpu.h = 0xA6;
    cpu.l = 0xB7;

    let instruction = 0b00110110;
    cpu.execute(instruction).unwrap();

    assert_eq!(cpu.mmu.rb(0xA6B7), 0x34);
    assert_eq!(cpu.program_counter, 1);
}

#[test]
fn ld_a_ptr_tests() {
    let mut cpu = CPU::default();
    cpu.mmu.wb(0xA6B7, 0x34);
    cpu.mmu.wb(0x56BA, 0x56);
    cpu.b = 0xA6;
    cpu.c = 0xB7;
    cpu.d = 0x56;
    cpu.e = 0xBA;

    let instruction = 0b00001010;
    cpu.execute(instruction).unwrap();
    assert_eq!(cpu.a, 0x34);

    let instruction = 0b00011010;
    cpu.execute(instruction).unwrap();
    assert_eq!(cpu.a, 0x56);
}

#[test]
fn ld_ptr_a_tests() {
    let mut cpu = CPU::default();
    cpu.a = 0xF3;
    cpu.b = 0xA6;
    cpu.c = 0xB7;
    cpu.d = 0x56;
    cpu.e = 0xBA;

    let instruction = 0b00_000_010;
    cpu.execute(instruction).unwrap();

    assert_eq!(cpu.mmu.rb(0xA6B7), 0xF3);

    let instruction = 0b00_010_010;
    cpu.execute(instruction).unwrap();
    assert_eq!(cpu.mmu.rb(0x56BA), 0xF3);
}

#[test]
fn ld_a_hli_tests() {
    let mut cpu = CPU::default();

    cpu.h = 0x47;
    cpu.l = 0x34;
    cpu.mmu.wb(0x4734, 0x7B);

    let instruction = 0b00_101_010;
    cpu.execute(instruction).unwrap();

    assert_eq!(cpu.a, 0x7B);
    assert_eq!(cpu.h, 0x47);
    assert_eq!(cpu.l, 0x35);
}

#[test]
fn ld_a_hld_tests() {
    let mut cpu = CPU::default();

    cpu.h = 0x47;
    cpu.l = 0x34;
    cpu.mmu.wb(0x4734, 0x7B);

    let instruction = 0b00_111_010;
    cpu.execute(instruction).unwrap();

    assert_eq!(cpu.a, 0x7B);
    assert_eq!(cpu.h, 0x47);
    assert_eq!(cpu.l, 0x33);
}

#[test]
fn ld_hli_a_tests() {
    let mut cpu = CPU::default();

    cpu.a = 0xF3;
    cpu.h = 0xD0;
    cpu.l = 0x5B;

    let instruction = 0b00_100_010;
    cpu.execute(instruction).unwrap();

    assert_eq!(cpu.mmu.rb(0xD05B), 0xF3);
    assert_eq!(cpu.h, 0xD0);
    assert_eq!(cpu.l, 0x5C);
}

#[test]
fn ld_hld_a_tests() {
    let mut cpu = CPU::default();

    cpu.a = 0xF3;
    cpu.h = 0xD0;
    cpu.l = 0x5B;

    let instruction = 0b00_110_010;
    cpu.execute(instruction).unwrap();

    assert_eq!(cpu.mmu.rb(0xD05B), 0xF3);
    assert_eq!(cpu.h, 0xD0);
    assert_eq!(cpu.l, 0x5A);
}

#[test]
fn ld_r_n_tests() {
    let mut cpu = CPU::default();
    cpu.mmu.wb(0x0, 0x43);

    let instruction = 0b00_010_110;
    cpu.execute(instruction).unwrap();

    assert_eq!(cpu.d, 0x43);
}

#[test]
fn ld_r_hl_tests() {
    let mut cpu = CPU::default();
    cpu.mmu.wb(0xA6B7, 0x34);
    cpu.h = 0xA6;
    cpu.l = 0xB7;

    let instruction = 0b01_010_110;
    cpu.execute(instruction).unwrap();

    assert_eq!(cpu.d, 0x34);
}

#[test]
fn ld_hl_r_tests() {
    let mut cpu = CPU::default();
    cpu.d = 0x34;
    cpu.h = 0xA6;
    cpu.l = 0xB7;

    let instruction = 0b01_110_010;
    cpu.execute(instruction).unwrap();

    assert_eq!(cpu.mmu.rb(0xA6B7), 0x34);
}

#[test]
fn ld_rr_tests() {
    let mut cpu = CPU::default();
    cpu.e = 0xAC;

    let instruction = 0b01_010_011;
    cpu.execute(instruction).unwrap();

    assert_eq!(cpu.d, 0xAC);
}

#[test]
fn ld_c_a_tests() {
    let mut cpu = CPU::default();
    cpu.c = 0xF1;
    cpu.a = 0xB5;

    let instruction = 0b11100010;
    cpu.execute(instruction).unwrap();

    assert_eq!(cpu.mmu.rb(0xFFF1), 0xB5);
}

#[test]
fn ld_a_n_tests() {
    let mut cpu = CPU::default();
    cpu.mmu.wb(0x0, 0x5B);
    cpu.mmu.wb(0xFF5B, 0x11);

    let instruction = 0b11110000;
    cpu.execute(instruction).unwrap();

    assert_eq!(cpu.a, 0x11);
    assert_eq!(cpu.program_counter, 1);
}

#[test]
fn ld_n_a_tests() {
    let mut cpu = CPU::default();
    cpu.a = 0xB5;
    cpu.mmu.wb(0x0, 0x12);

    let instruction = 0b11100000;
    cpu.execute(instruction).unwrap();

    assert_eq!(cpu.mmu.rb(0xFF12), 0xB5);
    assert_eq!(cpu.program_counter, 1);
}

#[test]
fn ld_a_nn_tests() {
    let mut cpu = CPU::default();
    cpu.mmu.wb(0x0, 0x34);
    cpu.mmu.wb(0x1, 0xF5);
    cpu.mmu.wb(0x34F5, 0x78);

    let instruction = 0b11_111_010;
    cpu.execute(instruction).unwrap();

    assert_eq!(cpu.a, 0x78);
    assert_eq!(cpu.program_counter, 2);
}

#[test]
fn ld_nn_a_tests() {
    let mut cpu = CPU::default();
    cpu.mmu.wb(0x0, 0x34);
    cpu.mmu.wb(0x1, 0xF5);
    cpu.a = 0x78;

    let instruction = 0b11_101_010;
    cpu.execute(instruction).unwrap();

    assert_eq!(cpu.mmu.rb(0x34F5), 0x78);
    assert_eq!(cpu.program_counter, 2);
}

#[test]
fn ld_rr_leaves_source_unchanged() {
    let mut cpu = CPU::default();
    cpu.b = 0x5A;

    // LD D, B
    cpu.execute(0b01_010_000).unwrap();

    assert_eq!(cpu.d, 0x5A);
    assert_eq!(cpu.b, 0x5A);
}

#[test]
fn ld_hli_a_wraps_at_top_of_memory() {
    let mut cpu = CPU::default();
    cpu.a = 0x99;
    cpu.h = 0xFF;
    cpu.l = 0xFF;

    cpu.execute(0b00_100_010).unwrap();

    assert_eq!(cpu.mmu.rb(0xFFFF), 0x99);
    assert_eq!(cpu.h, 0x00);
    assert_eq!(cpu.l, 0x00);
}
