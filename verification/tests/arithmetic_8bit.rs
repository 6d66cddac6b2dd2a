use gb_core::cpu::CPU;

#[test]
fn add_a_r_tests() {
    let mut cpu = CPU::default();

    let instruction = 0b10000000;
    cpu.execute(instruction).unwrap();

    assert_eq!(cpu.a, 0x0);
    assert_eq!(cpu.f, 0b10000000);

    cpu.b = 0x45;

    let instruction = 0b10000000;
    cpu.execute(instruction).unwrap();

    assert_eq!(cpu.a, 0x45);
    assert_eq!(cpu.f, 0b00000000);

    cpu.c = 0xF4;

    let instruction = 0b10000001;
    cpu.execute(instruction).unwrap();

    assert_eq!(cpu.a, 0x39);
    assert_eq!(cpu.f, 0b00010000);

    cpu.a = 0x39;
    cpu.d = 0x48;

    let instruction = 0b10000010;
    cpu.execute(instruction).unwrap();

    assert_eq!(cpu.a, 0x81);
    assert_eq!(cpu.f, 0b00100000);
}

#[test]
fn add_a_n_tests() {
    let mut cpu = CPU::default();

    cpu.mmu.wb(0x0, 0xF4);

    let instruction = 0b11000110;
    cpu.execute(instruction).unwrap();

    assert_eq!(cpu.a, 0xF4);
    assert_eq!(cpu.f, 0b00000000);
}

#[test]
fn add_a_hl_tests() {
    let mut cpu = CPU::default();

    cpu.h = 0x27;
    cpu.l = 0x1C;
    cpu.mmu.wb(0x271C, 0xF4);

    let instruction = 0b10_000_110;
    cpu.execute(instruction).unwrap();

    assert_eq!(cpu.mmu.rb(0x271C), 0xF4);
}

#[test]
fn add_carry_and_zero_together() {
    let mut cpu = CPU::default();

    cpu.a = 0x80;
    cpu.b = 0x80;
    cpu.execute(0b10000000).unwrap();

    assert_eq!(cpu.a, 0x00);
    assert_eq!(cpu.f, 0b10010000);
}

#[test]
fn add_a_hl_keeps_program_counter() {
    let mut cpu = CPU::default();

    cpu.a = 0x01;
    cpu.h = 0x12;
    cpu.l = 0x34;
    cpu.mmu.wb(0x1234, 0x02);
    cpu.execute(0b10_000_110).unwrap();

    assert_eq!(cpu.a, 0x03);
    assert_eq!(cpu.program_counter, 0);
}
