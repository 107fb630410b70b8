use gbemu::cpu::Cpu;
use gbemu::mmu::Mmu;
use gbemu::register::{BitFlag, CpuRegister, Reg8Name};
use gbemu::rom::load_rom;

/// A machine whose ROM holds `program` from 0x0150, with PC there.
fn machine_with(program: &[u8]) -> (Cpu, Mmu) {
    let mut image = vec![0u8; 0x8000];
    image[0x150..0x150 + program.len()].copy_from_slice(program);
    let rom = load_rom(&image).expect("a plain ROM image loads");
    let mmu = Mmu::new(rom);
    let mut cpu = Cpu::new();
    cpu.register.pc = 0x0150;
    (cpu, mmu)
}

#[test]
fn inc_a_wraps_and_sets_zero_and_half_carry() {
    let (mut cpu, mut mmu) = machine_with(&[0x3C]);
    cpu.register.a = 0xFF;
    cpu.register.set_flag(BitFlag::C);
    cpu.step(&mut mmu);
    assert_eq!(cpu.register.a, 0x00);
    assert!(cpu.register.flag_is_set(BitFlag::Z));
    assert!(cpu.register.flag_is_set(BitFlag::H));
    assert!(cpu.register.flag_is_unset(BitFlag::N));
    assert!(cpu.register.flag_is_set(BitFlag::C));
    assert_eq!(cpu.register.pc, 0x0151);
}

#[test]
fn inc_a_leaves_a_clear_carry_clear() {
    let (mut cpu, mut mmu) = machine_with(&[0x3C]);
    cpu.register.a = 0xFF;
    cpu.step(&mut mmu);
    assert_eq!(cpu.register.a, 0x00);
    assert!(cpu.register.flag_is_set(BitFlag::Z));
    assert!(cpu.register.flag_is_unset(BitFlag::C));
}

#[test]
fn call_pushes_return_address_and_jumps() {
    let (mut cpu, mut mmu) = machine_with(&[0xCD, 0x00, 0x02]);
    cpu.register.sp = 0xFFFE;
    cpu.step(&mut mmu);
    assert_eq!(mmu.read8(0xFFFC), 0x53);
    assert_eq!(mmu.read8(0xFFFD), 0x01);
    assert_eq!(mmu.read16(0xFFFC), 0x0153);
    assert_eq!(cpu.register.sp, 0xFFFC);
    assert_eq!(cpu.register.pc, 0x0200);
}

#[test]
fn call_then_ret_comes_back_after_the_call() {
    let mut program = vec![0u8; 0x40];
    program[0] = 0xCD; // CALL 0x0180
    program[1] = 0x80;
    program[2] = 0x01;
    program[0x30] = 0xC9; // RET at 0x0180
    let (mut cpu, mut mmu) = machine_with(&program);
    cpu.register.sp = 0xFFFE;
    cpu.step(&mut mmu);
    assert_eq!(cpu.register.pc, 0x0180);
    cpu.step(&mut mmu);
    assert_eq!(cpu.register.pc, 0x0153);
    assert_eq!(cpu.register.sp, 0xFFFE);
}

#[test]
fn bit_zero_of_b_set_clears_zero_flag() {
    let (mut cpu, mut mmu) = machine_with(&[0xCB, 0x40]);
    cpu.register.b = 0b0000_0001;
    cpu.register.set_flag(BitFlag::N);
    cpu.step(&mut mmu);
    assert!(cpu.register.flag_is_unset(BitFlag::Z));
    assert!(cpu.register.flag_is_set(BitFlag::H));
    assert!(cpu.register.flag_is_unset(BitFlag::N));
    assert!(cpu.register.flag_is_unset(BitFlag::C));
    assert_eq!(cpu.register.b, 0b0000_0001);
    assert_eq!(cpu.register.pc, 0x0152);
}

#[test]
fn bit_zero_of_b_clear_sets_zero_flag() {
    let (mut cpu, mut mmu) = machine_with(&[0xCB, 0x40]);
    cpu.register.b = 0b0000_0000;
    cpu.register.set_flag(BitFlag::C);
    cpu.step(&mut mmu);
    assert!(cpu.register.flag_is_set(BitFlag::Z));
    assert!(cpu.register.flag_is_set(BitFlag::H));
    assert!(cpu.register.flag_is_unset(BitFlag::N));
    assert!(cpu.register.flag_is_set(BitFlag::C));
}

#[test]
fn halt_stops_the_engine() {
    let (mut cpu, mut mmu) = machine_with(&[0x76, 0x3C]);
    cpu.register.a = 7;
    cpu.step(&mut mmu);
    assert!(cpu.halted);
    assert_eq!(cpu.register.pc, 0x0151);
    let before = cpu;
    mmu.write8(0xC000, 0x42);
    cpu.step(&mut mmu);
    assert_eq!(cpu, before);
    assert_eq!(cpu.register.a, 7);
    assert_eq!(mmu.read8(0xC000), 0x42);
}

#[test]
fn inc_then_dec_register_restores_value() {
    let (mut cpu, mut mmu) = machine_with(&[0x04, 0x05, 0x05, 0x04]);
    cpu.register.b = 0x0F;
    cpu.step(&mut mmu);
    assert_eq!(cpu.register.b, 0x10);
    assert!(cpu.register.flag_is_set(BitFlag::H));
    cpu.step(&mut mmu);
    assert_eq!(cpu.register.b, 0x0F);
    assert!(cpu.register.flag_is_set(BitFlag::N));
    assert!(cpu.register.flag_is_set(BitFlag::H));
    assert!(cpu.register.flag_is_unset(BitFlag::Z));
    cpu.step(&mut mmu);
    assert_eq!(cpu.register.b, 0x0E);
    cpu.step(&mut mmu);
    assert_eq!(cpu.register.b, 0x0F);
    assert!(cpu.register.flag_is_unset(BitFlag::N));
    assert!(cpu.register.flag_is_unset(BitFlag::H));
}

#[test]
fn inc_then_dec_memory_restores_value() {
    let (mut cpu, mut mmu) = machine_with(&[0x34, 0x35]);
    cpu.register.h = 0xC0;
    cpu.register.l = 0x10;
    mmu.write8(0xC010, 0xFF);
    cpu.step(&mut mmu);
    assert_eq!(mmu.read8(0xC010), 0x00);
    assert!(cpu.register.flag_is_set(BitFlag::Z));
    cpu.step(&mut mmu);
    assert_eq!(mmu.read8(0xC010), 0xFF);
    assert!(cpu.register.flag_is_unset(BitFlag::Z));
    assert!(cpu.register.flag_is_set(BitFlag::N));
    assert!(cpu.register.flag_is_set(BitFlag::H));
}

#[test]
fn add_then_daa_gives_decimal_sum() {
    let (mut cpu, mut mmu) = machine_with(&[0xC6, 0x27, 0x27]);
    cpu.register.a = 0x15;
    cpu.step(&mut mmu);
    assert_eq!(cpu.register.a, 0x3C);
    cpu.step(&mut mmu);
    assert_eq!(cpu.register.a, 0x42);
    assert!(cpu.register.flag_is_unset(BitFlag::C));
    assert_eq!(cpu.register.pc, 0x0153);
}

#[test]
fn daa_after_decimal_overflow_sets_carry() {
    let (mut cpu, mut mmu) = machine_with(&[0xC6, 0x01, 0x27]);
    cpu.register.a = 0x99;
    cpu.step(&mut mmu);
    cpu.step(&mut mmu);
    assert_eq!(cpu.register.a, 0x00);
    assert!(cpu.register.flag_is_set(BitFlag::C));
    assert!(cpu.register.flag_is_set(BitFlag::Z));
}

#[test]
fn sub_then_daa_gives_decimal_difference() {
    let (mut cpu, mut mmu) = machine_with(&[0xD6, 0x19, 0x27]);
    cpu.register.a = 0x42;
    cpu.step(&mut mmu);
    cpu.step(&mut mmu);
    assert_eq!(cpu.register.a, 0x23);
}

#[test]
fn relative_jump_backwards() {
    let (mut cpu, mut mmu) = machine_with(&[0x18, 0xFE]);
    cpu.step(&mut mmu);
    assert_eq!(cpu.register.pc, 0x0150);
}

#[test]
fn conditional_relative_jump_not_taken_advances() {
    let (mut cpu, mut mmu) = machine_with(&[0x20, 0x10]);
    cpu.register.set_flag(BitFlag::Z);
    cpu.step(&mut mmu);
    assert_eq!(cpu.register.pc, 0x0152);
    let (mut cpu, mut mmu) = machine_with(&[0x20, 0x10]);
    cpu.step(&mut mmu);
    assert_eq!(cpu.register.pc, 0x0162);
}

#[test]
fn push_then_pop_moves_a_pair() {
    let (mut cpu, mut mmu) = machine_with(&[0xC5, 0xD1]);
    cpu.register.sp = 0xDFF0;
    cpu.register.b = 0x12;
    cpu.register.c = 0x34;
    cpu.step(&mut mmu);
    assert_eq!(cpu.register.sp, 0xDFEE);
    assert_eq!(mmu.read8(0xDFEE), 0x34);
    assert_eq!(mmu.read8(0xDFEF), 0x12);
    cpu.step(&mut mmu);
    assert_eq!(cpu.register.sp, 0xDFF0);
    assert_eq!(cpu.register.d, 0x12);
    assert_eq!(cpu.register.e, 0x34);
}

#[test]
fn pop_af_keeps_low_nibble_of_f_clear() {
    let (mut cpu, mut mmu) = machine_with(&[0xF1]);
    cpu.register.sp = 0xC000;
    mmu.write16(0xC000, 0x12FF);
    cpu.step(&mut mmu);
    assert_eq!(cpu.register.a, 0x12);
    assert_eq!(cpu.register.f, 0xF0);
}

#[test]
fn add_hl_leaves_zero_flag_and_sets_half_carry() {
    let (mut cpu, mut mmu) = machine_with(&[0x09]);
    cpu.register.h = 0x0F;
    cpu.register.l = 0xFF;
    cpu.register.b = 0x00;
    cpu.register.c = 0x01;
    cpu.register.set_flag(BitFlag::Z);
    cpu.step(&mut mmu);
    assert_eq!(cpu.register.h, 0x10);
    assert_eq!(cpu.register.l, 0x00);
    assert!(cpu.register.flag_is_set(BitFlag::Z));
    assert!(cpu.register.flag_is_set(BitFlag::H));
    assert!(cpu.register.flag_is_unset(BitFlag::C));
}

#[test]
fn xor_a_clears_a_and_sets_zero() {
    let (mut cpu, mut mmu) = machine_with(&[0xAF]);
    cpu.register.a = 0x5A;
    cpu.step(&mut mmu);
    assert_eq!(cpu.register.a, 0);
    assert_eq!(cpu.register.f, 0x80);
}

#[test]
fn cp_sets_flags_and_keeps_a() {
    let (mut cpu, mut mmu) = machine_with(&[0xFE, 0x10]);
    cpu.register.a = 0x05;
    cpu.step(&mut mmu);
    assert_eq!(cpu.register.a, 0x05);
    assert!(cpu.register.flag_is_set(BitFlag::C));
    assert!(cpu.register.flag_is_set(BitFlag::N));
    assert!(cpu.register.flag_is_unset(BitFlag::Z));
}

#[test]
fn load_and_store_through_hl_with_increment() {
    let (mut cpu, mut mmu) = machine_with(&[0x22, 0x2A]);
    cpu.register.h = 0xC1;
    cpu.register.l = 0xFF;
    cpu.register.a = 0x77;
    cpu.step(&mut mmu);
    assert_eq!(mmu.read8(0xC1FF), 0x77);
    assert_eq!(cpu.register.h, 0xC2);
    assert_eq!(cpu.register.l, 0x00);
    mmu.write8(0xC200, 0x99);
    cpu.step(&mut mmu);
    assert_eq!(cpu.register.a, 0x99);
    assert_eq!(cpu.register.l, 0x01);
}

#[test]
fn high_page_loads_use_ff00() {
    let (mut cpu, mut mmu) = machine_with(&[0xE0, 0x80, 0xF2]);
    cpu.register.a = 0x3C;
    cpu.step(&mut mmu);
    assert_eq!(mmu.read8(0xFF80), 0x3C);
    cpu.register.a = 0;
    cpu.register.c = 0x80;
    cpu.step(&mut mmu);
    assert_eq!(cpu.register.a, 0x3C);
}

#[test]
fn cb_swap_and_set_reset_on_registers() {
    let (mut cpu, mut mmu) = machine_with(&[0xCB, 0x37, 0xCB, 0xC7, 0xCB, 0xBF]);
    cpu.register.a = 0xA5;
    cpu.step(&mut mmu);
    assert_eq!(cpu.register.a, 0x5A);
    cpu.step(&mut mmu);
    assert_eq!(cpu.register.a, 0x5B);
    cpu.step(&mut mmu);
    assert_eq!(cpu.register.a, 0x5B);
    cpu.register.a = 0xFF;
    cpu.register.pc = 0x0154;
    cpu.step(&mut mmu);
    assert_eq!(cpu.register.a, 0x7F);
}

#[test]
fn rlca_keeps_zero_flag_and_rlc_sets_it() {
    let (mut cpu, mut mmu) = machine_with(&[0x07, 0xCB, 0x00]);
    cpu.register.a = 0x80;
    cpu.step(&mut mmu);
    assert_eq!(cpu.register.a, 0x01);
    assert!(cpu.register.flag_is_set(BitFlag::C));
    assert!(cpu.register.flag_is_unset(BitFlag::Z));
    cpu.register.b = 0;
    cpu.step(&mut mmu);
    assert_eq!(cpu.register.b, 0);
    assert!(cpu.register.flag_is_set(BitFlag::Z));
    assert!(cpu.register.flag_is_unset(BitFlag::C));
}

#[test]
fn ei_di_and_reti_switch_interrupts() {
    let (mut cpu, mut mmu) = machine_with(&[0xFB, 0xF3, 0xD9]);
    cpu.register.sp = 0xC000;
    mmu.write16(0xC000, 0x0200);
    cpu.step(&mut mmu);
    assert!(mmu.interrupts_enabled());
    cpu.step(&mut mmu);
    assert!(!mmu.interrupts_enabled());
    cpu.step(&mut mmu);
    assert!(mmu.interrupts_enabled());
    assert_eq!(cpu.register.pc, 0x0200);
    assert_eq!(cpu.register.sp, 0xC002);
}

#[test]
fn run_ins_reports_branches() {
    let (mut cpu, mut mmu) = machine_with(&[]);
    cpu.run_ins(&mut mmu, gbemu::instructions::Instruction::JpA16(0x1234));
    assert!(cpu.jumped);
    assert_eq!(cpu.register.pc, 0x1234);
    cpu.run_ins(&mut mmu, gbemu::instructions::Instruction::Nop);
    assert!(!cpu.jumped);
    assert_eq!(cpu.register.pc, 0x1234);
}

#[test]
fn new_engine_is_zeroed() {
    let cpu = Cpu::new();
    assert_eq!(cpu.register, CpuRegister::new());
    assert!(!cpu.halted);
    assert_eq!(cpu.register.get_reg8(Reg8Name::A), 0);
}
