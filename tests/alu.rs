use gbemu::register::{BitFlag, CpuRegister, Reg16Name, Reg8Name};
use gbemu::shared::{
    add, add16, high_nibble, join_u8, low_nibble, nth_bit, nth_bit16, rotate_left1,
    rotate_left_carry1, rotate_right1, rotate_right_carry1, shift_left1, shift_right1_arithmetic,
    shift_right1_logical, split_u16, sub, swap16, swap8,
};

#[test]
fn add8_wraps_and_reports_carries() {
    assert_eq!(add(0xFF, 0x01, false), (0x00, true, true));
    assert_eq!(add(0x0F, 0x01, false), (0x10, false, true));
    assert_eq!(add(0x12, 0x34, true), (0x47, false, false));
    assert_eq!(add(0x80, 0x80, true), (0x01, true, false));
    assert_eq!(add(0xFF, 0xFF, true), (0xFF, true, true));
}

#[test]
fn add8_matches_modular_sum_for_all_inputs() {
    for a in 0..=255u8 {
        for b in 0..=255u8 {
            for c in [false, true] {
                let sum = a as u32 + b as u32 + c as u32;
                let (r, carry, half) = add(a, b, c);
                assert_eq!(r as u32, sum % 256);
                assert_eq!(carry, sum > 255);
                assert_eq!(half, (a & 0xF) as u32 + (b & 0xF) as u32 + c as u32 > 15);
            }
        }
    }
}

#[test]
fn sub8_wraps_and_reports_borrows() {
    assert_eq!(sub(0x00, 0x01, false), (0xFF, true, true));
    assert_eq!(sub(0x10, 0x01, false), (0x0F, false, true));
    assert_eq!(sub(0x3E, 0x3E, false), (0x00, false, false));
    assert_eq!(sub(0x3E, 0x0F, true), (0x2E, false, true));
}

#[test]
fn add16_carries_out_of_bit_11_and_15() {
    assert_eq!(add16(0x0FFF, 0x0001, false), (0x1000, false, true));
    assert_eq!(add16(0xFFFF, 0x0001, false), (0x0000, true, true));
    assert_eq!(add16(0x1234, 0x1111, true), (0x2346, false, false));
}

#[test]
fn rotates_and_shifts_report_the_bit_shifted_out() {
    assert_eq!(rotate_left1(0x85), (0x0B, true));
    assert_eq!(rotate_right1(0x01), (0x80, true));
    assert_eq!(rotate_left_carry1(0x80, false), (0x00, true));
    assert_eq!(rotate_left_carry1(0x01, true), (0x03, false));
    assert_eq!(rotate_right_carry1(0x01, true), (0x80, true));
    assert_eq!(shift_left1(0x81), (0x02, true));
    assert_eq!(shift_right1_arithmetic(0x81), (0xC0, true));
    assert_eq!(shift_right1_logical(0x81), (0x40, true));
    assert_eq!(shift_right1_logical(0x02), (0x01, false));
}

#[test]
fn nibbles_bits_and_words() {
    assert_eq!(high_nibble(0xA5), 0x0A);
    assert_eq!(low_nibble(0xA5), 0x05);
    let mut v: u8 = 0xA5;
    swap8(&mut v);
    assert_eq!(v, 0x5A);
    assert_eq!(swap16(0x1234), 0x3412);
    assert_eq!(split_u16(0xBEEF), (0xBE, 0xEF));
    assert_eq!(join_u8(0xBE, 0xEF), 0xBEEF);
    assert!(nth_bit(0b1000_0000, 7));
    assert!(!nth_bit(0b1000_0000, 6));
    assert!(nth_bit16(0x8000, 15));
    assert!(!nth_bit16(0x8000, 0));
}

#[test]
fn register_pairs_write_through_byte_registers() {
    let mut r = CpuRegister::new();
    r.set_reg16(Reg16Name::BC, 0x1234);
    assert_eq!((r.b, r.c), (0x12, 0x34));
    r.set_reg16(Reg16Name::DE, 0x5678);
    assert_eq!((r.d, r.e), (0x56, 0x78));
    r.set_reg16(Reg16Name::HL, 0x9ABC);
    assert_eq!((r.h, r.l), (0x9A, 0xBC));
    assert_eq!(r.a, 0);
    r.set_reg16(Reg16Name::AF, 0x12FF);
    assert_eq!((r.a, r.f), (0x12, 0xF0));
    r.set_reg16(Reg16Name::SP, 0xFFFE);
    r.set_reg16(Reg16Name::PC, 0x0100);
    assert_eq!(r.get_reg16(Reg16Name::HL), 0x9ABC);
    assert_eq!(r.get_reg16(Reg16Name::AF), 0x12F0);
    assert_eq!(r.get_reg16(Reg16Name::SP), 0xFFFE);
    assert_eq!(r.get_reg16(Reg16Name::PC), 0x0100);
}

#[test]
fn flag_register_keeps_low_nibble_clear() {
    let mut r = CpuRegister::new();
    r.set_reg8(Reg8Name::F, 0xFF);
    assert_eq!(r.f, 0xF0);
    r.set_reg8(Reg8Name::A, 0xFF);
    assert_eq!(r.get_reg8(Reg8Name::A), 0xFF);
}

#[test]
fn flags_set_and_clear_one_at_a_time() {
    let mut r = CpuRegister::new();
    r.set_flag(BitFlag::Z);
    r.set_flag(BitFlag::C);
    assert_eq!(r.f, 0x90);
    assert!(r.flag_is_set(BitFlag::Z));
    assert!(r.flag_is_unset(BitFlag::N));
    assert!(r.flag_is_unset(BitFlag::H));
    assert!(r.flag_is_set(BitFlag::C));
    r.clear_flag(BitFlag::C);
    assert_eq!(r.f, 0x80);
    assert!(r.flag_is_unset(BitFlag::C));
    r.set_flags(false, true, true, false);
    assert_eq!(r.f, 0x60);
}
