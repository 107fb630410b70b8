use gbemu::instructions::{decode, decode_bytes, Instruction};
use gbemu::mmu::Mmu;
use gbemu::register::{BitFlag, Reg16Name, Reg8Name};
use gbemu::rom::load_rom;

fn bus_with_rom(image: Vec<u8>) -> Mmu {
    Mmu::new(load_rom(&image).expect("a plain ROM image loads"))
}

fn blank_bus() -> Mmu {
    bus_with_rom(vec![0u8; 0x8000])
}

#[test]
fn echo_ram_mirrors_work_ram() {
    let mut mmu = blank_bus();
    mmu.write8(0xE123, 0x5A);
    assert_eq!(mmu.read8(0xE123), 0x5A);
    assert_eq!(mmu.read8(0xC123), 0x5A);
    mmu.write8(0xFDFF, 0x11);
    assert_eq!(mmu.read8(0xDDFF), 0x11);
    mmu.write8(0xC000, 0x22);
    assert_eq!(mmu.read8(0xE000), 0x22);
}

#[test]
fn unusable_block_reads_zero_and_ignores_writes() {
    let mut mmu = blank_bus();
    mmu.write8(0xFEA0, 0x99);
    mmu.write8(0xFEFF, 0x99);
    assert_eq!(mmu.read8(0xFEA0), 0);
    assert_eq!(mmu.read8(0xFEFF), 0);
}

#[test]
fn rom_is_read_only() {
    let mut image = vec![0u8; 0x8000];
    image[0x0200] = 0xAB;
    image[0x4000] = 0xCD;
    image[0x7FFF] = 0xEF;
    let mut mmu = bus_with_rom(image);
    assert_eq!(mmu.read8(0x0200), 0xAB);
    assert_eq!(mmu.read8(0x4000), 0xCD);
    assert_eq!(mmu.read8(0x7FFF), 0xEF);
    mmu.write8(0x0200, 0x00);
    assert_eq!(mmu.read8(0x0200), 0xAB);
    assert_eq!(mmu.read8(0xA000), 0);
    mmu.write8(0xA000, 0x12);
    assert_eq!(mmu.read8(0xA000), 0);
}

#[test]
fn every_ram_region_stores_bytes() {
    let mut mmu = blank_bus();
    for (addr, v) in [
        (0x8000u16, 1u8),
        (0x9FFF, 2),
        (0xCFFF, 3),
        (0xD000, 4),
        (0xFE00, 5),
        (0xFE9F, 6),
        (0xFF00, 7),
        (0xFF7F, 8),
        (0xFF80, 9),
        (0xFFFE, 10),
        (0xFFFF, 11),
    ] {
        mmu.write8(addr, v);
        assert_eq!(mmu.read8(addr), v);
    }
}

#[test]
fn words_are_little_endian() {
    let mut mmu = blank_bus();
    mmu.write16(0xC100, 0xBEEF);
    assert_eq!(mmu.read8(0xC100), 0xEF);
    assert_eq!(mmu.read8(0xC101), 0xBE);
    assert_eq!(mmu.read16(0xC100), 0xBEEF);
}

#[test]
fn word_at_top_of_address_space_uses_only_interrupt_byte() {
    let mut mmu = blank_bus();
    mmu.write16(0xFFFF, 0x1234);
    assert_eq!(mmu.read8(0xFFFF), 0x34);
    assert_eq!(mmu.read8(0x0000), 0x00);
    assert_eq!(mmu.read16(0xFFFF), 0x0034);
}

#[test]
fn push_then_pop_restores_stack_pointer() {
    let mut mmu = blank_bus();
    let mut sp: u16 = 0xFFFE;
    mmu.push_stack(&mut sp, 0xBEEF);
    assert_eq!(sp, 0xFFFC);
    let v = mmu.pop_stack(&mut sp);
    assert_eq!(v, 0xBEEF);
    assert_eq!(sp, 0xFFFE);
    let mut sp2: u16 = 0xE002;
    mmu.push_stack(&mut sp2, 0x0102);
    assert_eq!(mmu.read8(0xC000), 0x02);
    assert_eq!(mmu.pop_stack(&mut sp2), 0x0102);
    assert_eq!(sp2, 0xE002);
}

#[test]
fn interrupts_start_disabled() {
    let mut mmu = blank_bus();
    assert!(!mmu.interrupts_enabled());
    mmu.enable_interrupts();
    assert!(mmu.interrupts_enabled());
    mmu.disable_interrupts();
    assert!(!mmu.interrupts_enabled());
}

#[test]
fn decode_reads_operands_little_endian() {
    assert_eq!(decode_bytes(0x01, 0x34, 0x12), Instruction::LdR16D16(Reg16Name::BC, 0x1234));
    assert_eq!(decode_bytes(0x01, 0x34, 0x12).get_size(), 3);
    assert_eq!(decode_bytes(0xC3, 0x50, 0x01), Instruction::JpA16(0x0150));
    assert_eq!(decode_bytes(0x18, 0xFE, 0x00), Instruction::JrA8(-2));
    assert_eq!(decode_bytes(0x3E, 0x42, 0x99), Instruction::LdR8D8(Reg8Name::A, 0x42));
    assert_eq!(decode_bytes(0x3E, 0x42, 0x99).get_size(), 2);
}

#[test]
fn decode_cb_table() {
    assert_eq!(decode_bytes(0xCB, 0x40, 0x00), Instruction::BitR8(0, Reg8Name::B));
    assert_eq!(decode_bytes(0xCB, 0x7E, 0x00), Instruction::BitAR16(7, Reg16Name::HL));
    assert_eq!(decode_bytes(0xCB, 0x37, 0x00), Instruction::SwapR8(Reg8Name::A));
    assert_eq!(decode_bytes(0xCB, 0xFF, 0x00), Instruction::SetR8(7, Reg8Name::A));
    assert_eq!(decode_bytes(0xCB, 0x86, 0x00), Instruction::ResAR16(0, Reg16Name::HL));
    assert_eq!(decode_bytes(0xCB, 0x40, 0x00).get_size(), 2);
}

#[test]
fn decode_unused_opcodes_as_nop() {
    for op in [0xD3u8, 0xDB, 0xDD, 0xE3, 0xE4, 0xEB, 0xEC, 0xED, 0xF4, 0xFC, 0xFD] {
        assert_eq!(decode_bytes(op, 0x12, 0x34), Instruction::Nop);
        assert_eq!(decode_bytes(op, 0x12, 0x34).get_size(), 1);
    }
}

#[test]
fn decode_misc_opcodes() {
    assert_eq!(decode_bytes(0x76, 0, 0), Instruction::Halt);
    assert_eq!(decode_bytes(0x36, 0x5A, 0), Instruction::LdAR16D8(Reg16Name::HL, 0x5A));
    assert_eq!(decode_bytes(0xF2, 0, 0), Instruction::LdhR8AR8(Reg8Name::A, Reg8Name::C));
    assert_eq!(decode_bytes(0xE2, 0, 0), Instruction::LdhAR8R8(Reg8Name::C, Reg8Name::A));
    assert_eq!(decode_bytes(0xC2, 0x00, 0x40), Instruction::JpNfA16(BitFlag::Z, 0x4000));
    assert_eq!(decode_bytes(0xDC, 0x00, 0x40), Instruction::CallFA16(BitFlag::C, 0x4000));
    assert_eq!(decode_bytes(0xEF, 0, 0), Instruction::Rst(0x28));
    assert_eq!(decode_bytes(0xF8, 0x80, 0), Instruction::LdhlR16D8(Reg16Name::SP, -128));
    assert_eq!(decode_bytes(0xBE, 0, 0), Instruction::CpR8AR16(Reg8Name::A, Reg16Name::HL));
}

#[test]
fn decoding_at_address_plus_size_finds_next_instruction() {
    let mut image = vec![0u8; 0x8000];
    let program = [0x01u8, 0x34, 0x12, 0x3E, 0x07, 0xCB, 0x40, 0x3C, 0xCD, 0x00, 0x02];
    image[0x150..0x150 + program.len()].copy_from_slice(&program);
    let mmu = bus_with_rom(image);
    let mut addr: u16 = 0x150;
    let mut seen = Vec::new();
    for _ in 0..5 {
        let ins = decode(&mmu, addr);
        seen.push(ins);
        addr += ins.get_size() as u16;
    }
    assert_eq!(
        seen,
        vec![
            Instruction::LdR16D16(Reg16Name::BC, 0x1234),
            Instruction::LdR8D8(Reg8Name::A, 0x07),
            Instruction::BitR8(0, Reg8Name::B),
            Instruction::IncR8(Reg8Name::A),
            Instruction::CallA16(0x0200),
        ]
    );
    assert_eq!(addr, 0x150 + program.len() as u16);
}
