use gbemu::rom::{
    load_rom, parse_header, split_to_blocks, Cartridge, CartridgeType, ColorSupport, RomError,
};

fn image_with(kind: u8, rom_size: u8) -> Vec<u8> {
    let mut image = vec![0u8; 0x8000];
    image[0x147] = kind;
    image[0x148] = rom_size;
    image
}

#[test]
fn header_fields_are_read() {
    let mut image = image_with(0x00, 0x00);
    image[0x134..0x134 + 6].copy_from_slice(b"TETRIS");
    image[0x143] = 0x80;
    image[0x149] = 0x03;
    image[0x14A] = 0x01;
    image[0x14D] = 0x0A;
    image[0x104] = 0xCE;
    let h = parse_header(&image).expect("header parses");
    assert_eq!(h.title.len(), 15);
    assert!(h.title.starts_with("TETRIS"));
    assert_eq!(h.color, ColorSupport::Supported);
    assert_eq!(h.model, CartridgeType::ROM);
    assert_eq!((h.rom_size_kb, h.rom_banks), (32, 1));
    assert_eq!((h.ram_size_kb, h.ram_banks), (32, 4));
    assert!(!h.japanese);
    assert_eq!(h.checksum, 0x0A);
    assert_eq!(h.logo.len(), 0x2F);
    assert_eq!(h.logo[0], 0xCE);
}

#[test]
fn header_codes_map_to_sizes_and_types() {
    let mut image = image_with(0x13, 0x05);
    image[0x143] = 0xC0;
    let h = parse_header(&image).expect("header parses");
    assert_eq!(h.model, CartridgeType::MBC3);
    assert_eq!((h.rom_size_kb, h.rom_banks), (1024, 64));
    assert_eq!(h.color, ColorSupport::Required);
    assert!(h.japanese);
    assert_eq!((h.ram_size_kb, h.ram_banks), (0, 0));
}

#[test]
fn short_image_is_rejected() {
    assert_eq!(parse_header(&vec![0u8; 0x14F]).err(), Some(RomError::HeaderTooShort));
    assert_eq!(load_rom(&Vec::new()).err(), Some(RomError::HeaderTooShort));
}

#[test]
fn unknown_cartridge_type_is_rejected() {
    assert_eq!(
        load_rom(&image_with(0x04, 0x00)).err(),
        Some(RomError::UnknownCartridgeType(0x04))
    );
}

#[test]
fn unknown_rom_size_is_rejected() {
    assert_eq!(
        load_rom(&image_with(0x00, 0x09)).err(),
        Some(RomError::UnrecognizedRomSize(0x09))
    );
}

#[test]
fn banked_cartridge_is_not_supported() {
    assert_eq!(load_rom(&image_with(0x01, 0x01)).err(), Some(RomError::UnsupportedCartridge));
}

#[test]
fn rom_cartridge_reads_its_image() {
    let mut image = image_with(0x00, 0x00);
    image[0x3FFF] = 0x11;
    image[0x4000] = 0x22;
    image[0x7FFF] = 0x33;
    let mut cart = load_rom(&image).expect("loads");
    assert_eq!(cart.read8(0x3FFF), 0x11);
    assert_eq!(cart.read8(0x4000), 0x22);
    assert_eq!(cart.read16(0x3FFF), 0x2211);
    assert_eq!(cart.read16(0x7FFF), 0x0033);
    assert_eq!(cart.read8(0x8000), 0);
    cart.swap_block_1(3);
    assert_eq!(cart.read8(0x4000), 0x22);
    assert_eq!(cart.get_header().model, CartridgeType::ROM);
}

#[test]
fn short_image_reads_zero_past_its_end() {
    let mut image = vec![0u8; 0x150];
    image[0x14F] = 0x77;
    let cart = load_rom(&image).expect("loads");
    assert_eq!(cart.read8(0x14F), 0x77);
    assert_eq!(cart.read8(0x150), 0);
    assert_eq!(cart.read8(0x4000), 0);
}

#[test]
fn blocks_are_padded_with_zeros() {
    let mut data = vec![1u8; 0x4001];
    data[0x4000] = 9;
    let blocks = split_to_blocks(&data);
    assert_eq!(blocks.len(), 2);
    assert_eq!(blocks[0].len(), 0x4000);
    assert_eq!(blocks[1].len(), 0x4000);
    assert_eq!(blocks[1][0], 9);
    assert_eq!(blocks[1][1], 0);
    assert_eq!(split_to_blocks(&vec![0u8; 0x8000]).len(), 2);
    assert_eq!(split_to_blocks(&Vec::new()).len(), 0);
}
