use vstd::prelude::*;

use crate::shared::word_of;

verus! {

/// Size of one ROM bank.
pub const BLOCK_SIZE: usize = 0x4000;

/// The first address after the cartridge header.
pub const HEADER_END: usize = 0x150;

/// The memory bank controller a cartridge declares.
#[derive(Clone, Copy, Debug, PartialEq, Eq, Structural)]
pub enum CartridgeType {
    ROM,
    MBC1,
    MBC2,
    MBC3,
    MBC5,
}

/// Whether a cartridge uses the color hardware.
#[derive(Clone, Copy, Debug, PartialEq, Eq, Structural)]
pub enum ColorSupport {
    NotSupported,
    Supported,
    Required,
}

/// Why a ROM image could not be loaded.
#[derive(Clone, Copy, Debug, PartialEq, Eq, Structural)]
pub enum RomError {
    /// The image ends before the end of the header.
    HeaderTooShort,
    /// The cartridge type byte names no known controller.
    UnknownCartridgeType(u8),
    /// The ROM size byte is not a known code.
    UnrecognizedRomSize(u8),
    /// The cartridge uses a bank controller, which is not emulated.
    UnsupportedCartridge,
}

/// The fields of a cartridge header.
#[derive(Debug)]
pub struct CartridgeHeader {
    pub title: String,
    pub color: ColorSupport,
    pub model: CartridgeType,
    pub logo: Vec<u8>,
    pub rom_size_kb: u16,
    pub rom_banks: u16,
    pub ram_size_kb: u16,
    pub ram_banks: u16,
    pub japanese: bool,
    pub checksum: u8,
}

/// The controller named by a cartridge type byte.
pub open spec fn cartridge_type_of(code: u8) -> Option<CartridgeType> {
    if code == 0x00 {
        Some(CartridgeType::ROM)
    } else if 0x01 <= code <= 0x03 {
        Some(CartridgeType::MBC1)
    } else if code == 0x05 || code == 0x06 {
        Some(CartridgeType::MBC2)
    } else if 0x0f <= code <= 0x13 {
        Some(CartridgeType::MBC3)
    } else if 0x19 <= code <= 0x1e {
        Some(CartridgeType::MBC5)
    } else {
        None
    }
}

/// ROM size in KiB and bank count for a ROM size byte.
pub open spec fn rom_size_of(code: u8) -> Option<(u16, u16)> {
    if code == 0 {
        Some((32, 1))
    } else if code == 1 {
        Some((64, 4))
    } else if code == 2 {
        Some((128, 8))
    } else if code == 3 {
        Some((256, 16))
    } else if code == 4 {
        Some((512, 32))
    } else if code == 5 {
        Some((1024, 64))
    } else if code == 6 {
        Some((2048, 128))
    } else if code == 7 {
        Some((4096, 256))
    } else if code == 8 {
        Some((8192, 512))
    } else {
        None
    }
}

/// RAM size in KiB and bank count for a RAM size byte; unknown codes mean none.
pub open spec fn ram_size_of(code: u8) -> (u16, u16) {
    if code == 1 {
        (2, 0)
    } else if code == 2 {
        (8, 0)
    } else if code == 3 {
        (32, 4)
    } else if code == 4 {
        (128, 16)
    } else if code == 5 {
        (64, 8)
    } else {
        (0, 0)
    }
}

/// Color support for the color flag byte.
pub open spec fn color_of(code: u8) -> ColorSupport {
    if code == 0x80 {
        ColorSupport::Supported
    } else if code == 0xc0 {
        ColorSupport::Required
    } else {
        ColorSupport::NotSupported
    }
}

/// The title: header bytes 0x134..0x143, one character per byte.
pub open spec fn title_of(dat: Seq<u8>) -> Seq<char> {
    Seq::new(15, |i: int| dat[0x134 + i] as char)
}

/// Why an image's header cannot be parsed, if it cannot.
pub open spec fn header_error(dat: Seq<u8>) -> Option<RomError> {
    if dat.len() < 0x150 {
        Some(RomError::HeaderTooShort)
    } else if cartridge_type_of(dat[0x147]) is None {
        Some(RomError::UnknownCartridgeType(dat[0x147]))
    } else if rom_size_of(dat[0x148]) is None {
        Some(RomError::UnrecognizedRomSize(dat[0x148]))
    } else {
        None
    }
}

impl CartridgeHeader {
    /// This header holds the fields that the image's header bytes encode.
    pub open spec fn describes(&self, dat: Seq<u8>) -> bool {
        &&& self.title@ == title_of(dat)
        &&& self.color == color_of(dat[0x143])
        &&& Some(self.model) == cartridge_type_of(dat[0x147])
        &&& self.logo@ == dat.subrange(0x104, 0x133)
        &&& Some((self.rom_size_kb, self.rom_banks)) == rom_size_of(dat[0x148])
        &&& (self.ram_size_kb, self.ram_banks) == ram_size_of(dat[0x149])
        &&& self.japanese == (dat[0x14a] == 0)
        &&& self.checksum == dat[0x14d]
    }
}

/// Relies on String::push: appends one character to the string.
#[verifier::external_body]
fn push_char(s: &mut String, c: char)
    ensures
        final(s)@ == old(s)@.push(c),
{
    s.push(c);
}

fn parse_cartridge_type(code: u8) -> (r: Result<CartridgeType, RomError>)
    ensures
        match r {
            Ok(t) => cartridge_type_of(code) == Some(t),
            Err(e) => cartridge_type_of(code) is None && e == RomError::UnknownCartridgeType(code),
        },
{
    match code {
        0x00 => Ok(CartridgeType::ROM),
        0x1 | 0x2 | 0x3 => Ok(CartridgeType::MBC1),
        0x5 | 0x6 => Ok(CartridgeType::MBC2),
        0xf | 0x10 | 0x11 | 0x12 | 0x13 => Ok(CartridgeType::MBC3),
        0x19 | 0x1a | 0x1b | 0x1c | 0x1d | 0x1e => Ok(CartridgeType::MBC5),
        _ => Err(RomError::UnknownCartridgeType(code)),
    }
}

fn parse_rom_size(code: u8) -> (r: Result<(u16, u16), RomError>)
    ensures
        match r {
            Ok(s) => rom_size_of(code) == Some(s),
            Err(e) => rom_size_of(code) is None && e == RomError::UnrecognizedRomSize(code),
        },
{
    match code {
        0x0 => Ok((32, 1)),
        0x1 => Ok((64, 4)),
        0x2 => Ok((128, 8)),
        0x3 => Ok((256, 16)),
        0x4 => Ok((512, 32)),
        0x5 => Ok((1024, 64)),
        0x6 => Ok((2048, 128)),
        0x7 => Ok((4096, 256)),
        0x8 => Ok((8192, 512)),
        _ => Err(RomError::UnrecognizedRomSize(code)),
    }
}

fn parse_ram_size(code: u8) -> (r: (u16, u16))
    ensures
        r == ram_size_of(code),
{
    match code {
        0x1 => (2, 0),
        0x2 => (8, 0),
        0x3 => (32, 4),
        0x4 => (128, 16),
        0x5 => (64, 8),
        _ => (0, 0),
    }
}

/// Reads the cartridge header from a ROM image.
pub fn parse_header(dat: &Vec<u8>) -> (r: Result<CartridgeHeader, RomError>)
    ensures
        match r {
            Ok(h) => header_error(dat@) is None && h.describes(dat@),
            Err(e) => header_error(dat@) == Some(e),
        },
{
    if dat.len() < HEADER_END {
        return Err(RomError::HeaderTooShort);
    }
    let model = match parse_cartridge_type(dat[0x0147]) {
        Ok(m) => m,
        Err(e) => return Err(e),
    };
    let (romsize, rombanks) = match parse_rom_size(dat[0x0148]) {
        Ok(s) => s,
        Err(e) => return Err(e),
    };
    let (ramsize, rambanks) = parse_ram_size(dat[0x0149]);
    let mut title = String::new();
    let mut i: usize = 0x0134;
    while i < 0x0143
        invariant
            0x0134 <= i <= 0x0143,
            dat@.len() >= 0x150,
            title@ == Seq::new((i - 0x134) as nat, |k: int| dat@[0x134 + k] as char),
        decreases 0x0143 - i,
    {
        push_char(&mut title, dat[i] as char);
        i = i + 1;
        assert(title@ =~= Seq::new((i - 0x134) as nat, |k: int| dat@[0x134 + k] as char));
    }
    assert(title@ =~= title_of(dat@));
    let color = match dat[0x0143] {
        0x80 => ColorSupport::Supported,
        0xc0 => ColorSupport::Required,
        _ => ColorSupport::NotSupported,
    };
    let mut logo: Vec<u8> = Vec::new();
    let mut j: usize = 0x104;
    while j < 0x0133
        invariant
            0x104 <= j <= 0x0133,
            dat@.len() >= 0x150,
            logo@ == dat@.subrange(0x104, j as int),
        decreases 0x0133 - j,
    {
        logo.push(dat[j]);
        j = j + 1;
        assert(logo@ =~= dat@.subrange(0x104, j as int));
    }
    Ok(
        CartridgeHeader {
            title,
            color,
            model,
            logo,
            rom_size_kb: romsize,
            rom_banks: rombanks,
            ram_size_kb: ramsize,
            ram_banks: rambanks,
            japanese: dat[0x014a] == 0x00,
            checksum: dat[0x014d],
        },
    )
}

/// Byte `i` of an image padded with zeros past its end.
pub open spec fn padded_byte(dat: Seq<u8>, i: int) -> u8 {
    if 0 <= i < dat.len() {
        dat[i]
    } else {
        0
    }
}

/// How many ROM banks an image of `n` bytes fills.
pub open spec fn block_count(n: nat) -> nat {
    (n + 0x3fff) / 0x4000
}

/// Cuts an image into 16 KiB banks; the last one is padded with zeros.
pub fn split_to_blocks(dat: &Vec<u8>) -> (r: Vec<Vec<u8>>)
    ensures
        r@.len() == block_count(dat@.len()),
        forall|i: int|
            0 <= i < r@.len() ==> (#[trigger] r@[i])@.len() == BLOCK_SIZE && forall|j: int|
                0 <= j < BLOCK_SIZE ==> (#[trigger] r@[i]@[j]) == padded_byte(
                    dat@,
                    i * 0x4000 + j,
                ),
{
    let size: usize = BLOCK_SIZE;
    let end_address = dat.len();
    let count: usize = end_address / size + if end_address % size == 0 {
        0
    } else {
        1
    };
    let mut res: Vec<Vec<u8>> = Vec::new();
    let mut i: usize = 0;
    while i < count
        invariant
            size == 0x4000,
            end_address == dat@.len(),
            count == block_count(dat@.len()),
            i <= count,
            res@.len() == i,
            forall|b: int|
                0 <= b < i ==> (#[trigger] res@[b])@.len() == 0x4000 && forall|j: int|
                    0 <= j < 0x4000 ==> (#[trigger] res@[b]@[j]) == padded_byte(
                        dat@,
                        b * 0x4000 + j,
                    ),
        decreases count - i,
    {
        assert(i * 0x4000 <= end_address) by (nonlinear_arith)
            requires
                i < count,
                count == end_address / 0x4000 + if end_address % 0x4000 == 0 {
                    0int
                } else {
                    1
                },
        ;
        let offset = i * size;
        let mut block: Vec<u8> = Vec::new();
        let mut j: usize = 0;
        while j < size
            invariant
                size == 0x4000,
                end_address == dat@.len(),
                offset == i * 0x4000,
                offset <= end_address,
                j <= size,
                block@.len() == j,
                forall|k: int|
                    0 <= k < j ==> (#[trigger] block@[k]) == padded_byte(dat@, offset + k),
            decreases size - j,
        {
            let v: u8 = if j < end_address - offset {
                dat[offset + j]
            } else {
                0
            };
            block.push(v);
            j = j + 1;
        }
        res.push(block);
        i = i + 1;
    }
    res
}

/// What a memory bus needs of a cartridge: its bytes, and its header.
pub trait Cartridge {
    /// The byte the cartridge shows at an address.
    spec fn byte(&self, addr: u16) -> u8;

    /// The parsed header.
    fn get_header(&self) -> &CartridgeHeader;

    /// Maps another bank into the switchable ROM window.
    fn swap_block_1(&mut self, bank: usize);

    /// Reads one byte.
    fn read8(&self, addr: u16) -> (r: u8)
        ensures
            r == self.byte(addr),
    ;

    /// Reads a little-endian word; past the last address the high byte is zero.
    fn read16(&self, addr: u16) -> (r: u16)
        ensures
            r == word_of(
                if addr < 0xffff {
                    self.byte((addr + 1) as u16)
                } else {
                    0
                },
                self.byte(addr),
            ),
    ;
}

/// A cartridge without a bank controller: two fixed 16 KiB ROM banks and no RAM.
pub struct RomCartridge {
    header: CartridgeHeader,
    memory: Vec<Vec<u8>>,
}

impl RomCartridge {
    /// The byte at an address of the ROM window, zero where the image has none
    /// and outside 0x0000..0x8000.
    pub closed spec fn rom_byte(&self, addr: int) -> u8 {
        let bank = addr / 0x4000;
        let off = addr % 0x4000;
        if 0 <= addr < 0x8000 && bank < self.memory@.len() && off < self.memory@[bank]@.len() {
            self.memory@[bank]@[off]
        } else {
            0
        }
    }

    /// The header this cartridge was built from.
    pub closed spec fn header_spec(&self) -> &CartridgeHeader {
        &self.header
    }
}

impl Cartridge for RomCartridge {
    open spec fn byte(&self, addr: u16) -> u8 {
        self.rom_byte(addr as int)
    }

    fn get_header(&self) -> (r: &CartridgeHeader)
        ensures
            r == self.header_spec(),
    {
        &self.header
    }

    /// Does nothing: without a bank controller the banks are fixed.
    fn swap_block_1(&mut self, _bank: usize)
        ensures
            *final(self) == *old(self),
    {
    }

    fn read8(&self, addr: u16) -> (r: u8) {
        let bank: usize = (addr / 0x4000) as usize;
        let off: usize = (addr % 0x4000) as usize;
        if addr < 0x8000 && bank < self.memory.len() && off < self.memory[bank].len() {
            self.memory[bank][off]
        } else {
            0
        }
    }

    fn read16(&self, addr: u16) -> (r: u16) {
        let lo = self.read8(addr);
        let hi = if addr < 0xffff {
            self.read8(addr + 1)
        } else {
            0
        };
        crate::shared::join_u8(hi, lo)
    }
}

fn parse_rom(header: CartridgeHeader, data: &Vec<u8>) -> (r: Result<RomCartridge, RomError>)
    ensures
        match r {
            Ok(c) => header.model == CartridgeType::ROM && *c.header_spec() == header && forall|
                a: int,
            | 0 <= a < 0x8000 ==> #[trigger] c.rom_byte(a) == padded_byte(data@, a),
            Err(e) => header.model != CartridgeType::ROM && e == RomError::UnsupportedCartridge,
        },
{
    match header.model {
        CartridgeType::ROM => {
            let memory = split_to_blocks(data);
            let c = RomCartridge { header, memory };
            assert forall|a: int| 0 <= a < 0x8000 implies #[trigger] c.rom_byte(a) == padded_byte(
                data@,
                a,
            ) by {
                let bank = a / 0x4000;
                let off = a % 0x4000;
                assert(a == bank * 0x4000 + off);
                if bank < c.memory@.len() {
                    assert(c.memory@[bank]@[off] == padded_byte(data@, bank * 0x4000 + off));
                } else {
                    assert(a >= data@.len());
                }
            }
            Ok(c)
        },
        _ => Err(RomError::UnsupportedCartridge),
    }
}

/// Why an image cannot be loaded as a cartridge, if it cannot.
pub open spec fn load_error(dat: Seq<u8>) -> Option<RomError> {
    if header_error(dat) is Some {
        header_error(dat)
    } else if cartridge_type_of(dat[0x147]) != Some(CartridgeType::ROM) {
        Some(RomError::UnsupportedCartridge)
    } else {
        None
    }
}

/// Builds a cartridge from a ROM image: parses its header and keeps its
/// banks. Only cartridges without a bank controller are accepted.
pub fn load_rom(bytes: &Vec<u8>) -> (r: Result<RomCartridge, RomError>)
    ensures
        match r {
            Ok(c) => load_error(bytes@) is None && c.header_spec().describes(bytes@) && forall|
                a: u16,
            | #[trigger] c.byte(a) == (if a < 0x8000 {
                padded_byte(bytes@, a as int)
            } else {
                0
            }),
            Err(e) => load_error(bytes@) == Some(e),
        },
{
    let header = match parse_header(bytes) {
        Ok(h) => h,
        Err(e) => return Err(e),
    };
    let r = parse_rom(header, bytes);
    proof {
        if r is Ok {
            let c = r->Ok_0;
            assert forall|a: u16| #[trigger] c.byte(a) == (if a < 0x8000 {
                padded_byte(bytes@, a as int)
            } else {
                0
            }) by {
                if a < 0x8000 {
                    assert(c.rom_byte(a as int) == padded_byte(bytes@, a as int));
                }
            }
        }
    }
    r
}

} // verus!
