use vstd::prelude::*;

use crate::shared::{hi_byte, join_u8, lo_byte, split_u16, word_of};

verus! {

/// The eight single-byte registers.
#[derive(Clone, Copy, Debug, PartialEq, Eq, Structural)]
pub enum Reg8Name {
    A,
    B,
    C,
    D,
    E,
    F,
    H,
    L,
}

/// The register pairs and the two native 16-bit registers.
#[derive(Clone, Copy, Debug, PartialEq, Eq, Structural)]
pub enum Reg16Name {
    AF,
    BC,
    DE,
    HL,
    SP,
    PC,
}

/// The four flags held in the upper nibble of F.
#[derive(Clone, Copy, Debug, PartialEq, Eq, Structural)]
pub enum BitFlag {
    /// Zero: set when the result of an operation is zero.
    Z,
    /// Subtract: set when the last arithmetic operation was a subtraction.
    N,
    /// Half carry: carry out of (or borrow into) the low nibble.
    H,
    /// Carry: carry out of the top bit, a borrow, or the bit shifted out.
    C,
}

/// The bit of F that holds a flag.
pub open spec fn flag_weight(flag: BitFlag) -> u8 {
    match flag {
        BitFlag::Z => 0x80,
        BitFlag::N => 0x40,
        BitFlag::H => 0x20,
        BitFlag::C => 0x10,
    }
}

/// Whether a flag is set in a flag byte.
pub open spec fn has_flag(f: u8, flag: BitFlag) -> bool {
    (f / flag_weight(flag)) % 2 == 1
}

/// The flag byte with exactly the given flags set (low nibble zero).
pub open spec fn pack_flags(z: bool, n: bool, h: bool, c: bool) -> u8 {
    ((if z {
        0x80u8
    } else {
        0u8
    }) + (if n {
        0x40u8
    } else {
        0u8
    }) + (if h {
        0x20u8
    } else {
        0u8
    }) + (if c {
        0x10u8
    } else {
        0u8
    })) as u8
}

proof fn lemma_pack_bits(z: bool, n: bool, h: bool, c: bool)
    by (bit_vector)
    ensures
        ((pack_flags(z, n, h, c) / 0x80) % 2 == 1) == z,
        ((pack_flags(z, n, h, c) / 0x40) % 2 == 1) == n,
        ((pack_flags(z, n, h, c) / 0x20) % 2 == 1) == h,
        ((pack_flags(z, n, h, c) / 0x10) % 2 == 1) == c,
        pack_flags(z, n, h, c) % 16 == 0,
{
}

/// Each flag reads back as packed, and the low nibble stays zero.
pub proof fn lemma_pack_flags(z: bool, n: bool, h: bool, c: bool)
    ensures
        has_flag(pack_flags(z, n, h, c), BitFlag::Z) == z,
        has_flag(pack_flags(z, n, h, c), BitFlag::N) == n,
        has_flag(pack_flags(z, n, h, c), BitFlag::H) == h,
        has_flag(pack_flags(z, n, h, c), BitFlag::C) == c,
        pack_flags(z, n, h, c) % 16 == 0,
{
    lemma_pack_bits(z, n, h, c);
}

/// A byte with its low nibble cleared, as F stores it.
pub open spec fn flag_bits(v: u8) -> u8 {
    (v - v % 16) as u8
}

/// Every value that F is given keeps its low nibble zero.
pub proof fn lemma_flag_byte_values()
    ensures
        forall|z: bool, n: bool, h: bool, c: bool| #[trigger] pack_flags(z, n, h, c) % 16 == 0,
        forall|v: u8| #[trigger] flag_bits(v) % 16 == 0,
{
    assert forall|z: bool, n: bool, h: bool, c: bool|
        #[trigger] pack_flags(z, n, h, c) % 16 == 0 by {
        lemma_pack_bits(z, n, h, c);
    }
}

proof fn lemma_flag_mask(f: u8, w: u8, w2: u8)
    by (bit_vector)
    requires
        w == 0x80 || w == 0x40 || w == 0x20 || w == 0x10,
        w2 == 0x80 || w2 == 0x40 || w2 == 0x20 || w2 == 0x10,
    ensures
        ((f | w) / w2) % 2 == (if w == w2 {
            1
        } else {
            (f / w2) % 2
        }),
        ((f & !w) / w2) % 2 == (if w == w2 {
            0
        } else {
            (f / w2) % 2
        }),
        (f | w) % 16 == f % 16,
        (f & !w) % 16 == f % 16,
        ((f & w) != 0) == ((f / w) % 2 == 1),
{
}

proof fn lemma_flag_weights(flag: BitFlag, g: BitFlag)
    ensures
        (flag_weight(flag) == flag_weight(g)) == (flag == g),
        flag_weight(g) == 0x80 || flag_weight(g) == 0x40 || flag_weight(g) == 0x20
            || flag_weight(g) == 0x10,
{
}

/// The register file: eight byte registers, the stack pointer and the
/// program counter. The flag register F keeps its low nibble at zero.
#[derive(Clone, Copy, Debug, PartialEq, Eq, Structural)]
pub struct CpuRegister {
    /// Accumulator
    pub a: u8,
    /// Flags, laid out as ZNHC0000
    pub f: u8,
    /// BC high
    pub b: u8,
    /// BC low
    pub c: u8,
    /// DE high
    pub d: u8,
    /// DE low
    pub e: u8,
    /// HL high
    pub h: u8,
    /// HL low
    pub l: u8,
    /// Stack pointer
    pub sp: u16,
    /// Program counter
    pub pc: u16,
}

impl CpuRegister {
    /// The register file's invariant: the low nibble of F is zero.
    pub open spec fn inv(&self) -> bool {
        self.f % 16 == 0
    }

    /// The value of a byte register.
    pub open spec fn get8(&self, reg: Reg8Name) -> u8 {
        match reg {
            Reg8Name::A => self.a,
            Reg8Name::B => self.b,
            Reg8Name::C => self.c,
            Reg8Name::D => self.d,
            Reg8Name::E => self.e,
            Reg8Name::F => self.f,
            Reg8Name::H => self.h,
            Reg8Name::L => self.l,
        }
    }

    /// The register file after writing a byte register; F drops the low nibble.
    pub open spec fn put8(self, reg: Reg8Name, v: u8) -> CpuRegister {
        match reg {
            Reg8Name::A => CpuRegister { a: v, ..self },
            Reg8Name::B => CpuRegister { b: v, ..self },
            Reg8Name::C => CpuRegister { c: v, ..self },
            Reg8Name::D => CpuRegister { d: v, ..self },
            Reg8Name::E => CpuRegister { e: v, ..self },
            Reg8Name::F => CpuRegister { f: flag_bits(v), ..self },
            Reg8Name::H => CpuRegister { h: v, ..self },
            Reg8Name::L => CpuRegister { l: v, ..self },
        }
    }

    /// The value of a register pair (high byte first) or of SP or PC.
    pub open spec fn get16(&self, reg: Reg16Name) -> u16 {
        match reg {
            Reg16Name::AF => word_of(self.a, self.f),
            Reg16Name::BC => word_of(self.b, self.c),
            Reg16Name::DE => word_of(self.d, self.e),
            Reg16Name::HL => word_of(self.h, self.l),
            Reg16Name::SP => self.sp,
            Reg16Name::PC => self.pc,
        }
    }

    /// The register file after writing a pair through its two byte registers,
    /// or SP or PC.
    pub open spec fn put16(self, reg: Reg16Name, v: u16) -> CpuRegister {
        match reg {
            Reg16Name::AF => self.put8(Reg8Name::A, hi_byte(v)).put8(Reg8Name::F, lo_byte(v)),
            Reg16Name::BC => self.put8(Reg8Name::B, hi_byte(v)).put8(Reg8Name::C, lo_byte(v)),
            Reg16Name::DE => self.put8(Reg8Name::D, hi_byte(v)).put8(Reg8Name::E, lo_byte(v)),
            Reg16Name::HL => self.put8(Reg8Name::H, hi_byte(v)).put8(Reg8Name::L, lo_byte(v)),
            Reg16Name::SP => CpuRegister { sp: v, ..self },
            Reg16Name::PC => CpuRegister { pc: v, ..self },
        }
    }

    /// Whether a flag is set.
    pub open spec fn flag(&self, flag: BitFlag) -> bool {
        has_flag(self.f, flag)
    }

    /// The register file with F holding exactly the given flags.
    pub open spec fn with_flags(self, z: bool, n: bool, h: bool, c: bool) -> CpuRegister {
        CpuRegister { f: pack_flags(z, n, h, c), ..self }
    }

    /// The power-on register file: every register zero.
    pub open spec fn new_spec() -> CpuRegister {
        CpuRegister { a: 0, f: 0, b: 0, c: 0, d: 0, e: 0, h: 0, l: 0, sp: 0, pc: 0 }
    }

    /// The power-on register file: every register zero.
    pub fn new() -> (r: Self)
        ensures
            r == CpuRegister::new_spec(),
            r.inv(),
    {
        CpuRegister { a: 0, f: 0, b: 0, c: 0, d: 0, e: 0, h: 0, l: 0, sp: 0, pc: 0 }
    }

    /// Sets one flag, leaving the others and every other register as they are.
    pub fn set_flag(&mut self, flag: BitFlag)
        ensures
            *final(self) == (CpuRegister { f: final(self).f, ..*old(self) }),
            final(self).flag(flag),
            forall|g: BitFlag| g != flag ==> final(self).flag(g) == old(self).flag(g),
            final(self).f % 16 == old(self).f % 16,
    {
        let w: u8 = match flag {
            BitFlag::Z => 0b10000000,
            BitFlag::N => 0b01000000,
            BitFlag::H => 0b00100000,
            BitFlag::C => 0b00010000,
        };
        let ghost f0 = self.f;
        self.f = self.f | w;
        proof {
            assert forall|g: BitFlag| g != flag implies self.flag(g) == has_flag(f0, g) by {
                lemma_flag_weights(flag, g);
                lemma_flag_mask(f0, w, flag_weight(g));
            }
            lemma_flag_mask(f0, w, w);
        }
    }

    /// Clears one flag, leaving the others and every other register as they are.
    pub fn clear_flag(&mut self, flag: BitFlag)
        ensures
            *final(self) == (CpuRegister { f: final(self).f, ..*old(self) }),
            !final(self).flag(flag),
            forall|g: BitFlag| g != flag ==> final(self).flag(g) == old(self).flag(g),
            final(self).f % 16 == old(self).f % 16,
    {
        let w: u8 = match flag {
            BitFlag::Z => 0b10000000,
            BitFlag::N => 0b01000000,
            BitFlag::H => 0b00100000,
            BitFlag::C => 0b00010000,
        };
        let ghost f0 = self.f;
        self.f = self.f & !w;
        proof {
            assert forall|g: BitFlag| g != flag implies self.flag(g) == has_flag(f0, g) by {
                lemma_flag_weights(flag, g);
                lemma_flag_mask(f0, w, flag_weight(g));
            }
            lemma_flag_mask(f0, w, w);
        }
    }

    /// Whether a flag is set.
    pub fn flag_is_set(&self, flag: BitFlag) -> (r: bool)
        ensures
            r == self.flag(flag),
    {
        let w: u8 = match flag {
            BitFlag::Z => 0b10000000,
            BitFlag::N => 0b01000000,
            BitFlag::H => 0b00100000,
            BitFlag::C => 0b00010000,
        };
        proof {
            lemma_flag_mask(self.f, w, w);
        }
        self.f & w != 0
    }

    /// Whether a flag is clear.
    pub fn flag_is_unset(&self, flag: BitFlag) -> (r: bool)
        ensures
            r == !self.flag(flag),
    {
        !self.flag_is_set(flag)
    }

    /// Replaces F with exactly the given flags.
    pub fn set_flags(&mut self, z: bool, n: bool, h: bool, c: bool)
        ensures
            *final(self) == old(self).with_flags(z, n, h, c),
    {
        let zf: u8 = if z {
            0x80
        } else {
            0
        };
        let nf: u8 = if n {
            0x40
        } else {
            0
        };
        let hf: u8 = if h {
            0x20
        } else {
            0
        };
        let cf: u8 = if c {
            0x10
        } else {
            0
        };
        self.f = zf + nf + hf + cf;
    }

    /// The value of a byte register.
    pub fn get_reg8(&self, reg: Reg8Name) -> (r: u8)
        ensures
            r == self.get8(reg),
    {
        match reg {
            Reg8Name::A => self.a,
            Reg8Name::B => self.b,
            Reg8Name::C => self.c,
            Reg8Name::D => self.d,
            Reg8Name::E => self.e,
            Reg8Name::F => self.f,
            Reg8Name::H => self.h,
            Reg8Name::L => self.l,
        }
    }

    /// Writes a byte register; a write to F keeps only the upper nibble.
    pub fn set_reg8(&mut self, reg: Reg8Name, val: u8)
        ensures
            *final(self) == old(self).put8(reg, val),
    {
        match reg {
            Reg8Name::A => self.a = val,
            Reg8Name::B => self.b = val,
            Reg8Name::C => self.c = val,
            Reg8Name::D => self.d = val,
            Reg8Name::E => self.e = val,
            Reg8Name::F => {
                assert(val & 0xf0 == val - val % 16) by (bit_vector);
                self.f = val & 0xf0;
            },
            Reg8Name::H => self.h = val,
            Reg8Name::L => self.l = val,
        }
    }

    fn set_reg8_pair(&mut self, hi: Reg8Name, lo: Reg8Name, val: u16)
        ensures
            *final(self) == old(self).put8(hi, hi_byte(val)).put8(lo, lo_byte(val)),
    {
        let dat = split_u16(val);
        self.set_reg8(hi, dat.0);
        self.set_reg8(lo, dat.1);
    }

    /// Writes a register pair through its two byte registers, or SP or PC.
    pub fn set_reg16(&mut self, reg: Reg16Name, val: u16)
        ensures
            *final(self) == old(self).put16(reg, val),
    {
        match reg {
            Reg16Name::AF => self.set_reg8_pair(Reg8Name::A, Reg8Name::F, val),
            Reg16Name::BC => self.set_reg8_pair(Reg8Name::B, Reg8Name::C, val),
            Reg16Name::DE => self.set_reg8_pair(Reg8Name::D, Reg8Name::E, val),
            Reg16Name::HL => self.set_reg8_pair(Reg8Name::H, Reg8Name::L, val),
            Reg16Name::SP => self.sp = val,
            Reg16Name::PC => self.pc = val,
        }
    }

    /// The value of a register pair, rebuilt from its two byte registers, or
    /// of SP or PC.
    pub fn get_reg16(&self, reg: Reg16Name) -> (r: u16)
        ensures
            r == self.get16(reg),
    {
        match reg {
            Reg16Name::AF => join_u8(self.a, self.f),
            Reg16Name::BC => join_u8(self.b, self.c),
            Reg16Name::DE => join_u8(self.d, self.e),
            Reg16Name::HL => join_u8(self.h, self.l),
            Reg16Name::SP => self.sp,
            Reg16Name::PC => self.pc,
        }
    }
}

} // verus!
