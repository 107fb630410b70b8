use vstd::prelude::*;

use crate::rom::{Cartridge, RomCartridge};
use crate::shared::{hi_byte, lo_byte, word_of};

verus! {

/// The address that an address stands for: echo RAM (0xE000..0xFE00) mirrors
/// work RAM 0x2000 lower; every other address stands for itself.
pub open spec fn echo_base(a: u16) -> u16 {
    if 0xe000 <= a < 0xfe00 {
        (a - 0x2000) as u16
    } else {
        a
    }
}

/// Whether a write to this address is stored (RAM, sprite table, I/O, high
/// RAM, interrupt register) rather than discarded (ROM, cartridge RAM of a
/// ROM-only cartridge, the unusable block).
pub open spec fn writable(a: u16) -> bool {
    let c = echo_base(a);
    ||| 0x8000 <= c < 0xa000
    ||| 0xc000 <= c < 0xe000
    ||| 0xfe00 <= c < 0xfea0
    ||| 0xff00 <= c
}

/// The contents of the address space.
pub struct MmuView {
    /// What the cartridge shows at 0x0000..0xC000, indexed by address.
    pub cart: Seq<u8>,
    /// 0x8000..0xA000
    pub vram: Seq<u8>,
    /// 0xC000..0xD000
    pub wram0: Seq<u8>,
    /// 0xD000..0xE000
    pub wram1: Seq<u8>,
    /// 0xFE00..0xFEA0
    pub oam: Seq<u8>,
    /// 0xFF00..0xFF80
    pub io: Seq<u8>,
    /// 0xFF80..0xFFFF
    pub hram: Seq<u8>,
    /// 0xFFFF
    pub ie: u8,
    /// Whether interrupts are enabled.
    pub ime: bool,
}

impl MmuView {
    /// Every backing store has the size of its region.
    pub open spec fn wf(&self) -> bool {
        &&& self.cart.len() == 0xc000
        &&& self.vram.len() == 0x2000
        &&& self.wram0.len() == 0x1000
        &&& self.wram1.len() == 0x1000
        &&& self.oam.len() == 0xa0
        &&& self.io.len() == 0x80
        &&& self.hram.len() == 0x7f
    }

    /// The byte at an address outside echo RAM.
    pub open spec fn stored(&self, c: u16) -> u8 {
        if c < 0x8000 {
            self.cart[c as int]
        } else if c < 0xa000 {
            self.vram[c - 0x8000]
        } else if c < 0xc000 {
            self.cart[c as int]
        } else if c < 0xd000 {
            self.wram0[c - 0xc000]
        } else if c < 0xe000 {
            self.wram1[c - 0xd000]
        } else if c < 0xfe00 {
            0
        } else if c < 0xfea0 {
            self.oam[c - 0xfe00]
        } else if c < 0xff00 {
            0
        } else if c < 0xff80 {
            self.io[c - 0xff00]
        } else if c < 0xffff {
            self.hram[c - 0xff80]
        } else {
            self.ie
        }
    }

    /// The byte read at an address.
    pub open spec fn read8(&self, a: u16) -> u8 {
        self.stored(echo_base(a))
    }

    /// The address space after a byte write; writes that are not stored
    /// leave it as it was.
    pub open spec fn write8(self, a: u16, v: u8) -> MmuView {
        let c = echo_base(a);
        if 0x8000 <= c < 0xa000 {
            MmuView { vram: self.vram.update(c - 0x8000, v), ..self }
        } else if 0xc000 <= c < 0xd000 {
            MmuView { wram0: self.wram0.update(c - 0xc000, v), ..self }
        } else if 0xd000 <= c < 0xe000 {
            MmuView { wram1: self.wram1.update(c - 0xd000, v), ..self }
        } else if 0xfe00 <= c < 0xfea0 {
            MmuView { oam: self.oam.update(c - 0xfe00, v), ..self }
        } else if 0xff00 <= c < 0xff80 {
            MmuView { io: self.io.update(c - 0xff00, v), ..self }
        } else if 0xff80 <= c < 0xffff {
            MmuView { hram: self.hram.update(c - 0xff80, v), ..self }
        } else if c == 0xffff {
            MmuView { ie: v, ..self }
        } else {
            self
        }
    }

    /// The little-endian word at an address; at 0xFFFF the high byte,
    /// which has no cell, reads as zero.
    pub open spec fn read16(&self, a: u16) -> u16 {
        word_of(
            if a < 0xffff {
                self.read8((a + 1) as u16)
            } else {
                0
            },
            self.read8(a),
        )
    }

    /// The address space after a little-endian word write; at 0xFFFF the
    /// high byte is discarded.
    pub open spec fn write16(self, a: u16, w: u16) -> MmuView {
        let m = self.write8(a, lo_byte(w));
        if a < 0xffff {
            m.write8((a + 1) as u16, hi_byte(w))
        } else {
            m
        }
    }

    /// Pushing a word: the stack pointer moves down two, then the word is
    /// written there. Returns the new stack pointer and address space.
    pub open spec fn push16(self, sp: u16, v: u16) -> (u16, MmuView) {
        let nsp = ((sp - 2) % 0x10000) as u16;
        (nsp, self.write16(nsp, v))
    }

    /// Popping a word: it is read at the stack pointer, which then moves up
    /// two. Returns the word and the new stack pointer.
    pub open spec fn pop16(&self, sp: u16) -> (u16, u16) {
        (self.read16(sp), ((sp + 2) % 0x10000) as u16)
    }
}

/// A byte write changes the byte read at the written address and at its
/// mirror, where it is stored, and no other.
pub proof fn lemma_write8_read8(m: MmuView, a: u16, v: u8, b: u16)
    requires
        m.wf(),
    ensures
        m.write8(a, v).wf(),
        m.write8(a, v).cart == m.cart,
        m.write8(a, v).ime == m.ime,
        m.write8(a, v).read8(b) == if writable(a) && echo_base(a) == echo_base(b) {
            v
        } else {
            m.read8(b)
        },
{
}

/// Echo RAM: after a byte is written into 0xE000..0xFE00, it is read back
/// there and 0x2000 lower, in the same cell of work RAM.
pub proof fn lemma_echo_ram(m: MmuView, addr: u16, x: u8)
    requires
        m.wf(),
        0xe000 <= addr <= 0xfdff,
    ensures
        m.write8(addr, x).read8(addr) == x,
        m.write8(addr, x).read8((addr - 0x2000) as u16) == x,
{
    lemma_write8_read8(m, addr, x, addr);
    lemma_write8_read8(m, addr, x, (addr - 0x2000) as u16);
}

/// Stack law: popping right after pushing a word gives the word back and
/// restores the stack pointer, where the two stack bytes are stored.
pub proof fn lemma_push_pop(m: MmuView, sp: u16, v: u16)
    requires
        m.wf(),
        writable(((sp - 2) % 0x10000) as u16),
        writable(((sp - 1) % 0x10000) as u16),
    ensures
        ({
            let (nsp, m2) = m.push16(sp, v);
            m2.pop16(nsp) == (v, sp)
        }),
{
    let nsp = ((sp - 2) % 0x10000) as u16;
    assert(nsp < 0xffff);
    let hi_addr = (nsp + 1) as u16;
    let m1 = m.write8(nsp, lo_byte(v));
    lemma_write8_read8(m, nsp, lo_byte(v), nsp);
    lemma_write8_read8(m1, hi_addr, hi_byte(v), nsp);
    lemma_write8_read8(m1, hi_addr, hi_byte(v), hi_addr);
    assert(word_of(hi_byte(v), lo_byte(v)) == v);
}

/// The memory bus: routes each 16-bit address to the cartridge or to one of
/// its own backing stores.
pub struct Mmu {
    /// The cartridge: 0x0000..0x8000 and 0xA000..0xC000.
    rom: RomCartridge,
    /// 0x8000..0xA000
    vram: Vec<u8>,
    /// 0xC000..0xD000, mirrored at 0xE000..0xF000
    work_ram_0: Vec<u8>,
    /// 0xD000..0xE000, mirrored at 0xF000..0xFE00
    work_ram_1: Vec<u8>,
    /// 0xFE00..0xFEA0
    sprite_table: Vec<u8>,
    /// 0xFF00..0xFF80
    io_registers: Vec<u8>,
    /// 0xFF80..0xFFFF
    hram: Vec<u8>,
    /// 0xFFFF
    interrupts: u8,
    /// The interrupt master enable, switched by EI, DI and RETI.
    interrupts_enabled: bool,
}

impl View for Mmu {
    type V = MmuView;

    closed spec fn view(&self) -> MmuView {
        MmuView {
            cart: Seq::new(0xc000, |i: int| self.rom.byte(i as u16)),
            vram: self.vram@,
            wram0: self.work_ram_0@,
            wram1: self.work_ram_1@,
            oam: self.sprite_table@,
            io: self.io_registers@,
            hram: self.hram@,
            ie: self.interrupts,
            ime: self.interrupts_enabled,
        }
    }
}

impl Mmu {
    /// The bus's invariant: every backing store has the size of its region.
    pub open spec fn wf(&self) -> bool {
        self@.wf()
    }

    /// A bus over a cartridge, with all of its own memory zero and
    /// interrupts disabled.
    pub fn new(rom: RomCartridge) -> (r: Self)
        ensures
            r.wf(),
            r@ == (MmuView {
                cart: Seq::new(0xc000, |i: int| rom.byte(i as u16)),
                vram: Seq::new(0x2000, |i: int| 0u8),
                wram0: Seq::new(0x1000, |i: int| 0u8),
                wram1: Seq::new(0x1000, |i: int| 0u8),
                oam: Seq::new(0xa0, |i: int| 0u8),
                io: Seq::new(0x80, |i: int| 0u8),
                hram: Seq::new(0x7f, |i: int| 0u8),
                ie: 0,
                ime: false,
            }),
    {
        let r = Mmu {
            rom: rom,
            vram: vec![0u8; 0x2000],
            work_ram_0: vec![0u8; 0x1000],
            work_ram_1: vec![0u8; 0x1000],
            sprite_table: vec![0u8; 0xa0],
            io_registers: vec![0u8; 0x80],
            hram: vec![0u8; 0x7f],
            interrupts: 0,
            interrupts_enabled: false,
        };
        assert(r@.vram =~= Seq::new(0x2000, |i: int| 0u8));
        assert(r@.wram0 =~= Seq::new(0x1000, |i: int| 0u8));
        assert(r@.wram1 =~= Seq::new(0x1000, |i: int| 0u8));
        assert(r@.oam =~= Seq::new(0xa0, |i: int| 0u8));
        assert(r@.io =~= Seq::new(0x80, |i: int| 0u8));
        assert(r@.hram =~= Seq::new(0x7f, |i: int| 0u8));
        r
    }

    /// Reads one byte.
    pub fn read8(&self, add: u16) -> (r: u8)
        requires
            self.wf(),
        ensures
            r == self@.read8(add),
    {
        let c: u16 = if 0xe000 <= add && add < 0xfe00 {
            add - 0x2000
        } else {
            add
        };
        let addr = c as usize;
        if c < 0x8000 {
            self.rom.read8(c)
        } else if c < 0xa000 {
            self.vram[addr - 0x8000]
        } else if c < 0xc000 {
            self.rom.read8(c)
        } else if c < 0xd000 {
            self.work_ram_0[addr - 0xc000]
        } else if c < 0xe000 {
            self.work_ram_1[addr - 0xd000]
        } else if c < 0xfe00 {
            0
        } else if c < 0xfea0 {
            self.sprite_table[addr - 0xfe00]
        } else if c < 0xff00 {
            0
        } else if c < 0xff80 {
            self.io_registers[addr - 0xff00]
        } else if c < 0xffff {
            self.hram[addr - 0xff80]
        } else {
            self.interrupts
        }
    }

    /// Reads a little-endian word; at 0xFFFF the high byte reads as zero.
    pub fn read16(&self, addr: u16) -> (r: u16)
        requires
            self.wf(),
        ensures
            r == self@.read16(addr),
    {
        let lo = self.read8(addr);
        let hi = if addr < 0xffff {
            self.read8(addr + 1)
        } else {
            0
        };
        crate::shared::join_u8(hi, lo)
    }

    /// Writes one byte; writes to ROM, to cartridge RAM and to the unusable
    /// block are discarded.
    pub fn write8(&mut self, add: u16, dat: u8)
        requires
            old(self).wf(),
        ensures
            final(self).wf(),
            final(self)@ == old(self)@.write8(add, dat),
    {
        let c: u16 = if 0xe000 <= add && add < 0xfe00 {
            add - 0x2000
        } else {
            add
        };
        let addr = c as usize;
        if 0x8000 <= c && c < 0xa000 {
            self.vram.set(addr - 0x8000, dat);
        } else if 0xc000 <= c && c < 0xd000 {
            self.work_ram_0.set(addr - 0xc000, dat);
        } else if 0xd000 <= c && c < 0xe000 {
            self.work_ram_1.set(addr - 0xd000, dat);
        } else if 0xfe00 <= c && c < 0xfea0 {
            self.sprite_table.set(addr - 0xfe00, dat);
        } else if 0xff00 <= c && c < 0xff80 {
            self.io_registers.set(addr - 0xff00, dat);
        } else if 0xff80 <= c && c < 0xffff {
            self.hram.set(addr - 0xff80, dat);
        } else if c == 0xffff {
            self.interrupts = dat;
        }
        assert(self@ =~= old(self)@.write8(add, dat));
    }

    /// Writes a little-endian word; at 0xFFFF the high byte is discarded.
    pub fn write16(&mut self, addr: u16, dat: u16)
        requires
            old(self).wf(),
        ensures
            final(self).wf(),
            final(self)@ == old(self)@.write16(addr, dat),
    {
        let (hi, lo) = crate::shared::split_u16(dat);
        self.write8(addr, lo);
        if addr < 0xffff {
            self.write8(addr + 1, hi);
        }
    }

    /// Moves the stack pointer down two and writes a word there.
    pub fn push_stack(&mut self, sp: &mut u16, val: u16)
        requires
            old(self).wf(),
        ensures
            final(self).wf(),
            (*final(sp), final(self)@) == old(self)@.push16(*old(sp), val),
    {
        *sp = sp.wrapping_sub(2);
        self.write16(*sp, val);
    }

    /// Reads the word at the stack pointer and moves the stack pointer up two.
    pub fn pop_stack(&mut self, sp: &mut u16) -> (r: u16)
        requires
            old(self).wf(),
        ensures
            final(self)@ == old(self)@,
            final(self).wf(),
            (r, *final(sp)) == old(self)@.pop16(*old(sp)),
    {
        let val = self.read16(*sp);
        *sp = sp.wrapping_add(2);
        val
    }

    /// Enables interrupts.
    pub fn enable_interrupts(&mut self)
        ensures
            final(self)@ == (MmuView { ime: true, ..old(self)@ }),
    {
        self.interrupts_enabled = true;
    }

    /// Disables interrupts.
    pub fn disable_interrupts(&mut self)
        ensures
            final(self)@ == (MmuView { ime: false, ..old(self)@ }),
    {
        self.interrupts_enabled = false;
    }

    /// Whether interrupts are enabled.
    pub fn interrupts_enabled(&self) -> (r: bool)
        ensures
            r == self@.ime,
    {
        self.interrupts_enabled
    }
}

} // verus!
