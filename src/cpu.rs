use vstd::prelude::*;

use crate::instructions::{decode, decoded, Instruction};
use crate::mmu::{lemma_write8_read8, writable, Mmu, MmuView};
use crate::register::{
    lemma_flag_byte_values, lemma_pack_flags, BitFlag, CpuRegister, Reg16Name, Reg8Name,
};
use crate::shared::{
    add8_spec, add16_spec, bit_of, bit_weight, rl_spec, rlc_spec, rr_spec, rrc_spec, sla_spec,
    sra_spec, srl_spec, sub8_spec, swap_nibbles,
};

verus! {

/// The execution engine: the register file, and whether the last
/// instruction branched or halted the processor.
#[derive(Clone, Copy, Debug, PartialEq, Eq, Structural)]
pub struct Cpu {
    /// CPU register
    pub register: CpuRegister,
    /// Whether the last instruction set PC itself, so that it is not advanced
    pub jumped: bool,
    /// Whether the processor waits for an interrupt
    pub halted: bool,
}

/// A word plus a signed offset, wrapping.
pub open spec fn offset16(v: u16, d: int) -> u16 {
    ((v + d) % 0x10000) as u16
}

proof fn lemma_offset16(v: u16, d: int)
    requires
        -0x10000 < d < 0x10000,
    ensures
        offset16(v, d) == (if v + d > 0xffff {
            v + d - 0x10000
        } else if v + d < 0 {
            v + d + 0x10000
        } else {
            v + d
        }),
{
    if v + d > 0xffff {
        assert((v + d) % 0x10000 == v + d - 0x10000);
    } else if v + d < 0 {
        assert((v + d) % 0x10000 == v + d + 0x10000);
    } else {
        assert((v + d) % 0x10000 == v + d);
    }
}

/// A byte with bit `b` set.
pub open spec fn with_bit(v: u8, b: u8) -> u8 {
    if bit_of(v, b) {
        v
    } else {
        (v + bit_weight(b)) as u8
    }
}

/// A byte with bit `b` cleared.
pub open spec fn without_bit(v: u8, b: u8) -> u8 {
    if bit_of(v, b) {
        (v - bit_weight(b)) as u8
    } else {
        v
    }
}

/// Decimal adjustment of the accumulator after a BCD addition (`n` clear)
/// or subtraction (`n` set), from the half carry and carry it left: the
/// adjusted byte and the new carry.
pub open spec fn daa_spec(a: u8, n: bool, h: bool, c: bool) -> (u8, bool) {
    if !n {
        let hi_fix = c || a > 0x99;
        let lo_fix = h || a % 16 > 9;
        let sum = a + (if hi_fix {
            0x60int
        } else {
            0
        }) + (if lo_fix {
            6int
        } else {
            0
        });
        ((sum % 256) as u8, hi_fix)
    } else {
        let diff = a - (if c {
            0x60int
        } else {
            0
        }) - (if h {
            6int
        } else {
            0
        });
        ((diff % 256) as u8, c)
    }
}

/// DAA on a byte register: Z from the adjusted byte, N as it was, H clear,
/// C the decimal carry.
pub open spec fn daa_reg(r: CpuRegister, reg: Reg8Name) -> CpuRegister {
    let d = daa_spec(r.get8(reg), r.flag(BitFlag::N), r.flag(BitFlag::H), r.flag(BitFlag::C));
    r.put8(reg, d.0).with_flags(d.0 == 0, r.flag(BitFlag::N), false, d.1)
}

/// ADD or ADC into a byte register: Z from the result, N clear, H and C
/// from the addition.
pub open spec fn alu_add(r: CpuRegister, reg: Reg8Name, v: u8, use_carry: bool) -> CpuRegister {
    let s = add8_spec(r.get8(reg), v, use_carry && r.flag(BitFlag::C));
    r.put8(reg, s.0).with_flags(s.0 == 0, false, s.2, s.1)
}

/// SUB or SBC from a byte register: Z from the result, N set, H and C from
/// the borrows.
pub open spec fn alu_sub(r: CpuRegister, reg: Reg8Name, v: u8, use_carry: bool) -> CpuRegister {
    let s = sub8_spec(r.get8(reg), v, use_carry && r.flag(BitFlag::C));
    r.put8(reg, s.0).with_flags(s.0 == 0, true, s.2, s.1)
}

/// AND into a byte register: Z from the result, H set, N and C clear.
pub open spec fn alu_and(r: CpuRegister, reg: Reg8Name, v: u8) -> CpuRegister {
    let x = r.get8(reg) & v;
    r.put8(reg, x).with_flags(x == 0, false, true, false)
}

/// OR into a byte register: Z from the result, N, H and C clear.
pub open spec fn alu_or(r: CpuRegister, reg: Reg8Name, v: u8) -> CpuRegister {
    let x = r.get8(reg) | v;
    r.put8(reg, x).with_flags(x == 0, false, false, false)
}

/// XOR into a byte register: Z from the result, N, H and C clear.
pub open spec fn alu_xor(r: CpuRegister, reg: Reg8Name, v: u8) -> CpuRegister {
    let x = r.get8(reg) ^ v;
    r.put8(reg, x).with_flags(x == 0, false, false, false)
}

/// CP: the flags of a subtraction, whose result is discarded.
pub open spec fn alu_cp(r: CpuRegister, reg: Reg8Name, v: u8) -> CpuRegister {
    let s = sub8_spec(r.get8(reg), v, false);
    r.with_flags(s.0 == 0, true, s.2, s.1)
}

/// The flags after INC of `v`: Z and H as for an addition of one, N clear,
/// C as it was.
pub open spec fn inc_flags(r: CpuRegister, v: u8) -> CpuRegister {
    let s = add8_spec(v, 1, false);
    r.with_flags(s.0 == 0, false, s.2, r.flag(BitFlag::C))
}

/// The flags after DEC of `v`: Z and H as for a subtraction of one, N set,
/// C as it was.
pub open spec fn dec_flags(r: CpuRegister, v: u8) -> CpuRegister {
    let s = sub8_spec(v, 1, false);
    r.with_flags(s.0 == 0, true, s.2, r.flag(BitFlag::C))
}

/// INC of a byte register.
pub open spec fn inc_reg(r: CpuRegister, reg: Reg8Name) -> CpuRegister {
    let v = r.get8(reg);
    r.put8(reg, add8_spec(v, 1, false).0).with_flags(
        add8_spec(v, 1, false).0 == 0,
        false,
        add8_spec(v, 1, false).2,
        r.flag(BitFlag::C),
    )
}

/// DEC of a byte register.
pub open spec fn dec_reg(r: CpuRegister, reg: Reg8Name) -> CpuRegister {
    let v = r.get8(reg);
    r.put8(reg, sub8_spec(v, 1, false).0).with_flags(
        sub8_spec(v, 1, false).0 == 0,
        true,
        sub8_spec(v, 1, false).2,
        r.flag(BitFlag::C),
    )
}

/// The flags after a rotate or shift of the 0xCB table: Z from the new
/// byte, N and H clear, C the bit shifted out.
pub open spec fn shift_flags(r: CpuRegister, res: (u8, bool)) -> CpuRegister {
    r.with_flags(res.0 == 0, false, false, res.1)
}

/// The flags after one of the four accumulator rotates: Z as it was, N and
/// H clear, C the bit shifted out.
pub open spec fn acc_rotate(r: CpuRegister, res: (u8, bool)) -> CpuRegister {
    (CpuRegister { a: res.0, ..r }).with_flags(r.flag(BitFlag::Z), false, false, res.1)
}

/// BIT: Z is the inverse of the tested bit, N clear, H set, C as it was.
pub open spec fn bit_flags(r: CpuRegister, v: u8, b: u8) -> CpuRegister {
    r.with_flags(!bit_of(v, b), false, true, r.flag(BitFlag::C))
}

/// ADD HL,rr: Z as it was, N clear, H and C from the 16-bit addition.
pub open spec fn add_pair(r: CpuRegister, to: Reg16Name, v: u16) -> CpuRegister {
    let s = add16_spec(r.get16(to), v, false);
    r.put16(to, s.0).with_flags(r.flag(BitFlag::Z), false, s.2, s.1)
}

/// ADD SP,e: the signed offset is added; Z and N clear, H and C from the
/// unsigned addition of the offset byte to the low byte.
pub open spec fn add_offset(r: CpuRegister, to: Reg16Name, e: i8) -> CpuRegister {
    let v = r.get16(to);
    let eb = #[verifier::truncate] (e as u8);
    r.put16(to, offset16(v, e as int)).with_flags(
        false,
        false,
        v % 16 + eb % 16 > 15,
        v % 256 + eb > 255,
    )
}

/// A 0xCB rotate or shift written back to a byte register.
pub open spec fn shift_reg(r: CpuRegister, reg: Reg8Name, res: (u8, bool)) -> CpuRegister {
    shift_flags(r.put8(reg, res.0), res)
}

/// The state after an instruction that does not branch.
pub open spec fn next(s: Cpu, r: CpuRegister) -> Cpu {
    Cpu { register: r, jumped: false, halted: s.halted }
}

/// The state after a taken branch to `target`.
pub open spec fn branch(s: Cpu, r: CpuRegister, target: u16) -> Cpu {
    Cpu { register: CpuRegister { pc: target, ..r }, jumped: true, halted: s.halted }
}

/// The result of a 0xCB rotate or shift on a byte register.
pub open spec fn on_reg(s: Cpu, m: MmuView, reg: Reg8Name, res: (u8, bool)) -> (Cpu, MmuView) {
    (next(s, shift_flags(s.register.put8(reg, res.0), res)), m)
}

/// The result of a 0xCB rotate or shift on the byte at `a`.
pub open spec fn on_mem(s: Cpu, m: MmuView, a: u16, res: (u8, bool)) -> (Cpu, MmuView) {
    (next(s, shift_flags(s.register, res)), m.write8(a, res.0))
}

/// CALL: the address of the next instruction is pushed, then PC jumps.
pub open spec fn call(s: Cpu, m: MmuView, ret: u16, target: u16) -> (Cpu, MmuView) {
    let (sp, m2) = m.push16(s.register.sp, ret);
    (branch(s, CpuRegister { sp, ..s.register }, target), m2)
}

/// RET: PC is popped from the stack.
pub open spec fn ret(s: Cpu, m: MmuView) -> (Cpu, MmuView) {
    let (pc, sp) = m.pop16(s.register.sp);
    (branch(s, CpuRegister { sp, ..s.register }, pc), m)
}

/// The byte at the address a register pair holds.
pub open spec fn at(s: Cpu, m: MmuView, rr: Reg16Name) -> u8 {
    m.read8(s.register.get16(rr))
}

/// What executing one instruction does, with PC at that instruction: the
/// new engine state (its `jumped` says whether a branch was taken) and the
/// new address space.
/// What an immediate or absolute-address load does.
#[verifier::opaque]
pub open spec fn exec_loads_spec(s: Cpu, m: MmuView, ins: Instruction) -> (Cpu, MmuView) {
    let r = s.register;
    match ins {
        Instruction::LdR8D8(x, n) => (next(s, r.put8(x, n)), m),
        Instruction::LdR8A16(x, a) => (next(s, r.put8(x, m.read8(a))), m),
        Instruction::LdA16R8(a, x) => (next(s, r), m.write8(a, r.get8(x))),
        Instruction::LdR8R8(to, from) => (next(s, r.put8(to, r.get8(from))), m),
        Instruction::LdR16D16(rr, n) => (next(s, r.put16(rr, n)), m),
        Instruction::LdR16R16(to, from) => (next(s, r.put16(to, r.get16(from))), m),
        _ => (s, m),
    }
}

/// What a load through a register pair does.
#[verifier::opaque]
pub open spec fn exec_indirect_loads_spec(s: Cpu, m: MmuView, ins: Instruction) -> (Cpu, MmuView) {
    let r = s.register;
    match ins {
        Instruction::LdAR16R8(rr, x) => (next(s, r), m.write8(r.get16(rr), r.get8(x))),
        Instruction::LdAR16D8(rr, n) => (next(s, r), m.write8(r.get16(rr), n)),
        Instruction::LdR8AR16(x, rr) => (next(s, r.put8(x, at(s, m, rr))), m),
        Instruction::LdA16R16(a, rr) => (next(s, r), m.write16(a, r.get16(rr))),
        _ => (s, m),
    }
}

/// What a load through HL that then steps HL does.
#[verifier::opaque]
pub open spec fn exec_stepping_loads_spec(s: Cpu, m: MmuView, ins: Instruction) -> (Cpu, MmuView) {
    let r = s.register;
    match ins {
        Instruction::LdiAR16R8(rr, x) => (
            next(s, r.put16(rr, offset16(r.get16(rr), 1))),
            m.write8(r.get16(rr), r.get8(x)),
        ),
        Instruction::LddAR16R8(rr, x) => (
            next(s, r.put16(rr, offset16(r.get16(rr), -1))),
            m.write8(r.get16(rr), r.get8(x)),
        ),
        Instruction::LdiR8AR16(x, rr) => (
            next(s, r.put8(x, at(s, m, rr)).put16(rr, offset16(r.get16(rr), 1))),
            m,
        ),
        Instruction::LddR8AR16(x, rr) => (
            next(s, r.put8(x, at(s, m, rr)).put16(rr, offset16(r.get16(rr), -1))),
            m,
        ),
        _ => (s, m),
    }
}

/// What a high-page load, or LDHL does.
#[verifier::opaque]
pub open spec fn exec_high_loads_spec(s: Cpu, m: MmuView, ins: Instruction) -> (Cpu, MmuView) {
    let r = s.register;
    match ins {
        Instruction::LdhR8A8(x, n) => (next(s, r.put8(x, m.read8((0xff00 + n) as u16))), m),
        Instruction::LdhA8R8(n, x) => (next(s, r), m.write8((0xff00 + n) as u16, r.get8(x))),
        Instruction::LdhAR8R8(lo, x) => (
            next(s, r),
            m.write8((0xff00 + r.get8(lo)) as u16, r.get8(x)),
        ),
        Instruction::LdhR8AR8(x, lo) => (
            next(s, r.put8(x, m.read8((0xff00 + r.get8(lo)) as u16))),
            m,
        ),
        Instruction::LdhlR16D8(rr, e) => (
            next(s, r.put16(Reg16Name::HL, offset16(r.get16(rr), e as int))),
            m,
        ),
        _ => (s, m),
    }
}

/// What an INC or DEC does.
#[verifier::opaque]
pub open spec fn exec_inc_dec_spec(s: Cpu, m: MmuView, ins: Instruction) -> (Cpu, MmuView) {
    let r = s.register;
    match ins {
        Instruction::IncR8(x) => (next(s, inc_reg(r, x)), m),
        Instruction::IncR16(rr) => (next(s, r.put16(rr, offset16(r.get16(rr), 1))), m),
        Instruction::IncAR16(rr) => (
            next(s, inc_flags(r, at(s, m, rr))),
            m.write8(r.get16(rr), add8_spec(at(s, m, rr), 1, false).0),
        ),
        Instruction::DecR8(x) => (next(s, dec_reg(r, x)), m),
        Instruction::DecR16(rr) => (next(s, r.put16(rr, offset16(r.get16(rr), -1))), m),
        Instruction::DecAR16(rr) => (
            next(s, dec_flags(r, at(s, m, rr))),
            m.write8(r.get16(rr), sub8_spec(at(s, m, rr), 1, false).0),
        ),
        _ => (s, m),
    }
}

/// What SCF, CCF, CPL or DAA does.
#[verifier::opaque]
pub open spec fn exec_flag_ops_spec(s: Cpu, m: MmuView, ins: Instruction) -> (Cpu, MmuView) {
    let r = s.register;
    match ins {
        Instruction::Scf => (next(s, r.with_flags(r.flag(BitFlag::Z), false, false, true)), m),
        Instruction::Ccf => (
            next(s, r.with_flags(r.flag(BitFlag::Z), false, false, !r.flag(BitFlag::C))),
            m,
        ),
        Instruction::Cpl => (
            next(
                s,
                (CpuRegister { a: (255 - r.a) as u8, ..r }).with_flags(
                    r.flag(BitFlag::Z),
                    true,
                    true,
                    r.flag(BitFlag::C),
                ),
            ),
            m,
        ),
        Instruction::DaaR8(x) => (next(s, daa_reg(r, x)), m),
        _ => (s, m),
    }
}

/// What an 8-bit ADD or ADC does.
#[verifier::opaque]
pub open spec fn exec_adds_spec(s: Cpu, m: MmuView, ins: Instruction) -> (Cpu, MmuView) {
    let r = s.register;
    match ins {
        Instruction::AddR8R8(to, from) => (next(s, alu_add(r, to, r.get8(from), false)), m),
        Instruction::AddR8D8(to, n) => (next(s, alu_add(r, to, n, false)), m),
        Instruction::AddR8AR16(to, rr) => (next(s, alu_add(r, to, at(s, m, rr), false)), m),
        Instruction::AdcR8R8(to, from) => (next(s, alu_add(r, to, r.get8(from), true)), m),
        Instruction::AdcR8D8(to, n) => (next(s, alu_add(r, to, n, true)), m),
        Instruction::AdcR8AR16(to, rr) => (next(s, alu_add(r, to, at(s, m, rr), true)), m),
        _ => (s, m),
    }
}

/// What an 8-bit SUB or SBC does.
#[verifier::opaque]
pub open spec fn exec_subs_spec(s: Cpu, m: MmuView, ins: Instruction) -> (Cpu, MmuView) {
    let r = s.register;
    match ins {
        Instruction::SubR8R8(to, from) => (next(s, alu_sub(r, to, r.get8(from), false)), m),
        Instruction::SubR8D8(to, n) => (next(s, alu_sub(r, to, n, false)), m),
        Instruction::SubR8AR16(to, rr) => (next(s, alu_sub(r, to, at(s, m, rr), false)), m),
        Instruction::SbcR8R8(to, from) => (next(s, alu_sub(r, to, r.get8(from), true)), m),
        Instruction::SbcR8AR16(to, rr) => (next(s, alu_sub(r, to, at(s, m, rr), true)), m),
        Instruction::SbcR8D8(to, n) => (next(s, alu_sub(r, to, n, true)), m),
        _ => (s, m),
    }
}

/// What an AND or OR does.
#[verifier::opaque]
pub open spec fn exec_and_or_spec(s: Cpu, m: MmuView, ins: Instruction) -> (Cpu, MmuView) {
    let r = s.register;
    match ins {
        Instruction::AndR8R8(to, from) => (next(s, alu_and(r, to, r.get8(from))), m),
        Instruction::AndR8D8(to, n) => (next(s, alu_and(r, to, n)), m),
        Instruction::AndR8AR16(to, rr) => (next(s, alu_and(r, to, at(s, m, rr))), m),
        Instruction::OrR8R8(to, from) => (next(s, alu_or(r, to, r.get8(from))), m),
        Instruction::OrR8D8(to, n) => (next(s, alu_or(r, to, n)), m),
        Instruction::OrR8AR16(to, rr) => (next(s, alu_or(r, to, at(s, m, rr))), m),
        _ => (s, m),
    }
}

/// What an XOR or CP does.
#[verifier::opaque]
pub open spec fn exec_xor_cp_spec(s: Cpu, m: MmuView, ins: Instruction) -> (Cpu, MmuView) {
    let r = s.register;
    match ins {
        Instruction::XorR8R8(to, from) => (next(s, alu_xor(r, to, r.get8(from))), m),
        Instruction::XorR8D8(to, n) => (next(s, alu_xor(r, to, n)), m),
        Instruction::XorR8AR16(to, rr) => (next(s, alu_xor(r, to, at(s, m, rr))), m),
        Instruction::CpR8R8(to, from) => (next(s, alu_cp(r, to, r.get8(from))), m),
        Instruction::CpR8AR16(to, rr) => (next(s, alu_cp(r, to, at(s, m, rr))), m),
        Instruction::CpR8D8(to, n) => (next(s, alu_cp(r, to, n)), m),
        _ => (s, m),
    }
}

/// What a 16-bit addition does.
#[verifier::opaque]
pub open spec fn exec_add16_spec(s: Cpu, m: MmuView, ins: Instruction) -> (Cpu, MmuView) {
    let r = s.register;
    match ins {
        Instruction::AddR16R16(to, from) => (next(s, add_pair(r, to, r.get16(from))), m),
        Instruction::AddR16D8(to, e) => (next(s, add_offset(r, to, e)), m),
        _ => (s, m),
    }
}

/// What a BIT, RES or SET does.
#[verifier::opaque]
pub open spec fn exec_bit_ops_spec(s: Cpu, m: MmuView, ins: Instruction) -> (Cpu, MmuView) {
    let r = s.register;
    match ins {
        Instruction::BitR8(b, x) => (next(s, bit_flags(r, r.get8(x), b)), m),
        Instruction::BitAR16(b, rr) => (next(s, bit_flags(r, at(s, m, rr), b)), m),
        Instruction::ResR8(b, x) => (next(s, r.put8(x, without_bit(r.get8(x), b))), m),
        Instruction::ResAR16(b, rr) => (
            next(s, r),
            m.write8(r.get16(rr), without_bit(at(s, m, rr), b)),
        ),
        Instruction::SetR8(b, x) => (next(s, r.put8(x, with_bit(r.get8(x), b))), m),
        Instruction::SetAR16(b, rr) => (
            next(s, r),
            m.write8(r.get16(rr), with_bit(at(s, m, rr), b)),
        ),
        _ => (s, m),
    }
}

/// What an accumulator rotate does.
#[verifier::opaque]
pub open spec fn exec_acc_rotates_spec(s: Cpu, m: MmuView, ins: Instruction) -> (Cpu, MmuView) {
    let r = s.register;
    match ins {
        Instruction::Rlca => (next(s, acc_rotate(r, rlc_spec(r.a))), m),
        Instruction::Rla => (next(s, acc_rotate(r, rl_spec(r.a, r.flag(BitFlag::C)))), m),
        Instruction::Rrca => (next(s, acc_rotate(r, rrc_spec(r.a))), m),
        Instruction::Rra => (next(s, acc_rotate(r, rr_spec(r.a, r.flag(BitFlag::C)))), m),
        _ => (s, m),
    }
}

/// What a rotate of the 0xCB table does.
#[verifier::opaque]
pub open spec fn exec_rotates_spec(s: Cpu, m: MmuView, ins: Instruction) -> (Cpu, MmuView) {
    let r = s.register;
    match ins {
        Instruction::RlcR8(x) => on_reg(s, m, x, rlc_spec(r.get8(x))),
        Instruction::RlcAR16(rr) => on_mem(s, m, r.get16(rr), rlc_spec(at(s, m, rr))),
        Instruction::RlR8(x) => on_reg(s, m, x, rl_spec(r.get8(x), r.flag(BitFlag::C))),
        Instruction::RlAR16(rr) => on_mem(
            s,
            m,
            r.get16(rr),
            rl_spec(at(s, m, rr), r.flag(BitFlag::C)),
        ),
        Instruction::RrcR8(x) => on_reg(s, m, x, rrc_spec(r.get8(x))),
        Instruction::RrcAR16(rr) => on_mem(s, m, r.get16(rr), rrc_spec(at(s, m, rr))),
        Instruction::RrR8(x) => on_reg(s, m, x, rr_spec(r.get8(x), r.flag(BitFlag::C))),
        Instruction::RrAR16(rr) => on_mem(
            s,
            m,
            r.get16(rr),
            rr_spec(at(s, m, rr), r.flag(BitFlag::C)),
        ),
        _ => (s, m),
    }
}

/// What a shift or nibble swap does.
#[verifier::opaque]
pub open spec fn exec_shifts_spec(s: Cpu, m: MmuView, ins: Instruction) -> (Cpu, MmuView) {
    let r = s.register;
    match ins {
        Instruction::SlaR8(x) => on_reg(s, m, x, sla_spec(r.get8(x))),
        Instruction::SlaAR16(rr) => on_mem(s, m, r.get16(rr), sla_spec(at(s, m, rr))),
        Instruction::SraR8(x) => on_reg(s, m, x, sra_spec(r.get8(x))),
        Instruction::SraAR16(rr) => on_mem(s, m, r.get16(rr), sra_spec(at(s, m, rr))),
        Instruction::SrlR8(x) => on_reg(s, m, x, srl_spec(r.get8(x))),
        Instruction::SrlAR16(rr) => on_mem(s, m, r.get16(rr), srl_spec(at(s, m, rr))),
        Instruction::SwapR8(x) => on_reg(s, m, x, (swap_nibbles(r.get8(x)), false)),
        Instruction::SwapAR16(rr) => on_mem(
            s,
            m,
            r.get16(rr),
            (swap_nibbles(at(s, m, rr)), false),
        ),
        _ => (s, m),
    }
}

/// What a jump does.
#[verifier::opaque]
pub open spec fn exec_jumps_spec(s: Cpu, m: MmuView, ins: Instruction) -> (Cpu, MmuView) {
    let r = s.register;
    match ins {
        Instruction::JpA16(a) => (branch(s, r, a), m),
        Instruction::JpAR16(rr) => (branch(s, r, r.get16(rr)), m),
        Instruction::JpFA16(f, a) => if r.flag(f) {
            (branch(s, r, a), m)
        } else {
            (next(s, r), m)
        },
        Instruction::JpNfA16(f, a) => if !r.flag(f) {
            (branch(s, r, a), m)
        } else {
            (next(s, r), m)
        },
        Instruction::JrA8(e) => (branch(s, r, offset16(r.pc, 2 + e)), m),
        Instruction::JrFA8(f, e) => if r.flag(f) {
            (branch(s, r, offset16(r.pc, 2 + e)), m)
        } else {
            (next(s, r), m)
        },
        Instruction::JrNfA8(f, e) => if !r.flag(f) {
            (branch(s, r, offset16(r.pc, 2 + e)), m)
        } else {
            (next(s, r), m)
        },
        _ => (s, m),
    }
}

/// What a call or restart does.
#[verifier::opaque]
pub open spec fn exec_calls_spec(s: Cpu, m: MmuView, ins: Instruction) -> (Cpu, MmuView) {
    let r = s.register;
    match ins {
        Instruction::CallA16(a) => call(s, m, offset16(r.pc, 3), a),
        Instruction::CallFA16(f, a) => if r.flag(f) {
            call(s, m, offset16(r.pc, 3), a)
        } else {
            (next(s, r), m)
        },
        Instruction::CallNfA16(f, a) => if !r.flag(f) {
            call(s, m, offset16(r.pc, 3), a)
        } else {
            (next(s, r), m)
        },
        Instruction::Rst(a) => call(s, m, offset16(r.pc, 1), a),
        _ => (s, m),
    }
}

/// What a return does.
#[verifier::opaque]
pub open spec fn exec_returns_spec(s: Cpu, m: MmuView, ins: Instruction) -> (Cpu, MmuView) {
    let r = s.register;
    match ins {
        Instruction::Ret => ret(s, m),
        Instruction::Reti => {
            let (s2, m2) = ret(s, m);
            (s2, MmuView { ime: true, ..m2 })
        },
        Instruction::RetF(f) => if r.flag(f) {
            ret(s, m)
        } else {
            (next(s, r), m)
        },
        Instruction::RetNf(f) => if !r.flag(f) {
            ret(s, m)
        } else {
            (next(s, r), m)
        },
        _ => (s, m),
    }
}

/// What a PUSH or POP does.
#[verifier::opaque]
pub open spec fn exec_stack_spec(s: Cpu, m: MmuView, ins: Instruction) -> (Cpu, MmuView) {
    let r = s.register;
    match ins {
        Instruction::PushR16(rr) => {
            let (sp, m2) = m.push16(r.sp, r.get16(rr));
            (next(s, CpuRegister { sp, ..r }), m2)
        },
        Instruction::PopR16(rr) => {
            let (v, sp) = m.pop16(r.sp);
            (next(s, (CpuRegister { sp, ..r }).put16(rr, v)), m)
        },
        _ => (s, m),
    }
}

/// What NOP, HALT, STOP, EI or DI does.
#[verifier::opaque]
pub open spec fn exec_misc_spec(s: Cpu, m: MmuView, ins: Instruction) -> (Cpu, MmuView) {
    let r = s.register;
    match ins {
        Instruction::Nop => (next(s, r), m),
        Instruction::Halt => (Cpu { register: r, jumped: false, halted: true }, m),
        Instruction::Stop => (next(s, r), m),
        Instruction::Ei => (next(s, r), MmuView { ime: true, ..m }),
        Instruction::Di => (next(s, r), MmuView { ime: false, ..m }),
        _ => (s, m),
    }
}

/// What executing one instruction does, with PC at that instruction: the
/// new engine state (its `jumped` says whether a branch was taken) and the
/// new address space.
#[verifier::opaque]
pub open spec fn execute(s: Cpu, m: MmuView, ins: Instruction) -> (Cpu, MmuView) {
    match ins {
        Instruction::LdR8D8(..)
        | Instruction::LdR8A16(..)
        | Instruction::LdA16R8(..)
        | Instruction::LdR8R8(..)
        | Instruction::LdR16D16(..)
        | Instruction::LdR16R16(..) => exec_loads_spec(s, m, ins),
        Instruction::LdAR16R8(..)
        | Instruction::LdAR16D8(..)
        | Instruction::LdR8AR16(..)
        | Instruction::LdA16R16(..) => exec_indirect_loads_spec(s, m, ins),
        Instruction::LdiAR16R8(..)
        | Instruction::LddAR16R8(..)
        | Instruction::LdiR8AR16(..)
        | Instruction::LddR8AR16(..) => exec_stepping_loads_spec(s, m, ins),
        Instruction::LdhR8A8(..)
        | Instruction::LdhA8R8(..)
        | Instruction::LdhAR8R8(..)
        | Instruction::LdhR8AR8(..)
        | Instruction::LdhlR16D8(..) => exec_high_loads_spec(s, m, ins),
        Instruction::IncR8(..)
        | Instruction::IncR16(..)
        | Instruction::IncAR16(..)
        | Instruction::DecR8(..)
        | Instruction::DecR16(..)
        | Instruction::DecAR16(..) => exec_inc_dec_spec(s, m, ins),
        Instruction::Scf
        | Instruction::Ccf
        | Instruction::Cpl
        | Instruction::DaaR8(..) => exec_flag_ops_spec(s, m, ins),
        Instruction::AddR8R8(..)
        | Instruction::AddR8D8(..)
        | Instruction::AddR8AR16(..)
        | Instruction::AdcR8R8(..)
        | Instruction::AdcR8D8(..)
        | Instruction::AdcR8AR16(..) => exec_adds_spec(s, m, ins),
        Instruction::SubR8R8(..)
        | Instruction::SubR8D8(..)
        | Instruction::SubR8AR16(..)
        | Instruction::SbcR8R8(..)
        | Instruction::SbcR8AR16(..)
        | Instruction::SbcR8D8(..) => exec_subs_spec(s, m, ins),
        Instruction::AndR8R8(..)
        | Instruction::AndR8D8(..)
        | Instruction::AndR8AR16(..)
        | Instruction::OrR8R8(..)
        | Instruction::OrR8D8(..)
        | Instruction::OrR8AR16(..) => exec_and_or_spec(s, m, ins),
        Instruction::XorR8R8(..)
        | Instruction::XorR8D8(..)
        | Instruction::XorR8AR16(..)
        | Instruction::CpR8R8(..)
        | Instruction::CpR8AR16(..)
        | Instruction::CpR8D8(..) => exec_xor_cp_spec(s, m, ins),
        Instruction::AddR16R16(..) | Instruction::AddR16D8(..) => exec_add16_spec(s, m, ins),
        Instruction::BitR8(..)
        | Instruction::BitAR16(..)
        | Instruction::ResR8(..)
        | Instruction::ResAR16(..)
        | Instruction::SetR8(..)
        | Instruction::SetAR16(..) => exec_bit_ops_spec(s, m, ins),
        Instruction::Rlca
        | Instruction::Rla
        | Instruction::Rrca
        | Instruction::Rra => exec_acc_rotates_spec(s, m, ins),
        Instruction::RlcR8(..)
        | Instruction::RlcAR16(..)
        | Instruction::RlR8(..)
        | Instruction::RlAR16(..)
        | Instruction::RrcR8(..)
        | Instruction::RrcAR16(..)
        | Instruction::RrR8(..)
        | Instruction::RrAR16(..) => exec_rotates_spec(s, m, ins),
        Instruction::SlaR8(..)
        | Instruction::SlaAR16(..)
        | Instruction::SraR8(..)
        | Instruction::SraAR16(..)
        | Instruction::SrlR8(..)
        | Instruction::SrlAR16(..)
        | Instruction::SwapR8(..)
        | Instruction::SwapAR16(..) => exec_shifts_spec(s, m, ins),
        Instruction::JpA16(..)
        | Instruction::JpAR16(..)
        | Instruction::JpFA16(..)
        | Instruction::JpNfA16(..)
        | Instruction::JrA8(..)
        | Instruction::JrFA8(..)
        | Instruction::JrNfA8(..) => exec_jumps_spec(s, m, ins),
        Instruction::CallA16(..)
        | Instruction::CallFA16(..)
        | Instruction::CallNfA16(..)
        | Instruction::Rst(..) => exec_calls_spec(s, m, ins),
        Instruction::Ret
        | Instruction::Reti
        | Instruction::RetF(..)
        | Instruction::RetNf(..) => exec_returns_spec(s, m, ins),
        Instruction::PushR16(..) | Instruction::PopR16(..) => exec_stack_spec(s, m, ins),
        Instruction::Nop
        | Instruction::Halt
        | Instruction::Stop
        | Instruction::Ei
        | Instruction::Di => exec_misc_spec(s, m, ins),
    }
}

/// One step of the driving loop: a halted engine does nothing; otherwise
/// the instruction at PC is decoded and executed, and PC then moves past it
/// unless the instruction branched.
pub open spec fn step_spec(s: Cpu, m: MmuView) -> (Cpu, MmuView) {
    if s.halted {
        (s, m)
    } else {
        let pc = s.register.pc;
        let ins = decoded(m.read8(pc), m.read8(offset16(pc, 1)), m.read8(offset16(pc, 2)));
        let (s2, m2) = execute(s, m, ins);
        if s2.jumped {
            (s2, m2)
        } else {
            (
                Cpu {
                    register: CpuRegister {
                        pc: offset16(s2.register.pc, ins.encoded_len() as int),
                        ..s2.register
                    },
                    ..s2
                },
                m2,
            )
        }
    }
}

/// ALU logic
impl Cpu {
    /// This engine state with another register file.
    pub open spec fn with_register(self, r: CpuRegister) -> Cpu {
        Cpu { register: r, ..self }
    }

    /// The power-on engine: registers zero, running.
    pub fn new() -> (r: Self)
        ensures
            r.register == CpuRegister::new_spec(),
            !r.jumped,
            !r.halted,
    {
        Cpu { register: CpuRegister::new(), jumped: false, halted: false }
    }

    /// Adds a byte to a register, with the carry flag if `use_carry`.
    /// Sets Z, C, N(0), H
    fn add8(&mut self, reg: Reg8Name, imm: u8, use_carry: bool)
        ensures
            *final(self) == old(
                self).with_register(alu_add(old(self).register, reg, imm, use_carry),
            ),
    {
        let c = use_carry && self.register.flag_is_set(BitFlag::C);
        let (res, carry, half) = crate::shared::add(self.register.get_reg8(reg), imm, c);
        self.register.set_reg8(reg, res);
        self.register.set_flags(res == 0, false, half, carry);
    }

    /// Subtracts a byte from a register, with the carry flag as borrow if
    /// `use_carry`.
    /// Sets Z, C, N(1), H
    fn sub8(&mut self, reg: Reg8Name, imm: u8, use_carry: bool)
        ensures
            *final(self) == old(
                self).with_register(alu_sub(old(self).register, reg, imm, use_carry),
            ),
    {
        let c = use_carry && self.register.flag_is_set(BitFlag::C);
        let (res, carry, half) = crate::shared::sub(self.register.get_reg8(reg), imm, c);
        self.register.set_reg8(reg, res);
        self.register.set_flags(res == 0, true, half, carry);
    }

    /// Logical AND with a register.
    /// Sets Z, C(0), N(0), H(1)
    fn and8(&mut self, reg: Reg8Name, imm: u8)
        ensures
            *final(self) == old(self).with_register(alu_and(old(self).register, reg, imm)),
    {
        let val = self.register.get_reg8(reg) & imm;
        self.register.set_reg8(reg, val);
        self.register.set_flags(val == 0, false, true, false);
    }

    /// Logical OR with a register.
    /// Sets Z, C(0), N(0), H(0)
    fn or8(&mut self, reg: Reg8Name, imm: u8)
        ensures
            *final(self) == old(self).with_register(alu_or(old(self).register, reg, imm)),
    {
        let val = self.register.get_reg8(reg) | imm;
        self.register.set_reg8(reg, val);
        self.register.set_flags(val == 0, false, false, false);
    }

    /// Logical XOR with a register.
    /// Sets Z, C(0), N(0), H(0)
    fn xor8(&mut self, reg: Reg8Name, imm: u8)
        ensures
            *final(self) == old(self).with_register(alu_xor(old(self).register, reg, imm)),
    {
        let val = self.register.get_reg8(reg) ^ imm;
        self.register.set_reg8(reg, val);
        self.register.set_flags(val == 0, false, false, false);
    }

    /// Compares a byte with a register by subtracting it; only the flags change.
    /// Sets Z, C, N(1), H
    fn cp8(&mut self, reg: Reg8Name, imm: u8)
        ensures
            *final(self) == old(self).with_register(alu_cp(old(self).register, reg, imm)),
    {
        let (res, carry, half) = crate::shared::sub(self.register.get_reg8(reg), imm, false);
        self.register.set_flags(res == 0, true, half, carry);
    }

    /// Increases a byte by one, wrapping.
    /// Sets Z, N(0), H
    fn inc8(&mut self, byte: &mut u8)
        ensures
            *final(byte) == add8_spec(*old(byte), 1, false).0,
            *final(self) == old(self).with_register(inc_flags(old(self).register, *old(byte))),
    {
        let (val, _carry, half) = crate::shared::add(*byte, 1, false);
        *byte = val;
        let c = self.register.flag_is_set(BitFlag::C);
        self.register.set_flags(val == 0, false, half, c);
    }

    /// Increases a register by one, wrapping.
    /// Sets Z, N(0), H
    fn inc8_reg(&mut self, reg: Reg8Name)
        ensures
            *final(self) == old(self).with_register(inc_reg(old(self).register, reg)),
    {
        let c = self.register.flag_is_set(BitFlag::C);
        let (val, _carry, half) = crate::shared::add(self.register.get_reg8(reg), 1, false);
        self.register.set_reg8(reg, val);
        self.register.set_flags(val == 0, false, half, c);
    }

    /// Decreases a byte by one, wrapping.
    /// Sets Z, N(1), H
    fn dec8(&mut self, byte: &mut u8)
        ensures
            *final(byte) == sub8_spec(*old(byte), 1, false).0,
            *final(self) == old(self).with_register(dec_flags(old(self).register, *old(byte))),
    {
        let (val, _carry, half) = crate::shared::sub(*byte, 1, false);
        *byte = val;
        let c = self.register.flag_is_set(BitFlag::C);
        self.register.set_flags(val == 0, true, half, c);
    }

    /// Decreases a register by one, wrapping.
    /// Sets Z, N(1), H
    fn dec8_reg(&mut self, reg: Reg8Name)
        ensures
            *final(self) == old(self).with_register(dec_reg(old(self).register, reg)),
    {
        let c = self.register.flag_is_set(BitFlag::C);
        let (val, _carry, half) = crate::shared::sub(self.register.get_reg8(reg), 1, false);
        self.register.set_reg8(reg, val);
        self.register.set_flags(val == 0, true, half, c);
    }

    /// Adds a word to a register pair.
    /// Sets C, N(0), H
    fn add16(&mut self, reg: Reg16Name, imm: u16)
        ensures
            *final(self) == old(self).with_register(add_pair(old(self).register, reg, imm)),
    {
        let z = self.register.flag_is_set(BitFlag::Z);
        let (res, carry, half) = crate::shared::add16(self.register.get_reg16(reg), imm, false);
        self.register.set_reg16(reg, res);
        self.register.set_flags(z, false, half, carry);
    }

    /// Adds a signed byte to a 16-bit register.
    /// Sets Z(0), N(0), H, C
    fn add_sp(&mut self, reg: Reg16Name, offset: i8)
        ensures
            *final(self) == old(self).with_register(add_offset(old(self).register, reg, offset)),
    {
        let v = self.register.get_reg16(reg);
        let eb: u8 = #[verifier::truncate] (offset as u8);
        let half = v % 16 + (eb % 16) as u16 > 15;
        let carry = v % 256 + eb as u16 > 255;
        let res = v.wrapping_add_signed(offset as i16);
        assert(res == offset16(v, offset as int));
        self.register.set_reg16(reg, res);
        self.register.set_flags(false, false, half, carry);
    }

    /// Increments a 16-bit register, wrapping.
    /// Sets {}
    fn inc16(&mut self, reg: Reg16Name)
        ensures
            *final(self) == old(
                self).with_register(old(
                    self).register.put16(reg,
                    offset16(old(self).register.get16(reg), 1),
                ),
            ),
    {
        let val = self.register.get_reg16(reg).wrapping_add(1);
        self.register.set_reg16(reg, val);
    }

    /// Decrements a 16-bit register, wrapping.
    /// Sets {}
    fn dec16(&mut self, reg: Reg16Name)
        ensures
            *final(self) == old(
                self).with_register(old(
                    self).register.put16(reg,
                    offset16(old(self).register.get16(reg), -1),
                ),
            ),
    {
        let val = self.register.get_reg16(reg).wrapping_sub(1);
        self.register.set_reg16(reg, val);
    }

    /// Rotates A left, bit 7 into bit 0 and into the carry.
    /// Sets C, N(0), H(0)
    fn rlca(&mut self)
        ensures
            *final(self) == old(
                self).with_register(acc_rotate(old(self).register, rlc_spec(old(self).register.a)),
            ),
    {
        let z = self.register.flag_is_set(BitFlag::Z);
        let (val, carry) = crate::shared::rotate_left1(self.register.a);
        self.register.a = val;
        self.register.set_flags(z, false, false, carry);
    }

    /// Rotates a byte left, bit 7 into bit 0 and into the carry.
    /// Sets Z, C, N(0), H(0)
    fn rlc(&mut self, byte: &mut u8)
        ensures
            *final(byte) == rlc_spec(*old(byte)).0,
            *final(self) == old(
                self).with_register(shift_flags(old(self).register, rlc_spec(*old(byte))),
            ),
    {
        let (val, carry) = crate::shared::rotate_left1(*byte);
        *byte = val;
        self.register.set_flags(val == 0, false, false, carry);
    }

    /// Rotates a register left, bit 7 into bit 0 and into the carry.
    /// Sets Z, C, N(0), H(0)
    fn rlc_reg(&mut self, reg: Reg8Name)
        ensures
            *final(self) == old(
                self).with_register(shift_reg(
                    old(self).register,
                    reg,
                    rlc_spec(old(self).register.get8(reg)),
                ),
            ),
    {
        let (val, carry) = crate::shared::rotate_left1(self.register.get_reg8(reg));
        self.register.set_reg8(reg, val);
        self.register.set_flags(val == 0, false, false, carry);
    }

    /// Rotates A left through the carry.
    /// Sets C, N(0), H(0)
    fn rla(&mut self)
        ensures
            *final(self) == old(
                self).with_register(acc_rotate(
                    old(self).register,
                    rl_spec(old(self).register.a, old(self).register.flag(BitFlag::C)),
                ),
            ),
    {
        let z = self.register.flag_is_set(BitFlag::Z);
        let c = self.register.flag_is_set(BitFlag::C);
        let (val, carry) = crate::shared::rotate_left_carry1(self.register.a, c);
        self.register.a = val;
        self.register.set_flags(z, false, false, carry);
    }

    /// Rotates a byte left through the carry.
    /// Sets Z, C, N(0), H(0)
    fn rl(&mut self, byte: &mut u8)
        ensures
            *final(byte) == rl_spec(*old(byte), old(self).register.flag(BitFlag::C)).0,
            *final(self) == old(
                self).with_register(shift_flags(
                    old(self).register,
                    rl_spec(*old(byte), old(self).register.flag(BitFlag::C)),
                ),
            ),
    {
        let c = self.register.flag_is_set(BitFlag::C);
        let (val, carry) = crate::shared::rotate_left_carry1(*byte, c);
        *byte = val;
        self.register.set_flags(val == 0, false, false, carry);
    }

    /// Rotates a register left through the carry.
    /// Sets Z, C, N(0), H(0)
    fn rl_reg(&mut self, reg: Reg8Name)
        ensures
            *final(self) == old(self).with_register(
                shift_reg(
                    old(self).register,
                    reg,
                    rl_spec(old(self).register.get8(reg), old(self).register.flag(BitFlag::C)),
                ),
            ),
    {
        let c = self.register.flag_is_set(BitFlag::C);
        let (val, carry) = crate::shared::rotate_left_carry1(self.register.get_reg8(reg), c);
        self.register.set_reg8(reg, val);
        self.register.set_flags(val == 0, false, false, carry);
    }

    /// Rotates A right, bit 0 into bit 7 and into the carry.
    /// Sets C, N(0), H(0)
    fn rrca(&mut self)
        ensures
            *final(self) == old(
                self).with_register(acc_rotate(old(self).register, rrc_spec(old(self).register.a)),
            ),
    {
        let z = self.register.flag_is_set(BitFlag::Z);
        let (val, carry) = crate::shared::rotate_right1(self.register.a);
        self.register.a = val;
        self.register.set_flags(z, false, false, carry);
    }

    /// Rotates a byte right, bit 0 into bit 7 and into the carry.
    /// Sets Z, C, N(0), H(0)
    fn rrc(&mut self, byte: &mut u8)
        ensures
            *final(byte) == rrc_spec(*old(byte)).0,
            *final(self) == old(
                self).with_register(shift_flags(old(self).register, rrc_spec(*old(byte))),
            ),
    {
        let (val, carry) = crate::shared::rotate_right1(*byte);
        *byte = val;
        self.register.set_flags(val == 0, false, false, carry);
    }

    /// Rotates a register right, bit 0 into bit 7 and into the carry.
    /// Sets Z, C, N(0), H(0)
    fn rrc_reg(&mut self, reg: Reg8Name)
        ensures
            *final(self) == old(
                self).with_register(shift_reg(
                    old(self).register,
                    reg,
                    rrc_spec(old(self).register.get8(reg)),
                ),
            ),
    {
        let (val, carry) = crate::shared::rotate_right1(self.register.get_reg8(reg));
        self.register.set_reg8(reg, val);
        self.register.set_flags(val == 0, false, false, carry);
    }

    /// Rotates A right through the carry.
    /// Sets C, N(0), H(0)
    fn rra(&mut self)
        ensures
            *final(self) == old(
                self).with_register(acc_rotate(
                    old(self).register,
                    rr_spec(old(self).register.a, old(self).register.flag(BitFlag::C)),
                ),
            ),
    {
        let z = self.register.flag_is_set(BitFlag::Z);
        let c = self.register.flag_is_set(BitFlag::C);
        let (val, carry) = crate::shared::rotate_right_carry1(self.register.a, c);
        self.register.a = val;
        self.register.set_flags(z, false, false, carry);
    }

    /// Rotates a byte right through the carry.
    /// Sets Z, C, N(0), H(0)
    fn rr(&mut self, byte: &mut u8)
        ensures
            *final(byte) == rr_spec(*old(byte), old(self).register.flag(BitFlag::C)).0,
            *final(self) == old(
                self).with_register(shift_flags(
                    old(self).register,
                    rr_spec(*old(byte), old(self).register.flag(BitFlag::C)),
                ),
            ),
    {
        let c = self.register.flag_is_set(BitFlag::C);
        let (val, carry) = crate::shared::rotate_right_carry1(*byte, c);
        *byte = val;
        self.register.set_flags(val == 0, false, false, carry);
    }

    /// Rotates a register right through the carry.
    /// Sets Z, C, N(0), H(0)
    fn rr_reg(&mut self, reg: Reg8Name)
        ensures
            *final(self) == old(self).with_register(
                shift_reg(
                    old(self).register,
                    reg,
                    rr_spec(old(self).register.get8(reg), old(self).register.flag(BitFlag::C)),
                ),
            ),
    {
        let c = self.register.flag_is_set(BitFlag::C);
        let (val, carry) = crate::shared::rotate_right_carry1(self.register.get_reg8(reg), c);
        self.register.set_reg8(reg, val);
        self.register.set_flags(val == 0, false, false, carry);
    }

    /// Shifts a byte left, bit 7 into the carry and zero into bit 0.
    /// Sets Z, C, N(0), H(0)
    fn sla(&mut self, byte: &mut u8)
        ensures
            *final(byte) == sla_spec(*old(byte)).0,
            *final(self) == old(
                self).with_register(shift_flags(old(self).register, sla_spec(*old(byte))),
            ),
    {
        let (val, carry) = crate::shared::shift_left1(*byte);
        *byte = val;
        self.register.set_flags(val == 0, false, false, carry);
    }

    /// Shifts a register left, bit 7 into the carry and zero into bit 0.
    /// Sets Z, C, N(0), H(0)
    fn sla_reg(&mut self, reg: Reg8Name)
        ensures
            *final(self) == old(
                self).with_register(shift_reg(
                    old(self).register,
                    reg,
                    sla_spec(old(self).register.get8(reg)),
                ),
            ),
    {
        let (val, carry) = crate::shared::shift_left1(self.register.get_reg8(reg));
        self.register.set_reg8(reg, val);
        self.register.set_flags(val == 0, false, false, carry);
    }

    /// Shifts a byte right, bit 0 into the carry, bit 7 kept.
    /// Sets Z, C, N(0), H(0)
    fn sra(&mut self, byte: &mut u8)
        ensures
            *final(byte) == sra_spec(*old(byte)).0,
            *final(self) == old(
                self).with_register(shift_flags(old(self).register, sra_spec(*old(byte))),
            ),
    {
        let (val, carry) = crate::shared::shift_right1_arithmetic(*byte);
        *byte = val;
        self.register.set_flags(val == 0, false, false, carry);
    }

    /// Shifts a register right, bit 0 into the carry, bit 7 kept.
    /// Sets Z, C, N(0), H(0)
    fn sra_reg(&mut self, reg: Reg8Name)
        ensures
            *final(self) == old(
                self).with_register(shift_reg(
                    old(self).register,
                    reg,
                    sra_spec(old(self).register.get8(reg)),
                ),
            ),
    {
        let (val, carry) = crate::shared::shift_right1_arithmetic(self.register.get_reg8(reg));
        self.register.set_reg8(reg, val);
        self.register.set_flags(val == 0, false, false, carry);
    }

    /// Shifts a byte right, bit 0 into the carry and zero into bit 7.
    /// Sets Z, C, H(0), N(0)
    fn srl(&mut self, byte: &mut u8)
        ensures
            *final(byte) == srl_spec(*old(byte)).0,
            *final(self) == old(
                self).with_register(shift_flags(old(self).register, srl_spec(*old(byte))),
            ),
    {
        let (val, carry) = crate::shared::shift_right1_logical(*byte);
        *byte = val;
        self.register.set_flags(val == 0, false, false, carry);
    }

    /// Shifts a register right, bit 0 into the carry and zero into bit 7.
    /// Sets Z, C, H(0), N(0)
    fn srl_reg(&mut self, reg: Reg8Name)
        ensures
            *final(self) == old(
                self).with_register(shift_reg(
                    old(self).register,
                    reg,
                    srl_spec(old(self).register.get8(reg)),
                ),
            ),
    {
        let (val, carry) = crate::shared::shift_right1_logical(self.register.get_reg8(reg));
        self.register.set_reg8(reg, val);
        self.register.set_flags(val == 0, false, false, carry);
    }

    /// Tests bit b of a byte: the inverse of the bit goes to Z.
    /// Sets Z, N(0), H(1)
    fn bit(&mut self, byte: &u8, b: u8)
        requires
            b < 8,
        ensures
            *final(self) == old(self).with_register(bit_flags(old(self).register, *byte, b)),
    {
        let set = crate::shared::nth_bit(*byte, b);
        let c = self.register.flag_is_set(BitFlag::C);
        self.register.set_flags(!set, false, true, c);
    }

    /// Tests bit b of a register: the inverse of the bit goes to Z.
    /// Sets Z, N(0), H(1)
    fn bit_reg(&mut self, reg: Reg8Name, b: u8)
        requires
            b < 8,
        ensures
            *final(self) == old(
                self).with_register(bit_flags(old(self).register, old(self).register.get8(reg), b),
            ),
    {
        let old = self.register.get_reg8(reg);
        self.bit(&old, b);
    }

    /// Sets (1) bit b of a byte.
    /// No flags
    fn set(&mut self, byte: &mut u8, b: u8)
        requires
            b < 8,
        ensures
            *final(byte) == with_bit(*old(byte), b),
            *final(self) == *old(self),
    {
        let v = *byte;
        assert(b < 8 ==> v | (1u8 << b) == if (v / bit_weight(b)) % 2 == 1 {
            v
        } else {
            (v + bit_weight(b)) as u8
        }) by (bit_vector);
        *byte = v | (1u8 << b);
    }

    /// Sets (1) bit b of a register.
    /// No flags
    fn set_reg(&mut self, reg: Reg8Name, b: u8)
        requires
            b < 8,
        ensures
            *final(self) == old(
                self).with_register(old(
                    self).register.put8(reg,
                    with_bit(old(self).register.get8(reg), b),
                ),
            ),
    {
        let mut val = self.register.get_reg8(reg);
        self.set(&mut val, b);
        self.register.set_reg8(reg, val);
    }

    /// Resets (0) bit b of a byte.
    /// No flags
    fn reset(&mut self, byte: &mut u8, b: u8)
        requires
            b < 8,
        ensures
            *final(byte) == without_bit(*old(byte), b),
            *final(self) == *old(self),
    {
        let v = *byte;
        assert(b < 8 ==> v & !(1u8 << b) == if (v / bit_weight(b)) % 2 == 1 {
            (v - bit_weight(b)) as u8
        } else {
            v
        }) by (bit_vector);
        *byte = v & !(1u8 << b);
    }

    /// Resets (0) bit b of a register.
    /// No flags
    fn reset_reg(&mut self, reg: Reg8Name, b: u8)
        requires
            b < 8,
        ensures
            *final(self) == old(
                self).with_register(old(
                    self).register.put8(reg,
                    without_bit(old(self).register.get8(reg), b),
                ),
            ),
    {
        let mut val = self.register.get_reg8(reg);
        self.reset(&mut val, b);
        self.register.set_reg8(reg, val);
    }
}

/// Instruction logic
impl Cpu {
    /// Adjusts a register to packed BCD after an addition or subtraction.
    /// Sets Z, C, H(0)
    fn daa(&mut self, reg: Reg8Name)
        ensures
            *final(self) == old(self).with_register(daa_reg(old(self).register, reg)),
    {
        let a = self.register.get_reg8(reg);
        let n = self.register.flag_is_set(BitFlag::N);
        let h = self.register.flag_is_set(BitFlag::H);
        let c = self.register.flag_is_set(BitFlag::C);
        let (res, carry) = if !n {
            let hi_fix = c || a > 0x99;
            let lo_fix = h || a % 16 > 9;
            let hi_add: u16 = if hi_fix {
                0x60
            } else {
                0
            };
            let lo_add: u16 = if lo_fix {
                0x06
            } else {
                0
            };
            let sum: u16 = a as u16 + hi_add + lo_add;
            ((sum % 256) as u8, hi_fix)
        } else {
            let hi_sub: i16 = if c {
                0x60
            } else {
                0
            };
            let lo_sub: i16 = if h {
                0x06
            } else {
                0
            };
            let diff: i16 = a as i16 - hi_sub - lo_sub;
            let res: u8 = if diff < 0 {
                (diff + 256) as u8
            } else {
                diff as u8
            };
            (res, c)
        };
        assert((res, carry) == daa_spec(a, n, h, c));
        self.register.set_reg8(reg, res);
        self.register.set_flags(res == 0, n, false, carry);
    }

    /// Runs the instruction at PC and, unless it branched, moves PC past it.
    /// A halted engine does nothing.
    pub fn step(&mut self, mmu: &mut Mmu)
        requires
            old(mmu).wf(),
        ensures
            final(mmu).wf(),
            (*final(self), final(mmu)@) == step_spec(*old(self), old(mmu)@),
            old(self).register.inv() ==> final(self).register.inv(),
    {
        if !self.halted {
            let pc = self.register.pc;
            assert(pc.wrapping_add(1) == offset16(pc, 1) && pc.wrapping_add(2) == offset16(pc, 2));
            let ins = decode(mmu, pc);
            self.run_ins(mmu, ins);
            if !self.jumped {
                self.register.pc = self.register.pc.wrapping_add(ins.get_size() as u16);
            }
        }
    }

    /// Executes an immediate or absolute-address load.
    fn exec_loads(&mut self, mmu: &mut Mmu, ins: Instruction)
        requires
            old(mmu).wf(),
            ins.bit_indices_ok(),
            ins is LdR8D8 || ins is LdR8A16 || ins is LdA16R8 || ins is LdR8R8 || ins is LdR16D16
                || ins is LdR16R16,
        ensures
            final(mmu).wf(),
            (*final(self), final(mmu)@) == exec_loads_spec(*old(self), old(mmu)@, ins),
    {
        proof {
            reveal(exec_loads_spec);
        }
        //reset internal jump flag
        self.jumped = false;
        match ins {
            Instruction::LdR8D8(reg, imm) => self.register.set_reg8(reg, imm),
            Instruction::LdR8A16(reg, addr) => {
                let v = mmu.read8(addr);
                self.register.set_reg8(reg, v);
            },
            Instruction::LdA16R8(addr, reg) => mmu.write8(addr, self.register.get_reg8(reg)),
            Instruction::LdR8R8(to, from) => {
                let val = self.register.get_reg8(from);
                self.register.set_reg8(to, val);
            },
            Instruction::LdR16D16(reg, imm) => self.register.set_reg16(reg, imm),
            Instruction::LdR16R16(to, from) => {
                let val = self.register.get_reg16(from);
                self.register.set_reg16(to, val);
            },
            // the other instructions are excluded by the precondition
            _ => (),
        }
    }

    /// Executes a load through a register pair.
    fn exec_indirect_loads(&mut self, mmu: &mut Mmu, ins: Instruction)
        requires
            old(mmu).wf(),
            ins.bit_indices_ok(),
            ins is LdAR16R8 || ins is LdAR16D8 || ins is LdR8AR16 || ins is LdA16R16,
        ensures
            final(mmu).wf(),
            (*final(self), final(mmu)@) == exec_indirect_loads_spec(*old(self), old(mmu)@, ins),
    {
        proof {
            reveal(exec_indirect_loads_spec);
        }
        //reset internal jump flag
        self.jumped = false;
        match ins {
            Instruction::LdAR16R8(add_reg, reg) => {
                let addr = self.register.get_reg16(add_reg);
                mmu.write8(addr, self.register.get_reg8(reg));
            },
            Instruction::LdAR16D8(reg, imm) => mmu.write8(self.register.get_reg16(reg), imm),
            Instruction::LdR8AR16(to, from) => {
                let val = mmu.read8(self.register.get_reg16(from));
                self.register.set_reg8(to, val);
            },
            Instruction::LdA16R16(to, from) => mmu.write16(to, self.register.get_reg16(from)),
            // the other instructions are excluded by the precondition
            _ => (),
        }
    }

    /// Executes a load through HL that then steps HL.
    fn exec_stepping_loads(&mut self, mmu: &mut Mmu, ins: Instruction)
        requires
            old(mmu).wf(),
            ins.bit_indices_ok(),
            ins is LdiAR16R8 || ins is LddAR16R8 || ins is LdiR8AR16 || ins is LddR8AR16,
        ensures
            final(mmu).wf(),
            (*final(self), final(mmu)@) == exec_stepping_loads_spec(*old(self), old(mmu)@, ins),
    {
        proof {
            reveal(exec_stepping_loads_spec);
        }
        //reset internal jump flag
        self.jumped = false;
        match ins {
            Instruction::LdiAR16R8(to, from) => {
                let val = self.register.get_reg8(from);
                let addr = self.register.get_reg16(to);
                mmu.write8(addr, val);
                proof {
                    lemma_offset16(addr, 1);
                }
                self.register.set_reg16(to, addr.wrapping_add(1));
            },
            Instruction::LddAR16R8(to, from) => {
                let val = self.register.get_reg8(from);
                let addr = self.register.get_reg16(to);
                mmu.write8(addr, val);
                proof {
                    lemma_offset16(addr, -1);
                }
                self.register.set_reg16(to, addr.wrapping_sub(1));
            },
            Instruction::LdiR8AR16(to, from) => {
                let addr = self.register.get_reg16(from);
                let val = mmu.read8(addr);
                self.register.set_reg8(to, val);
                proof {
                    lemma_offset16(addr, 1);
                }
                self.register.set_reg16(from, addr.wrapping_add(1));
            },
            Instruction::LddR8AR16(to, from) => {
                let addr = self.register.get_reg16(from);
                let val = mmu.read8(addr);
                self.register.set_reg8(to, val);
                proof {
                    lemma_offset16(addr, -1);
                }
                self.register.set_reg16(from, addr.wrapping_sub(1));
            },
            // the other instructions are excluded by the precondition
            _ => (),
        }
    }

    /// Executes a high-page load, or LDHL.
    fn exec_high_loads(&mut self, mmu: &mut Mmu, ins: Instruction)
        requires
            old(mmu).wf(),
            ins.bit_indices_ok(),
            ins is LdhR8A8 || ins is LdhA8R8 || ins is LdhAR8R8 || ins is LdhR8AR8
                || ins is LdhlR16D8,
        ensures
            final(mmu).wf(),
            (*final(self), final(mmu)@) == exec_high_loads_spec(*old(self), old(mmu)@, ins),
    {
        proof {
            reveal(exec_high_loads_spec);
        }
        //reset internal jump flag
        self.jumped = false;
        match ins {
            Instruction::LdhR8A8(to, from_lo) => {
                let val = mmu.read8(0xff00 + from_lo as u16);
                self.register.set_reg8(to, val);
            },
            Instruction::LdhA8R8(to_lo, from) => {
                let val = self.register.get_reg8(from);
                mmu.write8(0xff00 + to_lo as u16, val);
            },
            Instruction::LdhAR8R8(to_lo_reg, from) => {
                let addr = 0xff00 + self.register.get_reg8(to_lo_reg) as u16;
                mmu.write8(addr, self.register.get_reg8(from));
            },
            Instruction::LdhR8AR8(to, from_lo_reg) => {
                let addr = 0xff00 + self.register.get_reg8(from_lo_reg) as u16;
                let val = mmu.read8(addr);
                self.register.set_reg8(to, val);
            },
            Instruction::LdhlR16D8(from, imm) => {
                let new = self.register.get_reg16(from).wrapping_add_signed(imm as i16);
                self.register.set_reg16(Reg16Name::HL, new);
            },
            // the other instructions are excluded by the precondition
            _ => (),
        }
    }

    /// Executes an INC or DEC.
    fn exec_inc_dec(&mut self, mmu: &mut Mmu, ins: Instruction)
        requires
            old(mmu).wf(),
            ins.bit_indices_ok(),
            ins is IncR8 || ins is IncR16 || ins is IncAR16 || ins is DecR8 || ins is DecR16
                || ins is DecAR16,
        ensures
            final(mmu).wf(),
            (*final(self), final(mmu)@) == exec_inc_dec_spec(*old(self), old(mmu)@, ins),
    {
        proof {
            reveal(exec_inc_dec_spec);
        }
        //reset internal jump flag
        self.jumped = false;
        match ins {
            Instruction::IncR8(reg) => self.inc8_reg(reg),
            Instruction::IncR16(reg) => self.inc16(reg),
            Instruction::IncAR16(reg) => {
                let addr = self.register.get_reg16(reg);
                let mut val = mmu.read8(addr);
                self.inc8(&mut val);
                mmu.write8(addr, val);
            },
            Instruction::DecR8(reg) => self.dec8_reg(reg),
            Instruction::DecR16(reg) => self.dec16(reg),
            Instruction::DecAR16(reg) => {
                let addr = self.register.get_reg16(reg);
                let mut val = mmu.read8(addr);
                self.dec8(&mut val);
                mmu.write8(addr, val);
            },
            // the other instructions are excluded by the precondition
            _ => (),
        }
    }

    /// Executes SCF, CCF, CPL or DAA.
    fn exec_flag_ops(&mut self, mmu: &mut Mmu, ins: Instruction)
        requires
            old(mmu).wf(),
            ins.bit_indices_ok(),
            ins is Scf || ins is Ccf || ins is Cpl || ins is DaaR8,
        ensures
            final(mmu).wf(),
            (*final(self), final(mmu)@) == exec_flag_ops_spec(*old(self), old(mmu)@, ins),
    {
        proof {
            reveal(exec_flag_ops_spec);
        }
        //reset internal jump flag
        self.jumped = false;
        match ins {
            Instruction::Scf => {
                let z = self.register.flag_is_set(BitFlag::Z);
                self.register.set_flags(z, false, false, true);
            },
            Instruction::Ccf => {
                let z = self.register.flag_is_set(BitFlag::Z);
                let c = self.register.flag_is_set(BitFlag::C);
                self.register.set_flags(z, false, false, !c);
            },
            Instruction::Cpl => {
                let z = self.register.flag_is_set(BitFlag::Z);
                let c = self.register.flag_is_set(BitFlag::C);
                let a = self.register.a;
                assert(a ^ 0xff == 255 - a) by (bit_vector);
                self.register.a = a ^ 0xff;
                self.register.set_flags(z, true, true, c);
            },
            Instruction::DaaR8(reg) => self.daa(reg),
            // the other instructions are excluded by the precondition
            _ => (),
        }
    }

    /// Executes an 8-bit ADD or ADC.
    fn exec_adds(&mut self, mmu: &mut Mmu, ins: Instruction)
        requires
            old(mmu).wf(),
            ins.bit_indices_ok(),
            ins is AddR8R8 || ins is AddR8D8 || ins is AddR8AR16 || ins is AdcR8R8 || ins is AdcR8D8
                || ins is AdcR8AR16,
        ensures
            final(mmu).wf(),
            (*final(self), final(mmu)@) == exec_adds_spec(*old(self), old(mmu)@, ins),
    {
        proof {
            reveal(exec_adds_spec);
        }
        //reset internal jump flag
        self.jumped = false;
        match ins {
            Instruction::AddR8R8(to, from) => {
                let val = self.register.get_reg8(from);
                self.add8(to, val, false);
            },
            Instruction::AddR8D8(reg, imm) => self.add8(reg, imm, false),
            Instruction::AddR8AR16(to, from) => {
                let val = mmu.read8(self.register.get_reg16(from));
                self.add8(to, val, false);
            },
            Instruction::AdcR8R8(to, from) => {
                let val = self.register.get_reg8(from);
                self.add8(to, val, true);
            },
            Instruction::AdcR8D8(reg, imm) => self.add8(reg, imm, true),
            Instruction::AdcR8AR16(to, from) => {
                let val = mmu.read8(self.register.get_reg16(from));
                self.add8(to, val, true);
            },
            // the other instructions are excluded by the precondition
            _ => (),
        }
    }

    /// Executes an 8-bit SUB or SBC.
    fn exec_subs(&mut self, mmu: &mut Mmu, ins: Instruction)
        requires
            old(mmu).wf(),
            ins.bit_indices_ok(),
            ins is SubR8R8 || ins is SubR8D8 || ins is SubR8AR16 || ins is SbcR8R8
                || ins is SbcR8AR16 || ins is SbcR8D8,
        ensures
            final(mmu).wf(),
            (*final(self), final(mmu)@) == exec_subs_spec(*old(self), old(mmu)@, ins),
    {
        proof {
            reveal(exec_subs_spec);
        }
        //reset internal jump flag
        self.jumped = false;
        match ins {
            Instruction::SubR8R8(to, from) => {
                let val = self.register.get_reg8(from);
                self.sub8(to, val, false);
            },
            Instruction::SubR8D8(to, imm) => self.sub8(to, imm, false),
            Instruction::SubR8AR16(to, from) => {
                let val = mmu.read8(self.register.get_reg16(from));
                self.sub8(to, val, false);
            },
            Instruction::SbcR8R8(to, from) => {
                let val = self.register.get_reg8(from);
                self.sub8(to, val, true);
            },
            Instruction::SbcR8AR16(to, from) => {
                let val = mmu.read8(self.register.get_reg16(from));
                self.sub8(to, val, true);
            },
            Instruction::SbcR8D8(to, imm) => self.sub8(to, imm, true),
            // the other instructions are excluded by the precondition
            _ => (),
        }
    }

    /// Executes an AND or OR.
    fn exec_and_or(&mut self, mmu: &mut Mmu, ins: Instruction)
        requires
            old(mmu).wf(),
            ins.bit_indices_ok(),
            ins is AndR8R8 || ins is AndR8D8 || ins is AndR8AR16 || ins is OrR8R8 || ins is OrR8D8
                || ins is OrR8AR16,
        ensures
            final(mmu).wf(),
            (*final(self), final(mmu)@) == exec_and_or_spec(*old(self), old(mmu)@, ins),
    {
        proof {
            reveal(exec_and_or_spec);
        }
        //reset internal jump flag
        self.jumped = false;
        match ins {
            Instruction::AndR8R8(to, from) => {
                let val = self.register.get_reg8(from);
                self.and8(to, val);
            },
            Instruction::AndR8D8(to, imm) => self.and8(to, imm),
            Instruction::AndR8AR16(to, from) => {
                let val = mmu.read8(self.register.get_reg16(from));
                self.and8(to, val);
            },
            Instruction::OrR8R8(to, from) => {
                let val = self.register.get_reg8(from);
                self.or8(to, val);
            },
            Instruction::OrR8D8(to, imm) => self.or8(to, imm),
            Instruction::OrR8AR16(to, from) => {
                let val = mmu.read8(self.register.get_reg16(from));
                self.or8(to, val);
            },
            // the other instructions are excluded by the precondition
            _ => (),
        }
    }

    /// Executes an XOR or CP.
    fn exec_xor_cp(&mut self, mmu: &mut Mmu, ins: Instruction)
        requires
            old(mmu).wf(),
            ins.bit_indices_ok(),
            ins is XorR8R8 || ins is XorR8D8 || ins is XorR8AR16 || ins is CpR8R8 || ins is CpR8AR16
                || ins is CpR8D8,
        ensures
            final(mmu).wf(),
            (*final(self), final(mmu)@) == exec_xor_cp_spec(*old(self), old(mmu)@, ins),
    {
        proof {
            reveal(exec_xor_cp_spec);
        }
        //reset internal jump flag
        self.jumped = false;
        match ins {
            Instruction::XorR8R8(to, from) => {
                let val = self.register.get_reg8(from);
                self.xor8(to, val);
            },
            Instruction::XorR8D8(to, imm) => self.xor8(to, imm),
            Instruction::XorR8AR16(to, from) => {
                let val = mmu.read8(self.register.get_reg16(from));
                self.xor8(to, val);
            },
            Instruction::CpR8R8(to, from) => {
                let val = self.register.get_reg8(from);
                self.cp8(to, val);
            },
            Instruction::CpR8AR16(to, from) => {
                let val = mmu.read8(self.register.get_reg16(from));
                self.cp8(to, val);
            },
            Instruction::CpR8D8(to, imm) => self.cp8(to, imm),
            // the other instructions are excluded by the precondition
            _ => (),
        }
    }

    /// Executes a 16-bit addition.
    fn exec_add16(&mut self, mmu: &mut Mmu, ins: Instruction)
        requires
            old(mmu).wf(),
            ins.bit_indices_ok(),
            ins is AddR16R16 || ins is AddR16D8,
        ensures
            final(mmu).wf(),
            (*final(self), final(mmu)@) == exec_add16_spec(*old(self), old(mmu)@, ins),
    {
        proof {
            reveal(exec_add16_spec);
        }
        //reset internal jump flag
        self.jumped = false;
        match ins {
            Instruction::AddR16R16(to, from) => {
                let fval = self.register.get_reg16(from);
                self.add16(to, fval);
            },
            Instruction::AddR16D8(to, imm) => self.add_sp(to, imm),
            // the other instructions are excluded by the precondition
            _ => (),
        }
    }

    /// Executes a BIT, RES or SET.
    fn exec_bit_ops(&mut self, mmu: &mut Mmu, ins: Instruction)
        requires
            old(mmu).wf(),
            ins.bit_indices_ok(),
            ins is BitR8 || ins is BitAR16 || ins is ResR8 || ins is ResAR16 || ins is SetR8
                || ins is SetAR16,
        ensures
            final(mmu).wf(),
            (*final(self), final(mmu)@) == exec_bit_ops_spec(*old(self), old(mmu)@, ins),
    {
        proof {
            reveal(exec_bit_ops_spec);
        }
        //reset internal jump flag
        self.jumped = false;
        match ins {
            Instruction::BitR8(bit, reg) => self.bit_reg(reg, bit),
            Instruction::BitAR16(bit, reg) => {
                let val = mmu.read8(self.register.get_reg16(reg));
                self.bit(&val, bit);
            },
            Instruction::ResR8(bit, reg) => self.reset_reg(reg, bit),
            Instruction::ResAR16(bit, reg) => {
                let addr = self.register.get_reg16(reg);
                let mut val = mmu.read8(addr);
                self.reset(&mut val, bit);
                mmu.write8(addr, val);
            },
            Instruction::SetR8(bit, reg) => self.set_reg(reg, bit),
            Instruction::SetAR16(bit, reg) => {
                let addr = self.register.get_reg16(reg);
                let mut val = mmu.read8(addr);
                self.set(&mut val, bit);
                mmu.write8(addr, val);
            },
            // the other instructions are excluded by the precondition
            _ => (),
        }
    }

    /// Executes an accumulator rotate.
    fn exec_acc_rotates(&mut self, mmu: &mut Mmu, ins: Instruction)
        requires
            old(mmu).wf(),
            ins.bit_indices_ok(),
            ins is Rlca || ins is Rla || ins is Rrca || ins is Rra,
        ensures
            final(mmu).wf(),
            (*final(self), final(mmu)@) == exec_acc_rotates_spec(*old(self), old(mmu)@, ins),
    {
        proof {
            reveal(exec_acc_rotates_spec);
        }
        //reset internal jump flag
        self.jumped = false;
        match ins {
            Instruction::Rlca => self.rlca(),
            Instruction::Rla => self.rla(),
            Instruction::Rrca => self.rrca(),
            Instruction::Rra => self.rra(),
            // the other instructions are excluded by the precondition
            _ => (),
        }
    }

    /// Executes a rotate of the 0xCB table.
    fn exec_rotates(&mut self, mmu: &mut Mmu, ins: Instruction)
        requires
            old(mmu).wf(),
            ins.bit_indices_ok(),
            ins is RlcR8 || ins is RlcAR16 || ins is RlR8 || ins is RlAR16 || ins is RrcR8
                || ins is RrcAR16 || ins is RrR8 || ins is RrAR16,
        ensures
            final(mmu).wf(),
            (*final(self), final(mmu)@) == exec_rotates_spec(*old(self), old(mmu)@, ins),
    {
        proof {
            reveal(exec_rotates_spec);
        }
        //reset internal jump flag
        self.jumped = false;
        match ins {
            Instruction::RlcR8(reg) => self.rlc_reg(reg),
            Instruction::RlcAR16(reg) => {
                let addr = self.register.get_reg16(reg);
                let mut val = mmu.read8(addr);
                self.rlc(&mut val);
                mmu.write8(addr, val);
            },
            Instruction::RlR8(reg) => self.rl_reg(reg),
            Instruction::RlAR16(reg) => {
                let addr = self.register.get_reg16(reg);
                let mut val = mmu.read8(addr);
                self.rl(&mut val);
                mmu.write8(addr, val);
            },
            Instruction::RrcR8(reg) => self.rrc_reg(reg),
            Instruction::RrcAR16(reg) => {
                let addr = self.register.get_reg16(reg);
                let mut val = mmu.read8(addr);
                self.rrc(&mut val);
                mmu.write8(addr, val);
            },
            Instruction::RrR8(reg) => self.rr_reg(reg),
            Instruction::RrAR16(reg) => {
                let addr = self.register.get_reg16(reg);
                let mut val = mmu.read8(addr);
                self.rr(&mut val);
                mmu.write8(addr, val);
            },
            // the other instructions are excluded by the precondition
            _ => (),
        }
    }

    /// Executes a shift or nibble swap.
    fn exec_shifts(&mut self, mmu: &mut Mmu, ins: Instruction)
        requires
            old(mmu).wf(),
            ins.bit_indices_ok(),
            ins is SlaR8 || ins is SlaAR16 || ins is SraR8 || ins is SraAR16 || ins is SrlR8
                || ins is SrlAR16 || ins is SwapR8 || ins is SwapAR16,
        ensures
            final(mmu).wf(),
            (*final(self), final(mmu)@) == exec_shifts_spec(*old(self), old(mmu)@, ins),
    {
        proof {
            reveal(exec_shifts_spec);
        }
        //reset internal jump flag
        self.jumped = false;
        match ins {
            Instruction::SlaR8(reg) => self.sla_reg(reg),
            Instruction::SlaAR16(reg) => {
                let addr = self.register.get_reg16(reg);
                let mut val = mmu.read8(addr);
                self.sla(&mut val);
                mmu.write8(addr, val);
            },
            Instruction::SraR8(reg) => self.sra_reg(reg),
            Instruction::SraAR16(reg) => {
                let addr = self.register.get_reg16(reg);
                let mut val = mmu.read8(addr);
                self.sra(&mut val);
                mmu.write8(addr, val);
            },
            Instruction::SrlR8(reg) => self.srl_reg(reg),
            Instruction::SrlAR16(reg) => {
                let addr = self.register.get_reg16(reg);
                let mut val = mmu.read8(addr);
                self.srl(&mut val);
                mmu.write8(addr, val);
            },
            Instruction::SwapR8(reg) => {
                let mut v = self.register.get_reg8(reg);
                crate::shared::swap8(&mut v);
                self.register.set_reg8(reg, v);
                self.register.set_flags(v == 0, false, false, false);
            },
            Instruction::SwapAR16(reg) => {
                let addr = self.register.get_reg16(reg);
                let mut v = mmu.read8(addr);
                crate::shared::swap8(&mut v);
                mmu.write8(addr, v);
                self.register.set_flags(v == 0, false, false, false);
            },
            // the other instructions are excluded by the precondition
            _ => (),
        }
    }

    /// Executes a jump.
    fn exec_jumps(&mut self, mmu: &mut Mmu, ins: Instruction)
        requires
            old(mmu).wf(),
            ins.bit_indices_ok(),
            ins is JpA16 || ins is JpAR16 || ins is JpFA16 || ins is JpNfA16 || ins is JrA8
                || ins is JrFA8 || ins is JrNfA8,
        ensures
            final(mmu).wf(),
            (*final(self), final(mmu)@) == exec_jumps_spec(*old(self), old(mmu)@, ins),
    {
        proof {
            reveal(exec_jumps_spec);
        }
        //reset internal jump flag
        self.jumped = false;
        match ins {
            Instruction::JpA16(addr) => {
                self.register.pc = addr;
                self.jumped = true;
            },
            Instruction::JpAR16(reg) => {
                let addr = self.register.get_reg16(reg);
                self.register.pc = addr;
                self.jumped = true;
            },
            Instruction::JpFA16(flag, addr) => {
                if self.register.flag_is_set(flag) {
                    self.register.pc = addr;
                    self.jumped = true;
                }
            },
            Instruction::JpNfA16(flag, addr) => {
                if self.register.flag_is_unset(flag) {
                    self.register.pc = addr;
                    self.jumped = true;
                }
            },
            Instruction::JrA8(offset) => {
                proof {
                    lemma_offset16(self.register.pc, 2);
                    lemma_offset16(self.register.pc.wrapping_add(2), offset as int);
                    lemma_offset16(self.register.pc, 2 + offset);
                }
                self.register.pc = self.register.pc.wrapping_add(2).wrapping_add_signed(
                    offset as i16,
                );
                self.jumped = true;
            },
            Instruction::JrFA8(flag, offset) => {
                if self.register.flag_is_set(flag) {
                    proof {
                        lemma_offset16(self.register.pc, 2);
                        lemma_offset16(self.register.pc.wrapping_add(2), offset as int);
                        lemma_offset16(self.register.pc, 2 + offset);
                    }
                    self.register.pc = self.register.pc.wrapping_add(2).wrapping_add_signed(
                        offset as i16,
                    );
                    self.jumped = true;
                }
            },
            Instruction::JrNfA8(flag, offset) => {
                if self.register.flag_is_unset(flag) {
                    proof {
                        lemma_offset16(self.register.pc, 2);
                        lemma_offset16(self.register.pc.wrapping_add(2), offset as int);
                        lemma_offset16(self.register.pc, 2 + offset);
                    }
                    self.register.pc = self.register.pc.wrapping_add(2).wrapping_add_signed(
                        offset as i16,
                    );
                    self.jumped = true;
                }
            },
            // the other instructions are excluded by the precondition
            _ => (),
        }
    }

    /// Executes a call or restart.
    fn exec_calls(&mut self, mmu: &mut Mmu, ins: Instruction)
        requires
            old(mmu).wf(),
            ins.bit_indices_ok(),
            ins is CallA16 || ins is CallFA16 || ins is CallNfA16 || ins is Rst,
        ensures
            final(mmu).wf(),
            (*final(self), final(mmu)@) == exec_calls_spec(*old(self), old(mmu)@, ins),
    {
        proof {
            reveal(exec_calls_spec);
        }
        //reset internal jump flag
        self.jumped = false;
        match ins {
            Instruction::CallA16(addr) => {
                let pc = self.register.pc.wrapping_add(3);
                mmu.push_stack(&mut self.register.sp, pc);
                self.register.pc = addr;
                self.jumped = true;
            },
            Instruction::CallFA16(flag, addr) => {
                if self.register.flag_is_set(flag) {
                    let pc = self.register.pc.wrapping_add(3);
                    mmu.push_stack(&mut self.register.sp, pc);
                    self.register.pc = addr;
                    self.jumped = true;
                }
            },
            Instruction::CallNfA16(flag, addr) => {
                if self.register.flag_is_unset(flag) {
                    let pc = self.register.pc.wrapping_add(3);
                    mmu.push_stack(&mut self.register.sp, pc);
                    self.register.pc = addr;
                    self.jumped = true;
                }
            },
            Instruction::Rst(addr) => {
                let pc = self.register.pc.wrapping_add(1);
                mmu.push_stack(&mut self.register.sp, pc);
                self.register.pc = addr;
                self.jumped = true;
            },

            // the other instructions are excluded by the precondition
            _ => (),
        }
    }

    /// Executes a return.
    fn exec_returns(&mut self, mmu: &mut Mmu, ins: Instruction)
        requires
            old(mmu).wf(),
            ins.bit_indices_ok(),
            ins is Ret || ins is Reti || ins is RetF || ins is RetNf,
        ensures
            final(mmu).wf(),
            (*final(self), final(mmu)@) == exec_returns_spec(*old(self), old(mmu)@, ins),
    {
        proof {
            reveal(exec_returns_spec);
        }
        //reset internal jump flag
        self.jumped = false;
        match ins {
            Instruction::Ret => {
                let pc = mmu.pop_stack(&mut self.register.sp);
                self.register.pc = pc;
                self.jumped = true;
            },
            Instruction::Reti => {
                let pc = mmu.pop_stack(&mut self.register.sp);
                self.register.pc = pc;
                self.jumped = true;
                mmu.enable_interrupts();
            },
            Instruction::RetF(flag) => {
                if self.register.flag_is_set(flag) {
                    let pc = mmu.pop_stack(&mut self.register.sp);
                    self.register.pc = pc;
                    self.jumped = true;
                }
            },
            Instruction::RetNf(flag) => {
                if self.register.flag_is_unset(flag) {
                    let pc = mmu.pop_stack(&mut self.register.sp);
                    self.register.pc = pc;
                    self.jumped = true;
                }
            },
            // the other instructions are excluded by the precondition
            _ => (),
        }
    }

    /// Executes a PUSH or POP.
    fn exec_stack(&mut self, mmu: &mut Mmu, ins: Instruction)
        requires
            old(mmu).wf(),
            ins.bit_indices_ok(),
            ins is PushR16 || ins is PopR16,
        ensures
            final(mmu).wf(),
            (*final(self), final(mmu)@) == exec_stack_spec(*old(self), old(mmu)@, ins),
    {
        proof {
            reveal(exec_stack_spec);
        }
        //reset internal jump flag
        self.jumped = false;
        match ins {
            Instruction::PushR16(reg) => {
                let val = self.register.get_reg16(reg);
                mmu.push_stack(&mut self.register.sp, val);
            },
            Instruction::PopR16(reg) => {
                let val = mmu.pop_stack(&mut self.register.sp);
                self.register.set_reg16(reg, val);
            },
            // the other instructions are excluded by the precondition
            _ => (),
        }
    }

    /// Executes NOP, HALT, STOP, EI or DI.
    fn exec_misc(&mut self, mmu: &mut Mmu, ins: Instruction)
        requires
            old(mmu).wf(),
            ins.bit_indices_ok(),
            ins is Nop || ins is Halt || ins is Stop || ins is Ei || ins is Di,
        ensures
            final(mmu).wf(),
            (*final(self), final(mmu)@) == exec_misc_spec(*old(self), old(mmu)@, ins),
    {
        proof {
            reveal(exec_misc_spec);
        }
        //reset internal jump flag
        self.jumped = false;
        match ins {
            Instruction::Nop => (),
            Instruction::Halt => self.halted = true,
            Instruction::Stop => (),
            Instruction::Ei => mmu.enable_interrupts(),
            Instruction::Di => mmu.disable_interrupts(),
            // the other instructions are excluded by the precondition
            _ => (),
        }
    }

    /// Executes one instruction, with PC at that instruction; `jumped` then
    /// says whether it branched.
    pub fn run_ins(&mut self, mmu: &mut Mmu, ins: Instruction)
        requires
            old(mmu).wf(),
            ins.bit_indices_ok(),
        ensures
            final(mmu).wf(),
            (*final(self), final(mmu)@) == execute(*old(self), old(mmu)@, ins),
            old(self).register.inv() ==> final(self).register.inv(),
    {
        proof {
            reveal(execute);
            if old(self).register.inv() {
                lemma_execute_inv(*old(self), old(mmu)@, ins);
            }
        }
        match ins {
            Instruction::LdR8D8(..)
            | Instruction::LdR8A16(..)
            | Instruction::LdA16R8(..)
            | Instruction::LdR8R8(..)
            | Instruction::LdR16D16(..)
            | Instruction::LdR16R16(..) => self.exec_loads(mmu, ins),
            Instruction::LdAR16R8(..)
            | Instruction::LdAR16D8(..)
            | Instruction::LdR8AR16(..)
            | Instruction::LdA16R16(..) => self.exec_indirect_loads(mmu, ins),
            Instruction::LdiAR16R8(..)
            | Instruction::LddAR16R8(..)
            | Instruction::LdiR8AR16(..)
            | Instruction::LddR8AR16(..) => self.exec_stepping_loads(mmu, ins),
            Instruction::LdhR8A8(..)
            | Instruction::LdhA8R8(..)
            | Instruction::LdhAR8R8(..)
            | Instruction::LdhR8AR8(..)
            | Instruction::LdhlR16D8(..) => self.exec_high_loads(mmu, ins),
            Instruction::IncR8(..)
            | Instruction::IncR16(..)
            | Instruction::IncAR16(..)
            | Instruction::DecR8(..)
            | Instruction::DecR16(..)
            | Instruction::DecAR16(..) => self.exec_inc_dec(mmu, ins),
            Instruction::Scf
            | Instruction::Ccf
            | Instruction::Cpl
            | Instruction::DaaR8(..) => self.exec_flag_ops(mmu, ins),
            Instruction::AddR8R8(..)
            | Instruction::AddR8D8(..)
            | Instruction::AddR8AR16(..)
            | Instruction::AdcR8R8(..)
            | Instruction::AdcR8D8(..)
            | Instruction::AdcR8AR16(..) => self.exec_adds(mmu, ins),
            Instruction::SubR8R8(..)
            | Instruction::SubR8D8(..)
            | Instruction::SubR8AR16(..)
            | Instruction::SbcR8R8(..)
            | Instruction::SbcR8AR16(..)
            | Instruction::SbcR8D8(..) => self.exec_subs(mmu, ins),
            Instruction::AndR8R8(..)
            | Instruction::AndR8D8(..)
            | Instruction::AndR8AR16(..)
            | Instruction::OrR8R8(..)
            | Instruction::OrR8D8(..)
            | Instruction::OrR8AR16(..) => self.exec_and_or(mmu, ins),
            Instruction::XorR8R8(..)
            | Instruction::XorR8D8(..)
            | Instruction::XorR8AR16(..)
            | Instruction::CpR8R8(..)
            | Instruction::CpR8AR16(..)
            | Instruction::CpR8D8(..) => self.exec_xor_cp(mmu, ins),
            Instruction::AddR16R16(..) | Instruction::AddR16D8(..) => self.exec_add16(mmu, ins),
            Instruction::BitR8(..)
            | Instruction::BitAR16(..)
            | Instruction::ResR8(..)
            | Instruction::ResAR16(..)
            | Instruction::SetR8(..)
            | Instruction::SetAR16(..) => self.exec_bit_ops(mmu, ins),
            Instruction::Rlca
            | Instruction::Rla
            | Instruction::Rrca
            | Instruction::Rra => self.exec_acc_rotates(mmu, ins),
            Instruction::RlcR8(..)
            | Instruction::RlcAR16(..)
            | Instruction::RlR8(..)
            | Instruction::RlAR16(..)
            | Instruction::RrcR8(..)
            | Instruction::RrcAR16(..)
            | Instruction::RrR8(..)
            | Instruction::RrAR16(..) => self.exec_rotates(mmu, ins),
            Instruction::SlaR8(..)
            | Instruction::SlaAR16(..)
            | Instruction::SraR8(..)
            | Instruction::SraAR16(..)
            | Instruction::SrlR8(..)
            | Instruction::SrlAR16(..)
            | Instruction::SwapR8(..)
            | Instruction::SwapAR16(..) => self.exec_shifts(mmu, ins),
            Instruction::JpA16(..)
            | Instruction::JpAR16(..)
            | Instruction::JpFA16(..)
            | Instruction::JpNfA16(..)
            | Instruction::JrA8(..)
            | Instruction::JrFA8(..)
            | Instruction::JrNfA8(..) => self.exec_jumps(mmu, ins),
            Instruction::CallA16(..)
            | Instruction::CallFA16(..)
            | Instruction::CallNfA16(..)
            | Instruction::Rst(..) => self.exec_calls(mmu, ins),
            Instruction::Ret
            | Instruction::Reti
            | Instruction::RetF(..)
            | Instruction::RetNf(..) => self.exec_returns(mmu, ins),
            Instruction::PushR16(..) | Instruction::PopR16(..) => self.exec_stack(mmu, ins),
            Instruction::Nop
            | Instruction::Halt
            | Instruction::Stop
            | Instruction::Ei
            | Instruction::Di => self.exec_misc(mmu, ins),
        }
    }
}

proof fn lemma_exec_loads_inv(s: Cpu, m: MmuView, ins: Instruction)
    requires
        s.register.inv(),
    ensures
        exec_loads_spec(s, m, ins).0.register.inv(),
{
    reveal(exec_loads_spec);
    lemma_flag_byte_values();
}

proof fn lemma_exec_indirect_loads_inv(s: Cpu, m: MmuView, ins: Instruction)
    requires
        s.register.inv(),
    ensures
        exec_indirect_loads_spec(s, m, ins).0.register.inv(),
{
    reveal(exec_indirect_loads_spec);
    lemma_flag_byte_values();
}

proof fn lemma_exec_stepping_loads_inv(s: Cpu, m: MmuView, ins: Instruction)
    requires
        s.register.inv(),
    ensures
        exec_stepping_loads_spec(s, m, ins).0.register.inv(),
{
    reveal(exec_stepping_loads_spec);
    lemma_flag_byte_values();
}

proof fn lemma_exec_high_loads_inv(s: Cpu, m: MmuView, ins: Instruction)
    requires
        s.register.inv(),
    ensures
        exec_high_loads_spec(s, m, ins).0.register.inv(),
{
    reveal(exec_high_loads_spec);
    lemma_flag_byte_values();
}

proof fn lemma_exec_inc_dec_inv(s: Cpu, m: MmuView, ins: Instruction)
    requires
        s.register.inv(),
    ensures
        exec_inc_dec_spec(s, m, ins).0.register.inv(),
{
    reveal(exec_inc_dec_spec);
    lemma_flag_byte_values();
}

proof fn lemma_exec_flag_ops_inv(s: Cpu, m: MmuView, ins: Instruction)
    requires
        s.register.inv(),
    ensures
        exec_flag_ops_spec(s, m, ins).0.register.inv(),
{
    reveal(exec_flag_ops_spec);
    lemma_flag_byte_values();
}

proof fn lemma_exec_adds_inv(s: Cpu, m: MmuView, ins: Instruction)
    requires
        s.register.inv(),
    ensures
        exec_adds_spec(s, m, ins).0.register.inv(),
{
    reveal(exec_adds_spec);
    lemma_flag_byte_values();
}

proof fn lemma_exec_subs_inv(s: Cpu, m: MmuView, ins: Instruction)
    requires
        s.register.inv(),
    ensures
        exec_subs_spec(s, m, ins).0.register.inv(),
{
    reveal(exec_subs_spec);
    lemma_flag_byte_values();
}

proof fn lemma_exec_and_or_inv(s: Cpu, m: MmuView, ins: Instruction)
    requires
        s.register.inv(),
    ensures
        exec_and_or_spec(s, m, ins).0.register.inv(),
{
    reveal(exec_and_or_spec);
    lemma_flag_byte_values();
}

proof fn lemma_exec_xor_cp_inv(s: Cpu, m: MmuView, ins: Instruction)
    requires
        s.register.inv(),
    ensures
        exec_xor_cp_spec(s, m, ins).0.register.inv(),
{
    reveal(exec_xor_cp_spec);
    lemma_flag_byte_values();
}

proof fn lemma_exec_add16_inv(s: Cpu, m: MmuView, ins: Instruction)
    requires
        s.register.inv(),
    ensures
        exec_add16_spec(s, m, ins).0.register.inv(),
{
    reveal(exec_add16_spec);
    lemma_flag_byte_values();
}

proof fn lemma_exec_bit_ops_inv(s: Cpu, m: MmuView, ins: Instruction)
    requires
        s.register.inv(),
    ensures
        exec_bit_ops_spec(s, m, ins).0.register.inv(),
{
    reveal(exec_bit_ops_spec);
    lemma_flag_byte_values();
}

proof fn lemma_exec_acc_rotates_inv(s: Cpu, m: MmuView, ins: Instruction)
    requires
        s.register.inv(),
    ensures
        exec_acc_rotates_spec(s, m, ins).0.register.inv(),
{
    reveal(exec_acc_rotates_spec);
    lemma_flag_byte_values();
}

proof fn lemma_exec_rotates_inv(s: Cpu, m: MmuView, ins: Instruction)
    requires
        s.register.inv(),
    ensures
        exec_rotates_spec(s, m, ins).0.register.inv(),
{
    reveal(exec_rotates_spec);
    lemma_flag_byte_values();
}

proof fn lemma_exec_shifts_inv(s: Cpu, m: MmuView, ins: Instruction)
    requires
        s.register.inv(),
    ensures
        exec_shifts_spec(s, m, ins).0.register.inv(),
{
    reveal(exec_shifts_spec);
    lemma_flag_byte_values();
}

proof fn lemma_exec_jumps_inv(s: Cpu, m: MmuView, ins: Instruction)
    requires
        s.register.inv(),
    ensures
        exec_jumps_spec(s, m, ins).0.register.inv(),
{
    reveal(exec_jumps_spec);
    lemma_flag_byte_values();
}

proof fn lemma_exec_calls_inv(s: Cpu, m: MmuView, ins: Instruction)
    requires
        s.register.inv(),
    ensures
        exec_calls_spec(s, m, ins).0.register.inv(),
{
    reveal(exec_calls_spec);
    lemma_flag_byte_values();
}

proof fn lemma_exec_returns_inv(s: Cpu, m: MmuView, ins: Instruction)
    requires
        s.register.inv(),
    ensures
        exec_returns_spec(s, m, ins).0.register.inv(),
{
    reveal(exec_returns_spec);
    lemma_flag_byte_values();
}

proof fn lemma_exec_stack_inv(s: Cpu, m: MmuView, ins: Instruction)
    requires
        s.register.inv(),
    ensures
        exec_stack_spec(s, m, ins).0.register.inv(),
{
    reveal(exec_stack_spec);
    lemma_flag_byte_values();
}

proof fn lemma_exec_misc_inv(s: Cpu, m: MmuView, ins: Instruction)
    requires
        s.register.inv(),
    ensures
        exec_misc_spec(s, m, ins).0.register.inv(),
{
    reveal(exec_misc_spec);
    lemma_flag_byte_values();
}

/// Executing an instruction keeps the low nibble of F zero.
pub proof fn lemma_execute_inv(s: Cpu, m: MmuView, ins: Instruction)
    requires
        s.register.inv(),
    ensures
        execute(s, m, ins).0.register.inv(),
{
    reveal(execute);
    lemma_exec_loads_inv(s, m, ins);
    lemma_exec_indirect_loads_inv(s, m, ins);
    lemma_exec_stepping_loads_inv(s, m, ins);
    lemma_exec_high_loads_inv(s, m, ins);
    lemma_exec_inc_dec_inv(s, m, ins);
    lemma_exec_flag_ops_inv(s, m, ins);
    lemma_exec_adds_inv(s, m, ins);
    lemma_exec_subs_inv(s, m, ins);
    lemma_exec_and_or_inv(s, m, ins);
    lemma_exec_xor_cp_inv(s, m, ins);
    lemma_exec_add16_inv(s, m, ins);
    lemma_exec_bit_ops_inv(s, m, ins);
    lemma_exec_acc_rotates_inv(s, m, ins);
    lemma_exec_rotates_inv(s, m, ins);
    lemma_exec_shifts_inv(s, m, ins);
    lemma_exec_jumps_inv(s, m, ins);
    lemma_exec_calls_inv(s, m, ins);
    lemma_exec_returns_inv(s, m, ins);
    lemma_exec_stack_inv(s, m, ins);
    lemma_exec_misc_inv(s, m, ins);
}

proof fn lemma_byte_round_trip(v: u8)
    ensures
        sub8_spec(add8_spec(v, 1, false).0, 1, false).0 == v,
        add8_spec(sub8_spec(v, 1, false).0, 1, false).0 == v,
        sub8_spec(add8_spec(v, 1, false).0, 1, false).2 == ((v + 1) % 16 == 0),
        add8_spec(sub8_spec(v, 1, false).0, 1, false).2 == ((v - 1) % 16 == 15),
{
    if v == 255 {
    } else if v == 0 {
    } else {
    }
}

proof fn lemma_inc_then_dec_reg(s: Cpu, m: MmuView, reg: Reg8Name)
    requires
        reg != Reg8Name::F,
    ensures
        ({
            let v = s.register.get8(reg);
            let (s1, m1) = execute(s, m, Instruction::IncR8(reg));
            let (s2, m2) = execute(s1, m1, Instruction::DecR8(reg));
            &&& s2.register.get8(reg) == v
            &&& m2 == m
            &&& s2.register.flag(BitFlag::Z) == (v == 0)
            &&& s2.register.flag(BitFlag::N)
            &&& s2.register.flag(BitFlag::H) == ((v + 1) % 16 == 0)
            &&& s2.register.flag(BitFlag::C) == s.register.flag(BitFlag::C)
        }),
{
    reveal(execute);
    reveal(exec_inc_dec_spec);
    let r = s.register;
    let v = r.get8(reg);
    let up = add8_spec(v, 1, false);
    lemma_byte_round_trip(v);
    lemma_pack_flags(up.0 == 0, false, up.2, r.flag(BitFlag::C));
    let (s1, m1) = execute(s, m, Instruction::IncR8(reg));
    assert(s1 == next(s, inc_reg(r, reg)) && m1 == m);
    let r1 = s1.register;
    assert(r1.get8(reg) == up.0);
    assert(r1.flag(BitFlag::C) == r.flag(BitFlag::C));
    let down = sub8_spec(up.0, 1, false);
    lemma_pack_flags(down.0 == 0, true, down.2, r1.flag(BitFlag::C));
    let (s2, m2) = execute(s1, m1, Instruction::DecR8(reg));
    assert(s2 == next(s1, dec_reg(r1, reg)) && m2 == m1);
}

proof fn lemma_dec_then_inc_reg(s: Cpu, m: MmuView, reg: Reg8Name)
    requires
        reg != Reg8Name::F,
    ensures
        ({
            let v = s.register.get8(reg);
            let (s1, m1) = execute(s, m, Instruction::DecR8(reg));
            let (s2, m2) = execute(s1, m1, Instruction::IncR8(reg));
            &&& s2.register.get8(reg) == v
            &&& m2 == m
            &&& s2.register.flag(BitFlag::Z) == (v == 0)
            &&& !s2.register.flag(BitFlag::N)
            &&& s2.register.flag(BitFlag::H) == ((v - 1) % 16 == 15)
            &&& s2.register.flag(BitFlag::C) == s.register.flag(BitFlag::C)
        }),
{
    reveal(execute);
    reveal(exec_inc_dec_spec);
    let r = s.register;
    let v = r.get8(reg);
    let down = sub8_spec(v, 1, false);
    lemma_byte_round_trip(v);
    lemma_pack_flags(down.0 == 0, true, down.2, r.flag(BitFlag::C));
    let (s1, m1) = execute(s, m, Instruction::DecR8(reg));
    assert(s1 == next(s, dec_reg(r, reg)) && m1 == m);
    let r1 = s1.register;
    assert(r1.get8(reg) == down.0);
    assert(r1.flag(BitFlag::C) == r.flag(BitFlag::C));
    let up = add8_spec(down.0, 1, false);
    lemma_pack_flags(up.0 == 0, false, up.2, r1.flag(BitFlag::C));
    let (s2, m2) = execute(s1, m1, Instruction::IncR8(reg));
    assert(s2 == next(s1, inc_reg(r1, reg)) && m2 == m1);
}

/// INC then DEC of a byte register (other than F) gives the byte back and
/// leaves the flags of that DEC: Z from the byte, N set, H where the
/// incremented byte has a zero low nibble, C as it was. DEC then INC gives
/// the byte back with the flags of that INC: Z from the byte, N clear, H
/// where the decremented byte has low nibble 0xF, C as it was.
pub proof fn lemma_inc_dec_reg(s: Cpu, m: MmuView, reg: Reg8Name)
    requires
        reg != Reg8Name::F,
    ensures
        ({
            let v = s.register.get8(reg);
            let (s1, m1) = execute(s, m, Instruction::IncR8(reg));
            let (s2, m2) = execute(s1, m1, Instruction::DecR8(reg));
            &&& s2.register.get8(reg) == v
            &&& m2 == m
            &&& s2.register.flag(BitFlag::Z) == (v == 0)
            &&& s2.register.flag(BitFlag::N)
            &&& s2.register.flag(BitFlag::H) == ((v + 1) % 16 == 0)
            &&& s2.register.flag(BitFlag::C) == s.register.flag(BitFlag::C)
        }),
        ({
            let v = s.register.get8(reg);
            let (s1, m1) = execute(s, m, Instruction::DecR8(reg));
            let (s2, m2) = execute(s1, m1, Instruction::IncR8(reg));
            &&& s2.register.get8(reg) == v
            &&& m2 == m
            &&& s2.register.flag(BitFlag::Z) == (v == 0)
            &&& !s2.register.flag(BitFlag::N)
            &&& s2.register.flag(BitFlag::H) == ((v - 1) % 16 == 15)
            &&& s2.register.flag(BitFlag::C) == s.register.flag(BitFlag::C)
        }),
{
    lemma_inc_then_dec_reg(s, m, reg);
    lemma_dec_then_inc_reg(s, m, reg);
}

proof fn lemma_inc_then_dec_mem(s: Cpu, m: MmuView)
    requires
        m.wf(),
        writable(s.register.get16(Reg16Name::HL)),
    ensures
        ({
            let a = s.register.get16(Reg16Name::HL);
            let v = m.read8(a);
            let (s1, m1) = execute(s, m, Instruction::IncAR16(Reg16Name::HL));
            let (s2, m2) = execute(s1, m1, Instruction::DecAR16(Reg16Name::HL));
            &&& m2.read8(a) == v
            &&& s2.register.flag(BitFlag::Z) == (v == 0)
            &&& s2.register.flag(BitFlag::N)
            &&& s2.register.flag(BitFlag::H) == ((v + 1) % 16 == 0)
            &&& s2.register.flag(BitFlag::C) == s.register.flag(BitFlag::C)
        }),
{
    reveal(execute);
    reveal(exec_inc_dec_spec);
    let r = s.register;
    let a = r.get16(Reg16Name::HL);
    let v = m.read8(a);
    let up = add8_spec(v, 1, false);
    lemma_byte_round_trip(v);
    lemma_pack_flags(up.0 == 0, false, up.2, r.flag(BitFlag::C));
    let (s1, m1) = execute(s, m, Instruction::IncAR16(Reg16Name::HL));
    assert(s1 == next(s, inc_flags(r, v)) && m1 == m.write8(a, up.0));
    let r1 = s1.register;
    assert(r1.get16(Reg16Name::HL) == a);
    lemma_write8_read8(m, a, up.0, a);
    assert(m1.read8(a) == up.0);
    let down = sub8_spec(up.0, 1, false);
    lemma_pack_flags(down.0 == 0, true, down.2, r1.flag(BitFlag::C));
    let (s2, m2) = execute(s1, m1, Instruction::DecAR16(Reg16Name::HL));
    assert(s2 == next(s1, dec_flags(r1, up.0)) && m2 == m1.write8(a, down.0));
    lemma_write8_read8(m1, a, down.0, a);
}

proof fn lemma_dec_then_inc_mem(s: Cpu, m: MmuView)
    requires
        m.wf(),
        writable(s.register.get16(Reg16Name::HL)),
    ensures
        ({
            let a = s.register.get16(Reg16Name::HL);
            let v = m.read8(a);
            let (s1, m1) = execute(s, m, Instruction::DecAR16(Reg16Name::HL));
            let (s2, m2) = execute(s1, m1, Instruction::IncAR16(Reg16Name::HL));
            &&& m2.read8(a) == v
            &&& s2.register.flag(BitFlag::Z) == (v == 0)
            &&& !s2.register.flag(BitFlag::N)
            &&& s2.register.flag(BitFlag::H) == ((v - 1) % 16 == 15)
            &&& s2.register.flag(BitFlag::C) == s.register.flag(BitFlag::C)
        }),
{
    reveal(execute);
    reveal(exec_inc_dec_spec);
    let r = s.register;
    let a = r.get16(Reg16Name::HL);
    let v = m.read8(a);
    let down = sub8_spec(v, 1, false);
    lemma_byte_round_trip(v);
    lemma_pack_flags(down.0 == 0, true, down.2, r.flag(BitFlag::C));
    let (s1, m1) = execute(s, m, Instruction::DecAR16(Reg16Name::HL));
    assert(s1 == next(s, dec_flags(r, v)) && m1 == m.write8(a, down.0));
    let r1 = s1.register;
    assert(r1.get16(Reg16Name::HL) == a);
    lemma_write8_read8(m, a, down.0, a);
    assert(m1.read8(a) == down.0);
    let up = add8_spec(down.0, 1, false);
    lemma_pack_flags(up.0 == 0, false, up.2, r1.flag(BitFlag::C));
    let (s2, m2) = execute(s1, m1, Instruction::IncAR16(Reg16Name::HL));
    assert(s2 == next(s1, inc_flags(r1, down.0)) && m2 == m1.write8(a, up.0));
    lemma_write8_read8(m1, a, up.0, a);
}

/// INC then DEC of the byte at HL, where that address is stored, gives the
/// byte back and leaves the flags of that DEC; DEC then INC gives it back
/// with the flags of that INC (as for a register).
pub proof fn lemma_inc_dec_mem(s: Cpu, m: MmuView)
    requires
        m.wf(),
        writable(s.register.get16(Reg16Name::HL)),
    ensures
        ({
            let a = s.register.get16(Reg16Name::HL);
            let v = m.read8(a);
            let (s1, m1) = execute(s, m, Instruction::IncAR16(Reg16Name::HL));
            let (s2, m2) = execute(s1, m1, Instruction::DecAR16(Reg16Name::HL));
            &&& m2.read8(a) == v
            &&& s2.register.flag(BitFlag::Z) == (v == 0)
            &&& s2.register.flag(BitFlag::N)
            &&& s2.register.flag(BitFlag::H) == ((v + 1) % 16 == 0)
            &&& s2.register.flag(BitFlag::C) == s.register.flag(BitFlag::C)
        }),
        ({
            let a = s.register.get16(Reg16Name::HL);
            let v = m.read8(a);
            let (s1, m1) = execute(s, m, Instruction::DecAR16(Reg16Name::HL));
            let (s2, m2) = execute(s1, m1, Instruction::IncAR16(Reg16Name::HL));
            &&& m2.read8(a) == v
            &&& s2.register.flag(BitFlag::Z) == (v == 0)
            &&& !s2.register.flag(BitFlag::N)
            &&& s2.register.flag(BitFlag::H) == ((v - 1) % 16 == 15)
            &&& s2.register.flag(BitFlag::C) == s.register.flag(BitFlag::C)
        }),
{
    lemma_inc_then_dec_mem(s, m);
    lemma_dec_then_inc_mem(s, m);
}

} // verus!
