//! Arithmetic, logic, shift and compare cores with their flag effects.
#![allow(non_snake_case)]
use vstd::prelude::*;

use crate::cpu::{with_p, with_regs, Regs, MCS6502};
use crate::isa::{ImpliedOp, ModifyOp, ReadOp};
use crate::psr::{self, has, with_flag};

verus! {

/// `p` with Negative from bit 7 of `v` and Zero from `v == 0`.
pub open spec fn nz(p: u8, v: u8) -> u8 {
    with_flag(with_flag(p, psr::N, v >= 128), psr::Z, v == 0)
}

/// The carry flag as a number.
pub open spec fn carry(p: u8) -> int {
    if has(p, psr::C) {
        1
    } else {
        0
    }
}

/// Binary add with carry: the 8-bit sum.
pub open spec fn adc_value(a: u8, v: u8, p: u8) -> u8 {
    ((a + v + carry(p)) % 256) as u8
}

/// Binary add with carry: the flags. Overflow is the carry into bit 7 differing from
/// the carry out of it.
pub open spec fn adc_flags(a: u8, v: u8, p: u8) -> u8 {
    let sum = a + v + carry(p);
    let into7 = a % 128 + v % 128 + carry(p) >= 128;
    let out7 = sum >= 256;
    with_flag(with_flag(nz(p, (sum % 256) as u8), psr::V, into7 != out7), psr::C, out7)
}

/// The registers after a binary-mode ADC of `v`.
pub open spec fn adc_spec(r: Regs, v: u8) -> Regs {
    Regs { a: adc_value(r.a, v, r.p), p: adc_flags(r.a, v, r.p), ..r }
}

/// The registers after a binary-mode SBC of `v`: ADC of its one's complement.
pub open spec fn sbc_spec(r: Regs, v: u8) -> Regs {
    adc_spec(r, (255 - v) as u8)
}

/// The flags after comparing `n1` with `n2`.
pub open spec fn compare_flags(p: u8, n1: u8, n2: u8) -> u8 {
    with_flag(nz(p, ((n1 - n2) % 256) as u8), psr::C, n1 >= n2)
}

/// The flags after BIT of `v` against accumulator `a`.
pub open spec fn bit_flags(p: u8, a: u8, v: u8) -> u8 {
    with_flag(with_flag(with_flag(p, psr::N, v >= 128), psr::V, v % 128 >= 64), psr::Z, a & v == 0)
}

/// The byte a read-modify-write operation writes back.
pub open spec fn modify_value(op: ModifyOp, p: u8, v: u8) -> u8 {
    match op {
        ModifyOp::Asl => ((v * 2) % 256) as u8,
        ModifyOp::Lsr => (v / 2) as u8,
        ModifyOp::Rol => ((v * 2) % 256 + carry(p)) as u8,
        ModifyOp::Ror => (v / 2 + 128 * carry(p)) as u8,
        ModifyOp::Inc => ((v + 1) % 256) as u8,
        ModifyOp::Dec => ((v + 255) % 256) as u8,
    }
}

/// The flags after a read-modify-write operation on `v`.
pub open spec fn modify_flags(op: ModifyOp, p: u8, v: u8) -> u8 {
    let r = modify_value(op, p, v);
    match op {
        ModifyOp::Asl | ModifyOp::Rol => with_flag(nz(p, r), psr::C, v >= 128),
        ModifyOp::Lsr | ModifyOp::Ror => with_flag(nz(p, r), psr::C, v % 2 == 1),
        ModifyOp::Inc | ModifyOp::Dec => nz(p, r),
    }
}

/// The registers after a read operation consumes `v` (binary mode for ADC and SBC).
pub open spec fn read_spec(op: ReadOp, r: Regs, v: u8) -> Regs {
    match op {
        ReadOp::Lda => Regs { a: v, p: nz(r.p, v), ..r },
        ReadOp::Ldx => Regs { x: v, p: nz(r.p, v), ..r },
        ReadOp::Ldy => Regs { y: v, p: nz(r.p, v), ..r },
        ReadOp::And => Regs { a: r.a & v, p: nz(r.p, r.a & v), ..r },
        ReadOp::Ora => Regs { a: r.a | v, p: nz(r.p, r.a | v), ..r },
        ReadOp::Eor => Regs { a: r.a ^ v, p: nz(r.p, r.a ^ v), ..r },
        ReadOp::Adc => adc_spec(r, v),
        ReadOp::Sbc => sbc_spec(r, v),
        ReadOp::Cmp => with_p(r, compare_flags(r.p, r.a, v)),
        ReadOp::Cpx => with_p(r, compare_flags(r.p, r.x, v)),
        ReadOp::Cpy => with_p(r, compare_flags(r.p, r.y, v)),
        ReadOp::Bit => with_p(r, bit_flags(r.p, r.a, v)),
    }
}

/// The registers after a single-byte register or flag operation (program counter aside).
pub open spec fn implied_spec(op: ImpliedOp, r: Regs) -> Regs {
    match op {
        ImpliedOp::Clc => with_p(r, with_flag(r.p, psr::C, false)),
        ImpliedOp::Sec => with_p(r, with_flag(r.p, psr::C, true)),
        ImpliedOp::Cli => with_p(r, with_flag(r.p, psr::I, false)),
        ImpliedOp::Sei => with_p(r, with_flag(r.p, psr::I, true)),
        ImpliedOp::Clv => with_p(r, with_flag(r.p, psr::V, false)),
        ImpliedOp::Cld => with_p(r, with_flag(r.p, psr::D, false)),
        ImpliedOp::Sed => with_p(r, with_flag(r.p, psr::D, true)),
        ImpliedOp::Inx => Regs { x: modify_value(ModifyOp::Inc, r.p, r.x), p: nz(r.p, modify_value(ModifyOp::Inc, r.p, r.x)), ..r },
        ImpliedOp::Iny => Regs { y: modify_value(ModifyOp::Inc, r.p, r.y), p: nz(r.p, modify_value(ModifyOp::Inc, r.p, r.y)), ..r },
        ImpliedOp::Dex => Regs { x: modify_value(ModifyOp::Dec, r.p, r.x), p: nz(r.p, modify_value(ModifyOp::Dec, r.p, r.x)), ..r },
        ImpliedOp::Dey => Regs { y: modify_value(ModifyOp::Dec, r.p, r.y), p: nz(r.p, modify_value(ModifyOp::Dec, r.p, r.y)), ..r },
        ImpliedOp::Tax => Regs { x: r.a, p: nz(r.p, r.a), ..r },
        ImpliedOp::Tay => Regs { y: r.a, p: nz(r.p, r.a), ..r },
        ImpliedOp::Txa => Regs { a: r.x, p: nz(r.p, r.x), ..r },
        ImpliedOp::Tya => Regs { a: r.y, p: nz(r.p, r.y), ..r },
        ImpliedOp::Tsx => Regs { x: r.s, p: nz(r.p, r.s), ..r },
        ImpliedOp::Txs => Regs { s: r.x, ..r },
        ImpliedOp::Nop => r,
    }
}

/// Copies bit 7 of `val` into Negative.
pub fn sync_pcr_n(cpu: &mut MCS6502, val: u8)
    ensures
        final(cpu)@ == with_regs(old(cpu)@, with_p(old(cpu)@.regs, with_flag(old(cpu)@.regs.p, psr::N, val >= 128))),
{
    cpu.put_psr_bit(psr::N, val >= 128);
}

/// Sets Zero exactly when `val` is zero.
pub fn sync_pcr_z(cpu: &mut MCS6502, val: u8)
    ensures
        final(cpu)@ == with_regs(old(cpu)@, with_p(old(cpu)@.regs, with_flag(old(cpu)@.regs.p, psr::Z, val == 0))),
{
    cpu.put_psr_bit(psr::Z, val == 0);
}

/// Carry takes bit 0 of `val`, the bit that a right shift moves out.
pub fn shift_ops_sync_pcr_c_lsb(cpu: &mut MCS6502, val: u8)
    ensures
        final(cpu)@ == with_regs(old(cpu)@, with_p(old(cpu)@.regs, with_flag(old(cpu)@.regs.p, psr::C, val % 2 == 1))),
{
    cpu.put_psr_bit(psr::C, val % 2 == 1);
}

/// Carry takes bit 7 of `val`, the bit that a left shift moves out.
pub fn shift_ops_sync_pcr_c_msb(cpu: &mut MCS6502, val: u8)
    ensures
        final(cpu)@ == with_regs(old(cpu)@, with_p(old(cpu)@.regs, with_flag(old(cpu)@.regs.p, psr::C, val >= 128))),
{
    cpu.put_psr_bit(psr::C, val >= 128);
}

/// Negative and Zero from `val`.
fn sync_pcr_nz(cpu: &mut MCS6502, val: u8)
    ensures
        final(cpu)@ == with_regs(old(cpu)@, with_p(old(cpu)@.regs, nz(old(cpu)@.regs.p, val))),
{
    sync_pcr_n(cpu, val);
    sync_pcr_z(cpu, val);
}

/// `val` rotated right through the carry: the old carry enters at bit 7.
pub fn ror_core(cpu: &MCS6502, val: u8) -> (r: u8)
    ensures
        r == modify_value(ModifyOp::Ror, cpu@.regs.p, val),
{
    val / 2 + if cpu.tst_psr_bit(psr::C) { 128 } else { 0 }
}

/// `val` rotated left through the carry: the old carry enters at bit 0.
pub fn rol_core(cpu: &MCS6502, val: u8) -> (r: u8)
    ensures
        r == modify_value(ModifyOp::Rol, cpu@.regs.p, val),
{
    (if val >= 128 { val - 128 } else { val }) * 2 + if cpu.tst_psr_bit(psr::C) { 1 } else { 0 }
}

/// `val1 - val2` modulo 256, and whether the subtraction borrowed.
pub fn safe_sub_checked(val1: u8, val2: u8) -> (r: (u8, bool))
    ensures
        r.0 == (val1 - val2) % 256,
        r.1 == (val1 < val2),
{
    if val1 >= val2 {
        (val1 - val2, false)
    } else {
        ((256 - val2 as u16 + val1 as u16) as u8, true)
    }
}

/// Compares `n1` with `n2`: Negative and Zero from `n1 - n2`, Carry when no borrow.
/// No register but the flags changes.
pub fn CMP_core(cpu: &mut MCS6502, n1: u8, n2: u8)
    ensures
        final(cpu)@ == with_regs(old(cpu)@, with_p(old(cpu)@.regs, compare_flags(old(cpu)@.regs.p, n1, n2))),
        final(cpu)@.regs.a == old(cpu)@.regs.a,
        final(cpu)@.regs.x == old(cpu)@.regs.x,
        final(cpu)@.regs.y == old(cpu)@.regs.y,
{
    let res = safe_sub_checked(n1, n2);
    sync_pcr_nz(cpu, res.0);
    cpu.put_psr_bit(psr::C, n1 >= n2);
}

/// BIT: Negative and Overflow from bits 7 and 6 of `v2`, Zero from `A & v2`.
pub fn BIT_core(cpu: &mut MCS6502, v2: u8)
    ensures
        final(cpu)@ == with_regs(old(cpu)@, with_p(old(cpu)@.regs, bit_flags(old(cpu)@.regs.p, old(cpu)@.regs.a, v2))),
{
    let res = cpu.a() & v2;
    sync_pcr_n(cpu, v2);
    cpu.put_psr_bit(psr::V, v2 % 128 >= 64);
    sync_pcr_z(cpu, res);
}

/// The decimal flag was set for ADC or SBC: BCD arithmetic is not emulated.
#[derive(Clone, Copy, Debug, PartialEq, Eq, Structural)]
pub struct DecimalModeUnsupported;

fn adc_core_bin(cpu: &mut MCS6502, n2: u8)
    ensures
        final(cpu)@ == with_regs(old(cpu)@, adc_spec(old(cpu)@.regs, n2)),
{
    let n1 = cpu.a();
    let c: u16 = if cpu.tst_psr_bit(psr::C) { 1 } else { 0 };
    let sum: u16 = n1 as u16 + n2 as u16 + c;
    let res = (sum % 256) as u8;
    let into7 = (n1 % 128) as u16 + (n2 % 128) as u16 + c >= 128;
    let out7 = sum >= 256;
    cpu.set_a(res);
    sync_pcr_nz(cpu, res);
    cpu.put_psr_bit(psr::V, into7 != out7);
    cpu.put_psr_bit(psr::C, out7);
}

/// Add with carry. In binary mode the accumulator and flags become `adc_spec`; with the
/// decimal flag set nothing changes and the mode is reported as unsupported.
pub fn ADC_core(cpu: &mut MCS6502, n2: u8) -> (r: Result<(), DecimalModeUnsupported>)
    ensures
        r is Err <==> has(old(cpu)@.regs.p, psr::D),
        r is Ok ==> final(cpu)@ == with_regs(old(cpu)@, adc_spec(old(cpu)@.regs, n2)),
        r is Err ==> final(cpu)@ == old(cpu)@,
{
    if cpu.tst_psr_bit(psr::D) {
        Err(DecimalModeUnsupported)
    } else {
        adc_core_bin(cpu, n2);
        Ok(())
    }
}

/// Subtract with borrow (the inverted carry). In binary mode the accumulator and flags
/// become `sbc_spec`; with the decimal flag set nothing changes and the mode is
/// reported as unsupported.
pub fn SBC_core(cpu: &mut MCS6502, n2: u8) -> (r: Result<(), DecimalModeUnsupported>)
    ensures
        r is Err <==> has(old(cpu)@.regs.p, psr::D),
        r is Ok ==> final(cpu)@ == with_regs(old(cpu)@, sbc_spec(old(cpu)@.regs, n2)),
        r is Err ==> final(cpu)@ == old(cpu)@,
{
    ADC_core(cpu, 255 - n2)
}

} // verus!
