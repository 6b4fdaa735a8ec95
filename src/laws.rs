//! Properties of the instruction engine that hold for every input.
use vstd::prelude::*;

use crate::addressing::{
    abs_arg, add8, address, arg, mode_len, page_crossed, read_cycles, read_value, stack_addr, zp_word,
};
use crate::alu::{adc_spec, carry, read_spec, sbc_spec};
use crate::cpu::{add16, word, CpuError, CpuState, Regs};
use crate::engine::{
    branch_cycles, branch_target, brk_outcome, exec_spec, is_decimal_arith, jsr_outcome, rti_outcome,
    rts_outcome, step_spec, tick_spec, Outcome,
};
use crate::memory::BusAccess;
use crate::isa::{decode_spec, Instr, Mode, ReadOp};
use crate::psr::{self, has, lemma_with_flag, pulled, pushed, with_flag};

verus! {

/// A decoded instruction that is not decimal arithmetic with Decimal set executes.
proof fn lemma_step_decoded(r: Regs, mem: Seq<u8>, i: Instr)
    requires
        decode_spec(mem[r.pc as int]) == Some(i),
        !(is_decimal_arith(i) && has(r.p, psr::D)),
    ensures
        step_spec(r, mem) == Ok::<Outcome, CpuError>(exec_spec(i, r, mem)),
{
    reveal(step_spec);
}

/// The table entries of PHP, PLP, JSR, RTS, BRK and RTI.
proof fn lemma_stack_opcodes()
    ensures
        decode_spec(0x08) == Some(Instr::Push { flags: true }),
        decode_spec(0x28) == Some(Instr::Pull { flags: true }),
        decode_spec(0x20) == Some(Instr::CallSubroutine),
        decode_spec(0x60) == Some(Instr::ReturnFromSubroutine),
        decode_spec(0x00) == Some(Instr::Break),
        decode_spec(0x40) == Some(Instr::ReturnFromInterrupt),
{
    reveal(decode_spec);
}

/// The instructions that the laws below speak of, unfolded.
proof fn lemma_exec_unfold(i: Instr, r: Regs, mem: Seq<u8>)
    ensures
        i == Instr::CallSubroutine ==> exec_spec(i, r, mem) == jsr_outcome(r, mem),
        i == Instr::ReturnFromSubroutine ==> exec_spec(i, r, mem) == rts_outcome(r, mem),
        i == Instr::Break ==> exec_spec(i, r, mem) == brk_outcome(r, mem),
        i == Instr::ReturnFromInterrupt ==> exec_spec(i, r, mem) == rti_outcome(r, mem),
        i matches Instr::Read { op, mode } ==> exec_spec(i, r, mem) == (Outcome {
            regs: read_spec(op, Regs { pc: add16(r.pc, mode_len(mode)), ..r }, read_value(mode, r, mem)),
            mem,
            cycles: read_cycles(mode, page_crossed(mode, r, mem)),
        }),
        i matches Instr::Branch { flag, set } ==> exec_spec(i, r, mem) == ({
            let taken = has(r.p, flag) == set;
            let next = add16(r.pc, 2);
            let target = branch_target(r, mem);
            Outcome {
                regs: Regs { pc: if taken { target } else { next }, ..r },
                mem,
                cycles: branch_cycles(taken, next, target),
            }
        }),
        i matches Instr::Push { flags } ==> exec_spec(i, r, mem) == (Outcome {
            regs: Regs { s: add8(r.s, 255), pc: add16(r.pc, 1), ..r },
            mem: mem.update(stack_addr(r.s), if flags { pushed(r.p) } else { r.a }),
            cycles: 3,
        }),
        i matches Instr::Pull { flags } ==> flags ==> exec_spec(i, r, mem) == (Outcome {
            regs: Regs { s: add8(r.s, 1), p: pulled(mem[stack_addr(add8(r.s, 1))]), pc: add16(r.pc, 1), ..r },
            mem,
            cycles: 4,
        }),
{
    reveal(exec_spec);
}

/// A byte read as a two's-complement number.
pub open spec fn signed(v: u8) -> int {
    if v >= 128 {
        v - 256
    } else {
        v as int
    }
}

/// Flags written in the order Negative, Zero, Overflow, Carry can each be read back, and
/// Interrupt disable and Decimal are kept.
proof fn lemma_nzvc(p: u8, n: bool, z: bool, v: bool, c: bool)
    ensures
        ({
            let q = with_flag(with_flag(with_flag(with_flag(p, psr::N, n), psr::Z, z), psr::V, v), psr::C, c);
            &&& has(q, psr::N) == n
            &&& has(q, psr::Z) == z
            &&& has(q, psr::V) == v
            &&& has(q, psr::C) == c
            &&& has(q, psr::I) == has(p, psr::I)
            &&& has(q, psr::D) == has(p, psr::D)
        }),
{
    let q1 = with_flag(p, psr::N, n);
    let q2 = with_flag(q1, psr::Z, z);
    let q3 = with_flag(q2, psr::V, v);
    let q4 = with_flag(q3, psr::C, c);
    lemma_with_flag(q3, psr::C, c, psr::V);
    lemma_with_flag(q3, psr::C, c, psr::Z);
    lemma_with_flag(q3, psr::C, c, psr::N);
    lemma_with_flag(q3, psr::C, c, psr::I);
    lemma_with_flag(q3, psr::C, c, psr::D);
    lemma_with_flag(q2, psr::V, v, psr::C);
    lemma_with_flag(q2, psr::V, v, psr::Z);
    lemma_with_flag(q2, psr::V, v, psr::N);
    lemma_with_flag(q2, psr::V, v, psr::I);
    lemma_with_flag(q2, psr::V, v, psr::D);
    lemma_with_flag(q1, psr::Z, z, psr::N);
    lemma_with_flag(q1, psr::Z, z, psr::I);
    lemma_with_flag(q1, psr::Z, z, psr::D);
    lemma_with_flag(p, psr::N, n, psr::I);
    lemma_with_flag(p, psr::N, n, psr::D);
}

/// The flag byte pushed by BRK or PHP always has Break and the unused bit set and every
/// other bit of the register unchanged; the byte restored by PLP or RTI always has both
/// of those bits clear and every other bit as it was on the stack.
pub proof fn lemma_stack_flag_bits(p: u8, v: u8)
    ensures
        has(pushed(p), psr::B),
        has(pushed(p), psr::U),
        pushed(p) & 0xCF == p & 0xCF,
        pulled(v) & psr::STACK_ONLY == 0,
        pulled(v) & 0xCF == v & 0xCF,
{
    assert(has(p | 0x30, 0x10)) by (bit_vector);
    assert(has(p | 0x30, 0x20)) by (bit_vector);
    assert((p | 0x30) & 0xCF == p & 0xCF) by (bit_vector);
    assert((v & !0x30u8) & 0x30 == 0) by (bit_vector);
    assert((v & !0x30u8) & 0xCF == v & 0xCF) by (bit_vector);
}

/// PHP followed by PLP restores every flag of the register but the two stack-only bits,
/// which come back clear, and leaves the stack pointer where it was.
pub proof fn lemma_php_plp_round_trip(r: Regs, mem: Seq<u8>)
    requires
        mem.len() == 0x10000,
        mem[r.pc as int] == 0x08,
        step_spec(r, mem)->Ok_0.mem[add16(r.pc, 1) as int] == 0x28,
    ensures
        ({
            let o1 = step_spec(r, mem)->Ok_0;
            let o2 = step_spec(o1.regs, o1.mem);
            &&& step_spec(r, mem) is Ok
            &&& o2 is Ok
            &&& o2->Ok_0.regs.p == pulled(pushed(r.p))
            &&& o2->Ok_0.regs.p & 0xCF == r.p & 0xCF
            &&& o2->Ok_0.regs.s == r.s
            &&& o2->Ok_0.regs.pc == add16(r.pc, 2)
        }),
{
    lemma_stack_opcodes();
    lemma_step_decoded(r, mem, Instr::Push { flags: true });
    lemma_exec_unfold(Instr::Push { flags: true }, r, mem);
    let o1 = step_spec(r, mem)->Ok_0;
    assert(o1.regs.pc == add16(r.pc, 1));
    lemma_step_decoded(o1.regs, o1.mem, Instr::Pull { flags: true });
    lemma_exec_unfold(Instr::Pull { flags: true }, o1.regs, o1.mem);
    assert(add8(add8(r.s, 255), 1) == r.s);
    lemma_stack_flag_bits(r.p, pushed(r.p));
    lemma_stack_flag_bits(r.p, r.p);
    let pp = r.p;
    assert((((pp | 0x30u8) & !0x30u8) & 0xCF) == pp & 0xCF) by (bit_vector);
}

/// Binary ADC and SBC agree with the 6502 truth table: the sum (or difference) modulo
/// 256, Carry for an unsigned carry out (no borrow), Overflow when the signed result
/// leaves -128..127, Negative and Zero from the result; other flags are kept.
pub proof fn lemma_adc_sbc_truth_table(r: Regs, v: u8)
    ensures
        ({
            let o = adc_spec(r, v);
            let c = carry(r.p);
            &&& o.a == (r.a + v + c) % 256
            &&& has(o.p, psr::C) == (r.a + v + c >= 256)
            &&& has(o.p, psr::V) == !(-128 <= signed(r.a) + signed(v) + c <= 127)
            &&& has(o.p, psr::N) == (o.a >= 128)
            &&& has(o.p, psr::Z) == (o.a == 0)
            &&& has(o.p, psr::I) == has(r.p, psr::I)
            &&& has(o.p, psr::D) == has(r.p, psr::D)
        }),
        ({
            let o = sbc_spec(r, v);
            let c = carry(r.p);
            &&& o.a == (r.a - v - 1 + c) % 256
            &&& has(o.p, psr::C) == (r.a - v - 1 + c >= 0)
            &&& has(o.p, psr::V) == !(-128 <= signed(r.a) - signed(v) - 1 + c <= 127)
            &&& has(o.p, psr::N) == (o.a >= 128)
            &&& has(o.p, psr::Z) == (o.a == 0)
            &&& has(o.p, psr::I) == has(r.p, psr::I)
            &&& has(o.p, psr::D) == has(r.p, psr::D)
        }),
{
    lemma_adc_flags(r, v);
    lemma_sbc_flags(r, v);
}

proof fn lemma_sbc_flags(r: Regs, v: u8)
    ensures
        ({
            let o = sbc_spec(r, v);
            let c = carry(r.p);
            &&& o.a == (r.a - v - 1 + c) % 256
            &&& has(o.p, psr::C) == (r.a - v - 1 + c >= 0)
            &&& has(o.p, psr::V) == !(-128 <= signed(r.a) - signed(v) - 1 + c <= 127)
            &&& has(o.p, psr::N) == (o.a >= 128)
            &&& has(o.p, psr::Z) == (o.a == 0)
            &&& has(o.p, psr::I) == has(r.p, psr::I)
            &&& has(o.p, psr::D) == has(r.p, psr::D)
        }),
{
    let w = (255 - v) as u8;
    let c = carry(r.p);
    lemma_adc_flags(r, w);
    assert(sbc_spec(r, v) == adc_spec(r, w));
    assert(signed(w) == -signed(v) - 1);
    assert(r.a + w + c == (r.a - v - 1 + c) + 256);
    assert((r.a + w + c) % 256 == (r.a - v - 1 + c) % 256);
}

proof fn lemma_adc_flags(r: Regs, v: u8)
    ensures
        ({
            let o = adc_spec(r, v);
            let c = carry(r.p);
            &&& o.a == (r.a + v + c) % 256
            &&& has(o.p, psr::C) == (r.a + v + c >= 256)
            &&& has(o.p, psr::V) == !(-128 <= signed(r.a) + signed(v) + c <= 127)
            &&& has(o.p, psr::N) == (o.a >= 128)
            &&& has(o.p, psr::Z) == (o.a == 0)
            &&& has(o.p, psr::I) == has(r.p, psr::I)
            &&& has(o.p, psr::D) == has(r.p, psr::D)
        }),
{
    let c = carry(r.p);
    let sum = r.a + v + c;
    let res = (sum % 256) as u8;
    let into7 = r.a % 128 + v % 128 + c >= 128;
    let out7 = sum >= 256;
    lemma_nzvc(r.p, res >= 128, res == 0, into7 != out7, out7);
    assert((into7 != out7) == !(-128 <= signed(r.a) + signed(v) + c <= 127)) by {
        assert(0 <= c <= 1);
        if r.a >= 128 {
            assert(r.a % 128 == r.a - 128);
        } else {
            assert(r.a % 128 == r.a);
        }
        if v >= 128 {
            assert(v % 128 == v - 128);
        } else {
            assert(v % 128 == v);
        }
    }
}

/// Compare instructions change only flags: A, X, Y, the stack pointer and memory are
/// left as they were.
pub proof fn lemma_compare_keeps_registers(r: Regs, mem: Seq<u8>)
    requires
        mem.len() == 0x10000,
        decode_spec(mem[r.pc as int]) matches Some(Instr::Read { op, .. }) && (op == ReadOp::Cmp || op
            == ReadOp::Cpx || op == ReadOp::Cpy),
    ensures
        step_spec(r, mem) is Ok,
        step_spec(r, mem)->Ok_0.regs.a == r.a,
        step_spec(r, mem)->Ok_0.regs.x == r.x,
        step_spec(r, mem)->Ok_0.regs.y == r.y,
        step_spec(r, mem)->Ok_0.regs.s == r.s,
        step_spec(r, mem)->Ok_0.mem == mem,
{
    lemma_step_decoded(r, mem, decode_spec(mem[r.pc as int])->Some_0);
    lemma_exec_unfold(decode_spec(mem[r.pc as int])->Some_0, r, mem);
}

/// The address that indexing starts from in the indexed modes.
pub open spec fn index_base(mode: Mode, r: Regs, mem: Seq<u8>) -> u16 {
    match mode {
        Mode::IndirectY => zp_word(mem, arg(mem, r, 1)),
        _ => abs_arg(mem, r),
    }
}

/// Reads through `abs,X`, `abs,Y` and `(zp),Y` take one more cycle exactly when the
/// effective address lies in another page than the base address.
pub proof fn lemma_indexed_read_page_cross(r: Regs, mem: Seq<u8>)
    requires
        mem.len() == 0x10000,
        decode_spec(mem[r.pc as int]) matches Some(Instr::Read { op, mode }) && (mode == Mode::AbsoluteX
            || mode == Mode::AbsoluteY || mode == Mode::IndirectY) && !((op == ReadOp::Adc || op
            == ReadOp::Sbc) && has(r.p, psr::D)),
    ensures
        ({
            let mode = decode_spec(mem[r.pc as int])->Some_0->Read_mode;
            let base = index_base(mode, r, mem);
            let extra: int = if address(mode, r, mem) / 256 != base / 256 { 1 } else { 0 };
            &&& step_spec(r, mem) is Ok
            &&& step_spec(r, mem)->Ok_0.cycles == (if mode == Mode::IndirectY { 5int } else { 4int }) + extra
        }),
{
    lemma_step_decoded(r, mem, decode_spec(mem[r.pc as int])->Some_0);
    lemma_exec_unfold(decode_spec(mem[r.pc as int])->Some_0, r, mem);
    let mode = decode_spec(mem[r.pc as int])->Some_0->Read_mode;
    let base = index_base(mode, r, mem);
    let idx: int = if mode == Mode::AbsoluteX { r.x as int } else { r.y as int };
    assert(address(mode, r, mem) == add16(base, idx));
    assert(page_crossed(mode, r, mem) == (base % 256 + idx >= 256));
    assert((add16(base, idx) / 256 != base / 256) == (base % 256 + idx >= 256)) by {
        assert(0 <= idx < 256);
        if base + idx >= 0x10000 {
            assert(add16(base, idx) == base + idx - 0x10000);
        } else {
            assert(add16(base, idx) == base + idx);
        }
    }
}

/// Branches take two cycles when not taken, three when taken within the page of the next
/// instruction, and four when taken into another page.
pub proof fn lemma_branch_cycles(r: Regs, mem: Seq<u8>)
    requires
        mem.len() == 0x10000,
        decode_spec(mem[r.pc as int]) is Some,
        decode_spec(mem[r.pc as int])->Some_0 is Branch,
    ensures
        ({
            let i = decode_spec(mem[r.pc as int])->Some_0;
            let taken = has(r.p, i->Branch_flag) == i->Branch_set;
            let next = add16(r.pc, 2);
            let target = branch_target(r, mem);
            let o = step_spec(r, mem)->Ok_0;
            &&& step_spec(r, mem) is Ok
            &&& !taken ==> o.cycles == 2 && o.regs.pc == next
            &&& taken && target / 256 == next / 256 ==> o.cycles == 3 && o.regs.pc == target
            &&& taken && target / 256 != next / 256 ==> o.cycles == 4 && o.regs.pc == target
        }),
{
    lemma_step_decoded(r, mem, decode_spec(mem[r.pc as int])->Some_0);
    lemma_exec_unfold(decode_spec(mem[r.pc as int])->Some_0, r, mem);
}

/// JSR to X from P pushes two bytes and continues at X; an RTS met there returns to
/// P + 3 with the stack pointer restored. The operand must not sit in the two stack
/// bytes that JSR overwrites.
pub proof fn lemma_jsr_rts_round_trip(r: Regs, mem: Seq<u8>)
    requires
        mem.len() == 0x10000,
        mem[r.pc as int] == 0x20,
        add16(r.pc, 2) != stack_addr(r.s),
        add16(r.pc, 2) != stack_addr(add8(r.s, 255)),
        step_spec(r, mem)->Ok_0.mem[abs_arg(mem, r) as int] == 0x60,
    ensures
        ({
            let o1 = step_spec(r, mem)->Ok_0;
            let o2 = step_spec(o1.regs, o1.mem);
            &&& step_spec(r, mem) is Ok
            &&& o1.regs.pc == abs_arg(mem, r)
            &&& o1.regs.s == add8(r.s, 254)
            &&& o2 is Ok
            &&& o2->Ok_0.regs.pc == add16(r.pc, 3)
            &&& o2->Ok_0.regs.s == r.s
        }),
{
    lemma_stack_opcodes();
    lemma_step_decoded(r, mem, Instr::CallSubroutine);
    lemma_exec_unfold(Instr::CallSubroutine, r, mem);
    let o1 = jsr_outcome(r, mem);
    lemma_jsr_effect(r, mem);
    lemma_step_decoded(o1.regs, o1.mem, Instr::ReturnFromSubroutine);
    lemma_exec_unfold(Instr::ReturnFromSubroutine, o1.regs, o1.mem);
    let o2 = rts_outcome(o1.regs, o1.mem);
    let ret = add16(r.pc, 2);
    assert(add8(add8(r.s, 254), 1) == add8(r.s, 255));
    assert(add8(add8(r.s, 254), 2) == r.s);
    assert(word((ret % 256) as u8, (ret / 256) as u8) == ret);
}

/// What JSR leaves behind: the target from the untouched operand, and the return
/// address minus one on the stack.
proof fn lemma_jsr_effect(r: Regs, mem: Seq<u8>)
    requires
        mem.len() == 0x10000,
        add16(r.pc, 2) != stack_addr(r.s),
        add16(r.pc, 2) != stack_addr(add8(r.s, 255)),
    ensures
        ({
            let o1 = jsr_outcome(r, mem);
            let ret = add16(r.pc, 2);
            &&& o1.regs.pc == abs_arg(mem, r)
            &&& o1.regs.s == add8(r.s, 254)
            &&& o1.mem[stack_addr(add8(r.s, 255))] == (ret % 256) as u8
            &&& o1.mem[stack_addr(r.s)] == (ret / 256) as u8
        }),
{
    assert(stack_addr(add8(r.s, 255)) != stack_addr(r.s));
}

/// BRK followed by an RTI at the interrupt vector returns two bytes past the BRK with
/// the stack pointer restored and every flag as before but the two stack-only bits,
/// which come back clear; in between, Interrupt disable is set.
pub proof fn lemma_brk_rti_round_trip(r: Regs, mem: Seq<u8>)
    requires
        mem.len() == 0x10000,
        mem[r.pc as int] == 0x00,
        step_spec(r, mem)->Ok_0.mem[word(mem[0xFFFE], mem[0xFFFF]) as int] == 0x40,
    ensures
        ({
            let o1 = step_spec(r, mem)->Ok_0;
            let o2 = step_spec(o1.regs, o1.mem);
            &&& step_spec(r, mem) is Ok
            &&& o1.regs.pc == word(mem[0xFFFE], mem[0xFFFF])
            &&& has(o1.regs.p, psr::I)
            &&& o1.regs.s == add8(r.s, 253)
            &&& o2 is Ok
            &&& o2->Ok_0.regs.pc == add16(r.pc, 2)
            &&& o2->Ok_0.regs.s == r.s
            &&& o2->Ok_0.regs.p == pulled(pushed(r.p))
            &&& o2->Ok_0.regs.p & 0xCF == r.p & 0xCF
        }),
{
    lemma_stack_opcodes();
    lemma_step_decoded(r, mem, Instr::Break);
    lemma_exec_unfold(Instr::Break, r, mem);
    let o1 = brk_outcome(r, mem);
    lemma_brk_effect(r, mem);
    lemma_step_decoded(o1.regs, o1.mem, Instr::ReturnFromInterrupt);
    lemma_exec_unfold(Instr::ReturnFromInterrupt, o1.regs, o1.mem);
    let ret = add16(r.pc, 2);
    assert(add8(add8(r.s, 253), 1) == add8(r.s, 254));
    assert(add8(add8(r.s, 253), 2) == add8(r.s, 255));
    assert(add8(add8(r.s, 253), 3) == r.s);
    assert(word((ret % 256) as u8, (ret / 256) as u8) == ret);
    let pp = r.p;
    assert((((pp | 0x30u8) & !0x30u8) & 0xCF) == pp & 0xCF) by (bit_vector);
    lemma_with_flag(r.p, psr::I, true, psr::C);
}

/// What BRK leaves behind: the vector read from untouched memory, Interrupt disable set,
/// and the return address and pushed flags on the stack.
proof fn lemma_brk_effect(r: Regs, mem: Seq<u8>)
    requires
        mem.len() == 0x10000,
    ensures
        ({
            let o1 = brk_outcome(r, mem);
            let ret = add16(r.pc, 2);
            &&& o1.regs.pc == word(mem[0xFFFE], mem[0xFFFF])
            &&& has(o1.regs.p, psr::I)
            &&& o1.regs.s == add8(r.s, 253)
            &&& o1.mem[stack_addr(r.s)] == (ret / 256) as u8
            &&& o1.mem[stack_addr(add8(r.s, 255))] == (ret % 256) as u8
            &&& o1.mem[stack_addr(add8(r.s, 254))] == pushed(r.p)
        }),
{
    assert(stack_addr(add8(r.s, 255)) != stack_addr(r.s));
    assert(stack_addr(add8(r.s, 254)) != stack_addr(r.s));
    assert(stack_addr(add8(r.s, 254)) != stack_addr(add8(r.s, 255)));
    lemma_with_flag(r.p, psr::I, true, psr::C);
}

/// A tick that runs an instruction returns its cycle count, and the cycle counter rises by
/// exactly that count unless it is within seven of its largest value, where it saturates.
pub proof fn lemma_tick_counts_cycles(
    before: CpuState,
    after: CpuState,
    mem_before: Seq<u8>,
    mem_after: Seq<u8>,
    bus_before: u64,
    bus_after: u64,
    log_before: Seq<BusAccess>,
    log_after: Seq<BusAccess>,
    r: Result<u8, CpuError>,
)
    requires
        tick_spec(before, after, mem_before, mem_after, bus_before, bus_after, log_before, log_after, r),
        before.rdy,
        step_spec(before.regs, mem_before) is Ok,
        before.cycles <= u64::MAX - 7,
    ensures
        r == Ok::<u8, CpuError>(step_spec(before.regs, mem_before)->Ok_0.cycles as u8),
        after.cycles == before.cycles + step_spec(before.regs, mem_before)->Ok_0.cycles,
        after.regs == step_spec(before.regs, mem_before)->Ok_0.regs,
{
    lemma_step_cycles_bounded(before.regs, mem_before);
}

/// Every instruction takes between two and seven cycles.
proof fn lemma_step_cycles_bounded(r: Regs, mem: Seq<u8>)
    ensures
        step_spec(r, mem) is Ok ==> 2 <= step_spec(r, mem)->Ok_0.cycles <= 7,
{
    reveal(step_spec);
    reveal(exec_spec);
}

} // verus!
