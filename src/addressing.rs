//! Operand addressing: where each mode finds its byte, what it costs, and the stack.
use vstd::prelude::*;

use crate::cpu::{add16, with_regs, word, Regs, MCS6502};
use crate::isa::Mode;
use crate::memory::{extends, rd, sat, wr, Memory};

verus! {

/// The byte `k` places after the program counter.
pub open spec fn arg(mem: Seq<u8>, r: Regs, k: int) -> u8 {
    mem[add16(r.pc, k) as int]
}

/// The 16-bit operand that follows the opcode.
pub open spec fn abs_arg(mem: Seq<u8>, r: Regs) -> u16 {
    word(arg(mem, r, 1), arg(mem, r, 2))
}

/// The pointer stored in page zero at `zp`; its high byte wraps within page zero.
pub open spec fn zp_word(mem: Seq<u8>, zp: u8) -> u16 {
    word(mem[zp as int], mem[(zp + 1) % 256])
}

/// The effective address of a memory operand.
pub open spec fn address(mode: Mode, r: Regs, mem: Seq<u8>) -> u16 {
    match mode {
        Mode::ZeroPage => arg(mem, r, 1) as u16,
        Mode::ZeroPageX => ((arg(mem, r, 1) + r.x) % 256) as u16,
        Mode::ZeroPageY => ((arg(mem, r, 1) + r.y) % 256) as u16,
        Mode::Absolute => abs_arg(mem, r),
        Mode::AbsoluteX => add16(abs_arg(mem, r), r.x as int),
        Mode::AbsoluteY => add16(abs_arg(mem, r), r.y as int),
        Mode::IndirectX => zp_word(mem, ((arg(mem, r, 1) + r.x) % 256) as u8),
        Mode::IndirectY => add16(zp_word(mem, arg(mem, r, 1)), r.y as int),
        Mode::Accumulator | Mode::Immediate => 0,
    }
}

/// Whether adding the index register carries out of the low byte of the base address.
pub open spec fn page_crossed(mode: Mode, r: Regs, mem: Seq<u8>) -> bool {
    match mode {
        Mode::AbsoluteX => abs_arg(mem, r) % 256 + r.x >= 256,
        Mode::AbsoluteY => abs_arg(mem, r) % 256 + r.y >= 256,
        Mode::IndirectY => zp_word(mem, arg(mem, r, 1)) % 256 + r.y >= 256,
        _ => false,
    }
}

/// Instruction length in bytes.
pub open spec fn mode_len(mode: Mode) -> int {
    match mode {
        Mode::Accumulator => 1,
        Mode::Absolute | Mode::AbsoluteX | Mode::AbsoluteY => 3,
        _ => 2,
    }
}

/// The operand byte a read operation consumes.
pub open spec fn read_value(mode: Mode, r: Regs, mem: Seq<u8>) -> u8 {
    if mode == Mode::Immediate {
        arg(mem, r, 1)
    } else {
        mem[address(mode, r, mem) as int]
    }
}

/// The address a read operation takes its operand from.
pub open spec fn operand_addr(mode: Mode, r: Regs, mem: Seq<u8>) -> u16 {
    if mode == Mode::Immediate {
        add16(r.pc, 1)
    } else {
        address(mode, r, mem)
    }
}

/// Cycles of a read operation; indexed modes pay one more when the page is crossed.
pub open spec fn read_cycles(mode: Mode, crossed: bool) -> int {
    let extra: int = if crossed { 1 } else { 0 };
    match mode {
        Mode::Immediate => 2,
        Mode::ZeroPage => 3,
        Mode::ZeroPageX | Mode::ZeroPageY | Mode::Absolute => 4,
        Mode::AbsoluteX | Mode::AbsoluteY => 4 + extra,
        Mode::IndirectX => 6,
        Mode::IndirectY => 5 + extra,
        Mode::Accumulator => 2,
    }
}

/// Cycles of a store: indexed modes always spend the fix-up cycle.
pub open spec fn store_cycles(mode: Mode) -> int {
    match mode {
        Mode::ZeroPage => 3,
        Mode::ZeroPageX | Mode::ZeroPageY | Mode::Absolute => 4,
        Mode::AbsoluteX | Mode::AbsoluteY => 5,
        _ => 6,
    }
}

/// Cycles of a read-modify-write, including the write of the unmodified byte.
pub open spec fn modify_cycles(mode: Mode) -> int {
    match mode {
        Mode::Accumulator => 2,
        Mode::ZeroPage => 5,
        Mode::ZeroPageX | Mode::Absolute => 6,
        _ => 7,
    }
}

/// The address in page one that stack pointer `s` designates.
pub open spec fn stack_addr(s: u8) -> int {
    0x100 + s
}

/// `s + k` modulo 256.
pub open spec fn add8(s: u8, k: int) -> u8 {
    ((s + k) % 256) as u8
}

/// Bus cycles a store or read-modify-write spends on its address, after the opcode.
pub open spec fn address_cycles(mode: Mode) -> int {
    match mode {
        Mode::ZeroPage => 1,
        Mode::ZeroPageX | Mode::ZeroPageY | Mode::Absolute => 2,
        Mode::AbsoluteX | Mode::AbsoluteY => 3,
        _ => 4,
    }
}

/// `v + k` modulo 2^16, computed.
pub fn wrap16(v: u16, k: u16) -> (r: u16)
    ensures
        r == add16(v, k as int),
{
    ((v as u32 + k as u32) % 0x10000) as u16
}

/// One bus cycle: reads the byte `k` places after the program counter.
pub fn fetch_arg(cpu: &MCS6502, mem: &mut Memory, k: u16) -> (r: u8)
    ensures
        r == arg(old(mem)@, cpu@.regs, k as int),
        final(mem)@ == old(mem)@,
        final(mem).bus_cycles() == sat(old(mem).bus_cycles(), 1),
        extends(old(mem).log(), final(mem).log(), 1),
        final(mem).log().last() == rd(old(mem)@, add16(cpu@.regs.pc, k as int)),
{
    mem.read(wrap16(cpu.regs().pc, k))
}

/// Two bus cycles: reads a pointer from page zero, its high byte wrapping within the page.
pub fn read_zp_word(mem: &mut Memory, zp: u8) -> (r: u16)
    ensures
        r == zp_word(old(mem)@, zp),
        final(mem)@ == old(mem)@,
        final(mem).bus_cycles() == sat(old(mem).bus_cycles(), 2),
        extends(old(mem).log(), final(mem).log(), 2),
{
    let lo = mem.read(zp as u16);
    let hi = mem.read(((zp as u16 + 1) % 256) as u16);
    lo as u16 + 256 * hi as u16
}

/// Reads the 16-bit operand after the opcode: two bus cycles.
fn fetch_abs(cpu: &MCS6502, mem: &mut Memory) -> (r: u16)
    ensures
        r == abs_arg(old(mem)@, cpu@.regs),
        final(mem)@ == old(mem)@,
        final(mem).bus_cycles() == sat(old(mem).bus_cycles(), 2),
        extends(old(mem).log(), final(mem).log(), 2),
{
    let lo = fetch_arg(cpu, mem, 1);
    let hi = fetch_arg(cpu, mem, 2);
    lo as u16 + 256 * hi as u16
}

/// `base + index` before the carry reaches the high byte: the address the processor puts
/// on the bus while it fixes up a page cross.
fn partial_address(base: u16, index: u8) -> (r: u16)
    ensures
        r == (base / 256) * 256 + (base % 256 + index) % 256,
{
    (base / 256) * 256 + (base % 256 + index as u16) % 256
}

/// Reads `base + index`: first at the address before the carry reaches the high byte,
/// then, when the page was crossed, again at the fixed address.
fn read_indexed(mem: &mut Memory, base: u16, index: u8) -> (r: (u8, bool))
    ensures
        r.0 == old(mem)@[add16(base, index as int) as int],
        r.1 == (base % 256 + index >= 256),
        final(mem)@ == old(mem)@,
        final(mem).bus_cycles() == sat(old(mem).bus_cycles(), if r.1 { 2 } else { 1 }),
        extends(old(mem).log(), final(mem).log(), if r.1 { 2 } else { 1 }),
        final(mem).log().last() == rd(old(mem)@, add16(base, index as int)),
{
    let v = mem.read(partial_address(base, index));
    if base % 256 + index as u16 >= 256 {
        (mem.read(wrap16(base, index as u16)), true)
    } else {
        assert(base == (base / 256) * 256 + base % 256);
        (v, false)
    }
}

/// Reads a page-zero operand indexed by `index`: the unindexed address is read first.
fn read_zero_page_indexed(cpu: &MCS6502, mem: &mut Memory, index: u8) -> (r: u8)
    ensures
        r == old(mem)@[(arg(old(mem)@, cpu@.regs, 1) + index) % 256],
        final(mem)@ == old(mem)@,
        final(mem).bus_cycles() == sat(old(mem).bus_cycles(), 3),
        extends(old(mem).log(), final(mem).log(), 3),
        final(mem).log().last() == rd(old(mem)@, ((arg(old(mem)@, cpu@.regs, 1) + index) % 256) as u16),
{
    let zp = fetch_arg(cpu, mem, 1);
    let _ = mem.read(zp as u16);
    mem.read(((zp as u16 + index as u16) % 256) as u16)
}

/// Reads the operand of a read instruction, spending the bus cycles of its mode after the
/// opcode: the dummy read at the unfixed address when indexing crosses a page, and the
/// dummy read of the unindexed page-zero address.
pub fn read_operand(cpu: &MCS6502, mem: &mut Memory, mode: Mode) -> (r: (u8, bool))
    requires
        mode != Mode::Accumulator,
    ensures
        r.0 == read_value(mode, cpu@.regs, old(mem)@),
        r.1 == page_crossed(mode, cpu@.regs, old(mem)@),
        final(mem)@ == old(mem)@,
        final(mem).bus_cycles() == sat(old(mem).bus_cycles(), read_cycles(mode, r.1) - 1),
        extends(old(mem).log(), final(mem).log(), read_cycles(mode, r.1) - 1),
        final(mem).log().last() == rd(old(mem)@, operand_addr(mode, cpu@.regs, old(mem)@)),
{
    let r = cpu.regs();
    match mode {
        Mode::Immediate => (fetch_arg(cpu, mem, 1), false),
        Mode::ZeroPage => {
            let zp = fetch_arg(cpu, mem, 1);
            (mem.read(zp as u16), false)
        },
        Mode::ZeroPageX => (read_zero_page_indexed(cpu, mem, r.x), false),
        Mode::ZeroPageY => (read_zero_page_indexed(cpu, mem, r.y), false),
        Mode::Absolute => {
            let ea = fetch_abs(cpu, mem);
            (mem.read(ea), false)
        },
        Mode::AbsoluteX => {
            let base = fetch_abs(cpu, mem);
            read_indexed(mem, base, r.x)
        },
        Mode::AbsoluteY => {
            let base = fetch_abs(cpu, mem);
            read_indexed(mem, base, r.y)
        },
        Mode::IndirectX => {
            let zp = fetch_arg(cpu, mem, 1);
            let _ = mem.read(zp as u16);
            let ea = read_zp_word(mem, ((zp as u16 + r.x as u16) % 256) as u8);
            (mem.read(ea), false)
        },
        _ => {
            let zp = fetch_arg(cpu, mem, 1);
            let base = read_zp_word(mem, zp);
            read_indexed(mem, base, r.y)
        },
    }
}

/// Computes the address a store or read-modify-write accesses, spending the bus cycles its
/// mode takes before that access; indexed modes always spend the fix-up read.
pub fn write_address(cpu: &MCS6502, mem: &mut Memory, mode: Mode) -> (r: u16)
    requires
        mode != Mode::Accumulator,
        mode != Mode::Immediate,
    ensures
        r == address(mode, cpu@.regs, old(mem)@),
        final(mem)@ == old(mem)@,
        final(mem).bus_cycles() == sat(old(mem).bus_cycles(), address_cycles(mode)),
        extends(old(mem).log(), final(mem).log(), address_cycles(mode)),
{
    let r = cpu.regs();
    match mode {
        Mode::ZeroPage => fetch_arg(cpu, mem, 1) as u16,
        Mode::ZeroPageX | Mode::ZeroPageY => {
            let zp = fetch_arg(cpu, mem, 1);
            let _ = mem.read(zp as u16);
            let index = if mode == Mode::ZeroPageX { r.x } else { r.y };
            ((zp as u16 + index as u16) % 256) as u16
        },
        Mode::Absolute => fetch_abs(cpu, mem),
        Mode::AbsoluteX | Mode::AbsoluteY => {
            let base = fetch_abs(cpu, mem);
            let index = if mode == Mode::AbsoluteX { r.x } else { r.y };
            let _ = mem.read(partial_address(base, index));
            wrap16(base, index as u16)
        },
        Mode::IndirectX => {
            let zp = fetch_arg(cpu, mem, 1);
            let _ = mem.read(zp as u16);
            read_zp_word(mem, ((zp as u16 + r.x as u16) % 256) as u8)
        },
        _ => {
            let zp = fetch_arg(cpu, mem, 1);
            let base = read_zp_word(mem, zp);
            let _ = mem.read(partial_address(base, r.y));
            wrap16(base, r.y as u16)
        },
    }
}

/// One bus cycle: pushes `v` at the stack pointer, which then moves down.
pub fn push(cpu: &mut MCS6502, mem: &mut Memory, v: u8)
    ensures
        final(mem)@ == old(mem)@.update(stack_addr(old(cpu)@.regs.s), v),
        final(mem).bus_cycles() == sat(old(mem).bus_cycles(), 1),
        extends(old(mem).log(), final(mem).log(), 1),
        final(mem).log().last() == wr((0x100 + old(cpu)@.regs.s) as u16, v),
        final(cpu)@ == with_regs(old(cpu)@, Regs { s: add8(old(cpu)@.regs.s, 255), ..old(cpu)@.regs }),
{
    let s = cpu.s();
    mem.write(0x100 + s as u16, v);
    cpu.set_s(if s == 0 { 255 } else { s - 1 });
}

/// One bus cycle: the stack pointer moves up, then the byte there is read.
pub fn pull(cpu: &mut MCS6502, mem: &mut Memory) -> (r: u8)
    ensures
        r == old(mem)@[stack_addr(add8(old(cpu)@.regs.s, 1))],
        final(mem)@ == old(mem)@,
        final(mem).bus_cycles() == sat(old(mem).bus_cycles(), 1),
        extends(old(mem).log(), final(mem).log(), 1),
        final(cpu)@ == with_regs(old(cpu)@, Regs { s: add8(old(cpu)@.regs.s, 1), ..old(cpu)@.regs }),
{
    let s = cpu.s();
    let s1: u8 = if s == 255 { 0 } else { s + 1 };
    cpu.set_s(s1);
    mem.read(0x100 + s1 as u16)
}

/// One bus cycle: the dummy read of the stack that the processor makes while it adjusts the
/// stack pointer.
pub fn peek_stack(cpu: &MCS6502, mem: &mut Memory)
    ensures
        final(mem)@ == old(mem)@,
        final(mem).bus_cycles() == sat(old(mem).bus_cycles(), 1),
        extends(old(mem).log(), final(mem).log(), 1),
{
    let _ = mem.read(0x100 + cpu.s() as u16);
}

} // verus!
