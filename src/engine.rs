//! Fetch, decode and execute: the whole-instruction state transition and the dispatch loop.
#![allow(non_snake_case)]
use vstd::prelude::*;

use crate::addressing::{
    abs_arg, add8, address, arg, fetch_arg, mode_len, modify_cycles, operand_addr, page_crossed,
    peek_stack,
    pull, push, read_cycles, read_operand, read_value, stack_addr, store_cycles, wrap16,
    write_address,
};
use crate::alu::{
    implied_spec, modify_flags, modify_value, nz, read_spec, rol_core, ror_core,
    shift_ops_sync_pcr_c_lsb, shift_ops_sync_pcr_c_msb, sync_pcr_n, sync_pcr_z, ADC_core, BIT_core,
    CMP_core, SBC_core,
};
use crate::cpu::{add16, with_p, with_regs, word, CpuError, CpuState, Regs, MCS6502};
use crate::isa::{
    decode, decode_spec, lemma_decode_well_formed, well_formed, ImpliedOp, Instr, Mode, ModifyOp, ReadOp,
    Reg,
};
use crate::memory::{ends_with, extends, rd, sat, wr, BusAccess, Memory};
use crate::psr::{self, has, pulled, pushed, with_flag};

verus! {

/// What one instruction leaves behind: registers, memory and the cycles it took.
pub struct Outcome {
    pub regs: Regs,
    pub mem: Seq<u8>,
    pub cycles: int,
}

/// The register a store writes out.
pub open spec fn reg_value(reg: Reg, r: Regs) -> u8 {
    match reg {
        Reg::A => r.a,
        Reg::X => r.x,
        Reg::Y => r.y,
    }
}

/// Where a taken branch goes: the next instruction plus the signed offset.
pub open spec fn branch_target(r: Regs, mem: Seq<u8>) -> u16 {
    let off = arg(mem, r, 1);
    add16(add16(r.pc, 2), if off < 128 { off as int } else { off - 256 })
}

/// Cycles of a branch: two, one more when taken, one more again when the target lies
/// in another page than the next instruction.
pub open spec fn branch_cycles(taken: bool, next: u16, target: u16) -> int {
    if !taken {
        2
    } else if target / 256 == next / 256 {
        3
    } else {
        4
    }
}

/// The target of JMP through a pointer; the pointer's high byte is fetched from the same
/// page as its low byte.
pub open spec fn indirect_target(mem: Seq<u8>, ptr: u16) -> u16 {
    word(mem[ptr as int], mem[(ptr / 256) * 256 + (ptr % 256 + 1) % 256])
}

/// What JSR writes to memory: the return address minus one, high byte first.
pub open spec fn jsr_mem(r: Regs, mem: Seq<u8>) -> Seq<u8> {
    let ret = add16(r.pc, 2);
    mem.update(stack_addr(r.s), (ret / 256) as u8).update(stack_addr(add8(r.s, 255)), (ret % 256) as u8)
}

/// What BRK writes to memory: the return address, then the flags as pushed.
pub open spec fn brk_mem(r: Regs, mem: Seq<u8>) -> Seq<u8> {
    let ret = add16(r.pc, 2);
    mem.update(stack_addr(r.s), (ret / 256) as u8).update(stack_addr(add8(r.s, 255)), (ret % 256) as u8).update(
        stack_addr(add8(r.s, 254)),
        pushed(r.p),
    )
}

/// JSR: the return address minus one is pushed, high byte first; the high byte of the
/// target is read after the pushes.
pub open spec fn jsr_outcome(r: Regs, mem: Seq<u8>) -> Outcome {
    let m = jsr_mem(r, mem);
    Outcome { regs: Regs { s: add8(r.s, 254), pc: word(arg(mem, r, 1), arg(m, r, 2)), ..r }, mem: m, cycles: 6 }
}

/// RTS: pulls the low then the high byte and continues one past that address.
pub open spec fn rts_outcome(r: Regs, mem: Seq<u8>) -> Outcome {
    Outcome {
        regs: Regs {
            s: add8(r.s, 2),
            pc: add16(word(mem[stack_addr(add8(r.s, 1))], mem[stack_addr(add8(r.s, 2))]), 1),
            ..r
        },
        mem,
        cycles: 6,
    }
}

/// RTI: pulls the flags (stack-only bits dropped), then the low and high byte of the
/// program counter.
pub open spec fn rti_outcome(r: Regs, mem: Seq<u8>) -> Outcome {
    Outcome {
        regs: Regs {
            s: add8(r.s, 3),
            p: pulled(mem[stack_addr(add8(r.s, 1))]),
            pc: word(mem[stack_addr(add8(r.s, 2))], mem[stack_addr(add8(r.s, 3))]),
            ..r
        },
        mem,
        cycles: 6,
    }
}

/// BRK: pushes the return address and the flags as pushed, sets Interrupt disable and
/// continues at the vector in 0xFFFE/0xFFFF.
pub open spec fn brk_outcome(r: Regs, mem: Seq<u8>) -> Outcome {
    let m = brk_mem(r, mem);
    Outcome {
        regs: Regs { s: add8(r.s, 253), p: with_flag(r.p, psr::I, true), pc: word(m[0xFFFE], m[0xFFFF]), ..r },
        mem: m,
        cycles: 7,
    }
}

/// A read-modify-write on the accumulator or on memory.
pub open spec fn modify_outcome(op: ModifyOp, mode: Mode, r: Regs, mem: Seq<u8>) -> Outcome {
    if mode == Mode::Accumulator {
        Outcome {
            regs: Regs { a: modify_value(op, r.p, r.a), p: modify_flags(op, r.p, r.a), pc: add16(r.pc, 1), ..r },
            mem,
            cycles: 2,
        }
    } else {
        let ea = address(mode, r, mem) as int;
        Outcome {
            regs: Regs { p: modify_flags(op, r.p, mem[ea]), pc: add16(r.pc, mode_len(mode)), ..r },
            mem: mem.update(ea, modify_value(op, r.p, mem[ea])),
            cycles: modify_cycles(mode),
        }
    }
}

/// The effect of executing `i` from registers `r` over memory `mem` (binary arithmetic).
#[verifier::opaque]
pub open spec fn exec_spec(i: Instr, r: Regs, mem: Seq<u8>) -> Outcome {
    match i {
        Instr::Read { op, mode } => Outcome {
            regs: read_spec(op, Regs { pc: add16(r.pc, mode_len(mode)), ..r }, read_value(mode, r, mem)),
            mem,
            cycles: read_cycles(mode, page_crossed(mode, r, mem)),
        },
        Instr::Store { reg, mode } => Outcome {
            regs: Regs { pc: add16(r.pc, mode_len(mode)), ..r },
            mem: mem.update(address(mode, r, mem) as int, reg_value(reg, r)),
            cycles: store_cycles(mode),
        },
        Instr::Modify { op, mode } => modify_outcome(op, mode, r, mem),
        Instr::Implied { op } => Outcome {
            regs: implied_spec(op, Regs { pc: add16(r.pc, 1), ..r }),
            mem,
            cycles: 2,
        },
        Instr::Branch { flag, set } => {
            let taken = has(r.p, flag) == set;
            let next = add16(r.pc, 2);
            let target = branch_target(r, mem);
            Outcome {
                regs: Regs { pc: if taken { target } else { next }, ..r },
                mem,
                cycles: branch_cycles(taken, next, target),
            }
        },
        Instr::Jump { indirect } => if indirect {
            Outcome { regs: Regs { pc: indirect_target(mem, abs_arg(mem, r)), ..r }, mem, cycles: 5 }
        } else {
            Outcome { regs: Regs { pc: abs_arg(mem, r), ..r }, mem, cycles: 3 }
        },
        Instr::CallSubroutine => jsr_outcome(r, mem),
        Instr::ReturnFromSubroutine => rts_outcome(r, mem),
        Instr::ReturnFromInterrupt => rti_outcome(r, mem),
        Instr::Break => brk_outcome(r, mem),
        Instr::Push { flags } => Outcome {
            regs: Regs { s: add8(r.s, 255), pc: add16(r.pc, 1), ..r },
            mem: mem.update(stack_addr(r.s), if flags { pushed(r.p) } else { r.a }),
            cycles: 3,
        },
        Instr::Pull { flags } => {
            let v = mem[stack_addr(add8(r.s, 1))];
            Outcome {
                regs: if flags {
                    Regs { s: add8(r.s, 1), p: pulled(v), pc: add16(r.pc, 1), ..r }
                } else {
                    Regs { s: add8(r.s, 1), a: v, p: nz(r.p, v), pc: add16(r.pc, 1), ..r }
                },
                mem,
                cycles: 4,
            }
        },
    }
}

/// The bus cycles an instruction ends with, where its kind fixes them: the operand read of
/// a read operation, the write of a store or push, and for a read-modify-write on memory
/// the read, the write of the unmodified byte, then the write of the new one.
pub open spec fn data_tail(i: Instr, r: Regs, mem: Seq<u8>) -> Seq<BusAccess> {
    match i {
        Instr::Read { mode, .. } => seq![rd(mem, operand_addr(mode, r, mem))],
        Instr::Store { reg, mode } => seq![wr(address(mode, r, mem), reg_value(reg, r))],
        Instr::Modify { op, mode } => if mode == Mode::Accumulator {
            Seq::empty()
        } else {
            let ea = address(mode, r, mem);
            let v = mem[ea as int];
            seq![rd(mem, ea), wr(ea, v), wr(ea, modify_value(op, r.p, v))]
        },
        Instr::Push { flags } => seq![wr((0x100 + r.s) as u16, if flags { pushed(r.p) } else { r.a })],
        _ => Seq::empty(),
    }
}

/// ADC and SBC, whose decimal mode is not emulated.
pub open spec fn is_decimal_arith(i: Instr) -> bool {
    match i {
        Instr::Read { op, .. } => op == ReadOp::Adc || op == ReadOp::Sbc,
        _ => false,
    }
}

/// One whole instruction from registers `r` over memory `mem`: the opcode at the program
/// counter is decoded and executed, or the reason it cannot be.
#[verifier::opaque]
pub open spec fn step_spec(r: Regs, mem: Seq<u8>) -> Result<Outcome, CpuError> {
    let opcode = mem[r.pc as int];
    match decode_spec(opcode) {
        None => Err(CpuError::IllegalOpcode { opcode, regs: r }),
        Some(i) => if is_decimal_arith(i) && has(r.p, psr::D) {
            Err(CpuError::DecimalModeUnsupported { opcode, regs: r })
        } else {
            Ok(exec_spec(i, r, mem))
        },
    }
}

/// The transition that `execute` performs: registers and memory become those of `o`,
/// `cycles` is its cycle count, and the bus sees one cycle per clock cycle after the opcode
/// fetch; counters and the ready line are untouched.
pub open spec fn performs(
    before: CpuState,
    after: CpuState,
    mem_before: Memory,
    mem_after: Memory,
    cycles: u8,
    o: Outcome,
) -> bool {
    &&& after == with_regs(before, o.regs)
    &&& mem_after@ == o.mem
    &&& cycles == o.cycles
    &&& mem_after.bus_cycles() == sat(mem_before.bus_cycles(), o.cycles - 1)
    &&& extends(mem_before.log(), mem_after.log(), o.cycles - 1)
}

fn mode_length(mode: Mode) -> (r: u8)
    ensures
        r == mode_len(mode),
{
    match mode {
        Mode::Accumulator => 1,
        Mode::Absolute | Mode::AbsoluteX | Mode::AbsoluteY => 3,
        _ => 2,
    }
}

fn read_cycle_count(mode: Mode, crossed: bool) -> (r: u8)
    ensures
        r == read_cycles(mode, crossed),
{
    let extra: u8 = if crossed { 1 } else { 0 };
    match mode {
        Mode::Immediate => 2,
        Mode::ZeroPage => 3,
        Mode::ZeroPageX | Mode::ZeroPageY | Mode::Absolute => 4,
        Mode::AbsoluteX | Mode::AbsoluteY => 4 + extra,
        Mode::IndirectX => 6,
        Mode::IndirectY => 5 + extra,
        Mode::Accumulator => 2,
    }
}

fn store_cycle_count(mode: Mode) -> (r: u8)
    ensures
        r == store_cycles(mode),
{
    match mode {
        Mode::ZeroPage => 3,
        Mode::ZeroPageX | Mode::ZeroPageY | Mode::Absolute => 4,
        Mode::AbsoluteX | Mode::AbsoluteY => 5,
        _ => 6,
    }
}

fn modify_cycle_count(mode: Mode) -> (r: u8)
    ensures
        r == modify_cycles(mode),
{
    match mode {
        Mode::Accumulator => 2,
        Mode::ZeroPage => 5,
        Mode::ZeroPageX | Mode::Absolute => 6,
        _ => 7,
    }
}

/// Loads the accumulator and sets Negative and Zero from the value.
fn set_reg_A(cpu: &mut MCS6502, val: u8)
    ensures
        final(cpu)@ == with_regs(old(cpu)@, Regs { a: val, p: nz(old(cpu)@.regs.p, val), ..old(cpu)@.regs }),
{
    cpu.set_a(val);
    sync_pcr_n(cpu, val);
    sync_pcr_z(cpu, val);
}

/// Loads X and sets Negative and Zero from the value.
fn set_reg_X(cpu: &mut MCS6502, val: u8)
    ensures
        final(cpu)@ == with_regs(old(cpu)@, Regs { x: val, p: nz(old(cpu)@.regs.p, val), ..old(cpu)@.regs }),
{
    cpu.set_x(val);
    sync_pcr_n(cpu, val);
    sync_pcr_z(cpu, val);
}

/// Loads Y and sets Negative and Zero from the value.
fn set_reg_Y(cpu: &mut MCS6502, val: u8)
    ensures
        final(cpu)@ == with_regs(old(cpu)@, Regs { y: val, p: nz(old(cpu)@.regs.p, val), ..old(cpu)@.regs }),
{
    cpu.set_y(val);
    sync_pcr_n(cpu, val);
    sync_pcr_z(cpu, val);
}

/// The flag byte as software pushes it (BRK, PHP): Break and the unused bit read as 1.
pub fn reg_PSR(cpu: &MCS6502) -> (r: u8)
    ensures
        r == pushed(cpu@.regs.p),
{
    cpu.p() | psr::STACK_ONLY
}

/// Restores the flags from a pulled byte (PLP, RTI): Break and the unused bit are dropped.
pub fn set_reg_PSR(cpu: &mut MCS6502, val: u8)
    ensures
        final(cpu)@ == with_regs(old(cpu)@, with_p(old(cpu)@.regs, pulled(val))),
{
    cpu.set_p(val & !psr::STACK_ONLY);
}

fn ASL_core(cpu: &mut MCS6502, old_v: u8) -> (r: u8)
    ensures
        r == modify_value(ModifyOp::Asl, old(cpu)@.regs.p, old_v),
        final(cpu)@ == with_regs(old(cpu)@, with_p(old(cpu)@.regs, modify_flags(ModifyOp::Asl, old(cpu)@.regs.p, old_v))),
{
    let new_v = if old_v >= 128 { (old_v - 128) * 2 } else { old_v * 2 };
    sync_pcr_n(cpu, new_v);
    sync_pcr_z(cpu, new_v);
    shift_ops_sync_pcr_c_msb(cpu, old_v);
    new_v
}

fn LSR_core(cpu: &mut MCS6502, old_v: u8) -> (r: u8)
    ensures
        r == modify_value(ModifyOp::Lsr, old(cpu)@.regs.p, old_v),
        final(cpu)@ == with_regs(old(cpu)@, with_p(old(cpu)@.regs, modify_flags(ModifyOp::Lsr, old(cpu)@.regs.p, old_v))),
{
    let new_v = old_v / 2;
    sync_pcr_n(cpu, new_v);
    sync_pcr_z(cpu, new_v);
    shift_ops_sync_pcr_c_lsb(cpu, old_v);
    new_v
}

fn ROL_core(cpu: &mut MCS6502, old_v: u8) -> (r: u8)
    ensures
        r == modify_value(ModifyOp::Rol, old(cpu)@.regs.p, old_v),
        final(cpu)@ == with_regs(old(cpu)@, with_p(old(cpu)@.regs, modify_flags(ModifyOp::Rol, old(cpu)@.regs.p, old_v))),
{
    let new_v = rol_core(cpu, old_v);
    sync_pcr_n(cpu, new_v);
    sync_pcr_z(cpu, new_v);
    shift_ops_sync_pcr_c_msb(cpu, old_v);
    new_v
}

fn ROR_core(cpu: &mut MCS6502, old_v: u8) -> (r: u8)
    ensures
        r == modify_value(ModifyOp::Ror, old(cpu)@.regs.p, old_v),
        final(cpu)@ == with_regs(old(cpu)@, with_p(old(cpu)@.regs, modify_flags(ModifyOp::Ror, old(cpu)@.regs.p, old_v))),
{
    let new_v = ror_core(cpu, old_v);
    sync_pcr_n(cpu, new_v);
    sync_pcr_z(cpu, new_v);
    shift_ops_sync_pcr_c_lsb(cpu, old_v);
    new_v
}

fn INC_core(cpu: &mut MCS6502, val: u8) -> (r: u8)
    ensures
        r == modify_value(ModifyOp::Inc, old(cpu)@.regs.p, val),
        final(cpu)@ == with_regs(old(cpu)@, with_p(old(cpu)@.regs, modify_flags(ModifyOp::Inc, old(cpu)@.regs.p, val))),
{
    let val = val.wrapping_add(1);
    sync_pcr_n(cpu, val);
    sync_pcr_z(cpu, val);
    val
}

fn DEC_core(cpu: &mut MCS6502, val: u8) -> (r: u8)
    ensures
        r == modify_value(ModifyOp::Dec, old(cpu)@.regs.p, val),
        final(cpu)@ == with_regs(old(cpu)@, with_p(old(cpu)@.regs, modify_flags(ModifyOp::Dec, old(cpu)@.regs.p, val))),
{
    let val = val.wrapping_sub(1);
    sync_pcr_n(cpu, val);
    sync_pcr_z(cpu, val);
    val
}

/// Applies a read-modify-write operation to `v`: sets the flags, returns the new byte.
fn modify_core(cpu: &mut MCS6502, op: ModifyOp, v: u8) -> (r: u8)
    ensures
        r == modify_value(op, old(cpu)@.regs.p, v),
        final(cpu)@ == with_regs(old(cpu)@, with_p(old(cpu)@.regs, modify_flags(op, old(cpu)@.regs.p, v))),
{
    match op {
        ModifyOp::Asl => ASL_core(cpu, v),
        ModifyOp::Lsr => LSR_core(cpu, v),
        ModifyOp::Rol => ROL_core(cpu, v),
        ModifyOp::Ror => ROR_core(cpu, v),
        ModifyOp::Inc => INC_core(cpu, v),
        ModifyOp::Dec => DEC_core(cpu, v),
    }
}

fn AND_core(cpu: &mut MCS6502, val: u8)
    ensures
        final(cpu)@ == with_regs(old(cpu)@, read_spec(ReadOp::And, old(cpu)@.regs, val)),
{
    let res = cpu.a() & val;
    set_reg_A(cpu, res);
}

fn ORA_core(cpu: &mut MCS6502, val: u8)
    ensures
        final(cpu)@ == with_regs(old(cpu)@, read_spec(ReadOp::Ora, old(cpu)@.regs, val)),
{
    let res = cpu.a() | val;
    set_reg_A(cpu, res);
}

fn EOR_core(cpu: &mut MCS6502, val: u8)
    ensures
        final(cpu)@ == with_regs(old(cpu)@, read_spec(ReadOp::Eor, old(cpu)@.regs, val)),
{
    let res = cpu.a() ^ val;
    set_reg_A(cpu, res);
}

/// Applies a read operation to the operand `v`.
fn read_core(cpu: &mut MCS6502, op: ReadOp, v: u8)
    requires
        !((op == ReadOp::Adc || op == ReadOp::Sbc) && has(old(cpu)@.regs.p, psr::D)),
    ensures
        final(cpu)@ == with_regs(old(cpu)@, read_spec(op, old(cpu)@.regs, v)),
{
    match op {
        ReadOp::Lda => set_reg_A(cpu, v),
        ReadOp::Ldx => set_reg_X(cpu, v),
        ReadOp::Ldy => set_reg_Y(cpu, v),
        ReadOp::And => AND_core(cpu, v),
        ReadOp::Ora => ORA_core(cpu, v),
        ReadOp::Eor => EOR_core(cpu, v),
        ReadOp::Adc => {
            let _ = ADC_core(cpu, v);
        },
        ReadOp::Sbc => {
            let _ = SBC_core(cpu, v);
        },
        ReadOp::Cmp => {
            let a = cpu.a();
            CMP_core(cpu, a, v);
        },
        ReadOp::Cpx => {
            let x = cpu.x();
            CMP_core(cpu, x, v);
        },
        ReadOp::Cpy => {
            let y = cpu.y();
            CMP_core(cpu, y, v);
        },
        ReadOp::Bit => BIT_core(cpu, v),
    }
}

/// Applies a single-byte register or flag operation.
fn implied_core(cpu: &mut MCS6502, op: ImpliedOp)
    ensures
        final(cpu)@ == with_regs(old(cpu)@, implied_spec(op, old(cpu)@.regs)),
{
    match op {
        ImpliedOp::Clc => cpu.clr_psr_bit(psr::C),
        ImpliedOp::Sec => cpu.set_psr_bit(psr::C),
        ImpliedOp::Cli => cpu.clr_psr_bit(psr::I),
        ImpliedOp::Sei => cpu.set_psr_bit(psr::I),
        ImpliedOp::Clv => cpu.clr_psr_bit(psr::V),
        ImpliedOp::Cld => cpu.clr_psr_bit(psr::D),
        ImpliedOp::Sed => cpu.set_psr_bit(psr::D),
        ImpliedOp::Inx => {
            let v = INC_core(cpu, cpu.x());
            cpu.set_x(v);
        },
        ImpliedOp::Iny => {
            let v = INC_core(cpu, cpu.y());
            cpu.set_y(v);
        },
        ImpliedOp::Dex => {
            let v = DEC_core(cpu, cpu.x());
            cpu.set_x(v);
        },
        ImpliedOp::Dey => {
            let v = DEC_core(cpu, cpu.y());
            cpu.set_y(v);
        },
        ImpliedOp::Tax => set_reg_X(cpu, cpu.a()),
        ImpliedOp::Tay => set_reg_Y(cpu, cpu.a()),
        ImpliedOp::Txa => set_reg_A(cpu, cpu.x()),
        ImpliedOp::Tya => set_reg_A(cpu, cpu.y()),
        ImpliedOp::Tsx => set_reg_X(cpu, cpu.s()),
        ImpliedOp::Txs => cpu.set_s(cpu.x()),
        ImpliedOp::Nop => {},
    }
}

fn exec_read(cpu: &mut MCS6502, mem: &mut Memory, op: ReadOp, mode: Mode) -> (r: u8)
    requires
        !((op == ReadOp::Adc || op == ReadOp::Sbc) && has(old(cpu)@.regs.p, psr::D)),
        mode != Mode::Accumulator,
    ensures
        ends_with(final(mem).log(), data_tail(Instr::Read { op, mode }, old(cpu)@.regs, old(mem)@)),
        performs(old(cpu)@, final(cpu)@, *old(mem), *final(mem), r, exec_spec(Instr::Read { op, mode }, old(cpu)@.regs, old(mem)@)),
{
    proof {
        reveal(exec_spec);
    }
    let (v, crossed) = read_operand(cpu, mem, mode);
    cpu.pc_incr(mode_length(mode));
    read_core(cpu, op, v);
    read_cycle_count(mode, crossed)
}

fn exec_store(cpu: &mut MCS6502, mem: &mut Memory, reg: Reg, mode: Mode) -> (r: u8)
    requires
        mode != Mode::Accumulator,
        mode != Mode::Immediate,
    ensures
        ends_with(final(mem).log(), data_tail(Instr::Store { reg, mode }, old(cpu)@.regs, old(mem)@)),
        performs(old(cpu)@, final(cpu)@, *old(mem), *final(mem), r, exec_spec(Instr::Store { reg, mode }, old(cpu)@.regs, old(mem)@)),
{
    proof {
        reveal(exec_spec);
    }
    let ea = write_address(cpu, mem, mode);
    let v = match reg {
        Reg::A => cpu.a(),
        Reg::X => cpu.x(),
        Reg::Y => cpu.y(),
    };
    mem.write(ea, v);
    cpu.pc_incr(mode_length(mode));
    store_cycle_count(mode)
}

fn exec_modify(cpu: &mut MCS6502, mem: &mut Memory, op: ModifyOp, mode: Mode) -> (r: u8)
    requires
        mode == Mode::Accumulator || mode == Mode::ZeroPage || mode == Mode::ZeroPageX || mode
            == Mode::Absolute || mode == Mode::AbsoluteX,
    ensures
        ends_with(final(mem).log(), data_tail(Instr::Modify { op, mode }, old(cpu)@.regs, old(mem)@)),
        performs(old(cpu)@, final(cpu)@, *old(mem), *final(mem), r, modify_outcome(op, mode, old(cpu)@.regs, old(mem)@)),
{
    if mode == Mode::Accumulator {
        let _ = fetch_arg(cpu, mem, 1);
        let a = cpu.a();
        let v = modify_core(cpu, op, a);
        cpu.set_a(v);
        cpu.pc_incr(1);
    } else {
        let ghost m0 = mem@;
        proof {
            mem.lemma_len();
        }
        let ea = write_address(cpu, mem, mode);
        let v = mem.read(ea);
        // the unmodified byte goes back out first, as on the real bus
        mem.write(ea, v);
        let nv = modify_core(cpu, op, v);
        mem.write(ea, nv);
        assert(mem@ =~= m0.update(ea as int, nv));
        cpu.pc_incr(mode_length(mode));
    }
    modify_cycle_count(mode)
}

fn exec_branch(cpu: &mut MCS6502, mem: &mut Memory, flag: u8, set: bool) -> (r: u8)
    ensures
        performs(old(cpu)@, final(cpu)@, *old(mem), *final(mem), r, exec_spec(Instr::Branch { flag, set }, old(cpu)@.regs, old(mem)@)),
{
    proof {
        reveal(exec_spec);
    }
    let r = cpu.regs();
    let off = fetch_arg(cpu, mem, 1);
    let next = wrap16(r.pc, 2);
    let taken = cpu.tst_psr_bit(flag) == set;
    let target = if off < 128 {
        wrap16(next, off as u16)
    } else {
        wrap16(next, off as u16 + 0xFF00)
    };
    assert(target == branch_target(r, old(mem)@));
    if taken {
        // the processor reads the next opcode while it adds the offset
        let _ = mem.read(next);
        cpu.set_regs(Regs { pc: target, ..r });
        if target / 256 == next / 256 {
            3
        } else {
            // and reads from the unfixed target while it carries into the high byte
            let _ = mem.read((next / 256) * 256 + target % 256);
            4
        }
    } else {
        cpu.set_regs(Regs { pc: next, ..r });
        2
    }
}

fn exec_jump(cpu: &mut MCS6502, mem: &mut Memory, indirect: bool) -> (r: u8)
    ensures
        performs(old(cpu)@, final(cpu)@, *old(mem), *final(mem), r, exec_spec(Instr::Jump { indirect }, old(cpu)@.regs, old(mem)@)),
{
    proof {
        reveal(exec_spec);
    }
    let r = cpu.regs();
    let ptr = write_address(cpu, mem, Mode::Absolute);
    if indirect {
        let lo = mem.read(ptr);
        let hi = mem.read((ptr / 256) * 256 + (ptr % 256 + 1) % 256);
        cpu.set_regs(Regs { pc: lo as u16 + 256 * hi as u16, ..r });
        5
    } else {
        cpu.set_regs(Regs { pc: ptr, ..r });
        3
    }
}

/// JSR: the low operand byte is read, the return address minus one is pushed high byte
/// first, and only then is the high operand byte read.
fn exec_jsr(cpu: &mut MCS6502, mem: &mut Memory) -> (r: u8)
    ensures
        performs(old(cpu)@, final(cpu)@, *old(mem), *final(mem), r, jsr_outcome(old(cpu)@.regs, old(mem)@)),
{
    let r = cpu.regs();
    let lo = fetch_arg(cpu, mem, 1);
    peek_stack(cpu, mem);
    let ret = wrap16(r.pc, 2);
    push(cpu, mem, (ret / 256) as u8);
    push(cpu, mem, (ret % 256) as u8);
    let hi = fetch_arg(cpu, mem, 2);
    let s = cpu.s();
    cpu.set_regs(Regs { s, pc: lo as u16 + 256 * hi as u16, ..r });
    6
}

fn exec_rts(cpu: &mut MCS6502, mem: &mut Memory) -> (r: u8)
    ensures
        performs(old(cpu)@, final(cpu)@, *old(mem), *final(mem), r, rts_outcome(old(cpu)@.regs, old(mem)@)),
{
    let _ = fetch_arg(cpu, mem, 1);
    peek_stack(cpu, mem);
    let lo = pull(cpu, mem);
    let hi = pull(cpu, mem);
    let ret = lo as u16 + 256 * hi as u16;
    // the processor reads at the pulled address while it increments it
    let _ = mem.read(ret);
    let r = cpu.regs();
    cpu.set_regs(Regs { pc: wrap16(ret, 1), ..r });
    6
}

fn exec_rti(cpu: &mut MCS6502, mem: &mut Memory) -> (r: u8)
    ensures
        performs(old(cpu)@, final(cpu)@, *old(mem), *final(mem), r, rti_outcome(old(cpu)@.regs, old(mem)@)),
{
    let _ = fetch_arg(cpu, mem, 1);
    peek_stack(cpu, mem);
    let p = pull(cpu, mem);
    set_reg_PSR(cpu, p);
    let lo = pull(cpu, mem);
    let hi = pull(cpu, mem);
    let r = cpu.regs();
    cpu.set_regs(Regs { pc: lo as u16 + 256 * hi as u16, ..r });
    6
}

/// BRK: pushes the address two past the opcode and the flags with Break set, disables
/// interrupts and continues at the interrupt vector.
fn exec_brk(cpu: &mut MCS6502, mem: &mut Memory) -> (r: u8)
    ensures
        performs(old(cpu)@, final(cpu)@, *old(mem), *final(mem), r, brk_outcome(old(cpu)@.regs, old(mem)@)),
{
    let _ = fetch_arg(cpu, mem, 1);
    let ret = wrap16(cpu.regs().pc, 2);
    push(cpu, mem, (ret / 256) as u8);
    push(cpu, mem, (ret % 256) as u8);
    let p = reg_PSR(cpu);
    push(cpu, mem, p);
    cpu.set_psr_bit(psr::I);
    let lo = mem.read(0xFFFE);
    let hi = mem.read(0xFFFF);
    let r = cpu.regs();
    cpu.set_regs(Regs { pc: lo as u16 + 256 * hi as u16, ..r });
    7
}

fn exec_push(cpu: &mut MCS6502, mem: &mut Memory, flags: bool) -> (r: u8)
    ensures
        ends_with(final(mem).log(), data_tail(Instr::Push { flags }, old(cpu)@.regs, old(mem)@)),
        performs(old(cpu)@, final(cpu)@, *old(mem), *final(mem), r, exec_spec(Instr::Push { flags }, old(cpu)@.regs, old(mem)@)),
{
    proof {
        reveal(exec_spec);
    }
    let _ = fetch_arg(cpu, mem, 1);
    let v = if flags { reg_PSR(cpu) } else { cpu.a() };
    push(cpu, mem, v);
    cpu.pc_incr(1);
    3
}

fn exec_pull(cpu: &mut MCS6502, mem: &mut Memory, flags: bool) -> (r: u8)
    ensures
        performs(old(cpu)@, final(cpu)@, *old(mem), *final(mem), r, exec_spec(Instr::Pull { flags }, old(cpu)@.regs, old(mem)@)),
{
    proof {
        reveal(exec_spec);
    }
    let _ = fetch_arg(cpu, mem, 1);
    peek_stack(cpu, mem);
    cpu.pc_incr(1);
    let v = pull(cpu, mem);
    if flags {
        set_reg_PSR(cpu, v);
    } else {
        set_reg_A(cpu, v);
    }
    4
}

/// Executes one decoded instruction (binary arithmetic) and returns its cycle count; the
/// opcode fetch has already been made, and every later cycle makes one bus access.
pub fn execute(cpu: &mut MCS6502, mem: &mut Memory, i: Instr) -> (r: u8)
    requires
        !(is_decimal_arith(i) && has(old(cpu)@.regs.p, psr::D)),
        well_formed(i),
    ensures
        ends_with(final(mem).log(), data_tail(i, old(cpu)@.regs, old(mem)@)),
        r >= 2,
        performs(old(cpu)@, final(cpu)@, *old(mem), *final(mem), r, exec_spec(i, old(cpu)@.regs, old(mem)@)),
{
    proof {
        reveal(exec_spec);
    }
    match i {
        Instr::Read { op, mode } => exec_read(cpu, mem, op, mode),
        Instr::Store { reg, mode } => exec_store(cpu, mem, reg, mode),
        Instr::Modify { op, mode } => exec_modify(cpu, mem, op, mode),
        Instr::Implied { op } => {
            let _ = fetch_arg(cpu, mem, 1);
            cpu.pc_incr(1);
            implied_core(cpu, op);
            2
        },
        Instr::Branch { flag, set } => exec_branch(cpu, mem, flag, set),
        Instr::Jump { indirect } => exec_jump(cpu, mem, indirect),
        Instr::CallSubroutine => exec_jsr(cpu, mem),
        Instr::ReturnFromSubroutine => exec_rts(cpu, mem),
        Instr::ReturnFromInterrupt => exec_rti(cpu, mem),
        Instr::Break => exec_brk(cpu, mem),
        Instr::Push { flags } => exec_push(cpu, mem, flags),
        Instr::Pull { flags } => exec_pull(cpu, mem, flags),
    }
}

fn is_decimal_arith_instr(i: Instr) -> (r: bool)
    ensures
        r == is_decimal_arith(i),
{
    match i {
        Instr::Read { op, .. } => op == ReadOp::Adc || op == ReadOp::Sbc,
        _ => false,
    }
}

/// What one call of `tick` does: nothing while the ready line is low. Otherwise the opcode
/// is fetched (one bus cycle) and either one whole instruction is retired, with one bus
/// cycle per clock cycle, or it fails and nothing else changes.
pub open spec fn tick_spec(
    before: CpuState,
    after: CpuState,
    mem_before: Seq<u8>,
    mem_after: Seq<u8>,
    bus_before: u64,
    bus_after: u64,
    log_before: Seq<BusAccess>,
    log_after: Seq<BusAccess>,
    r: Result<u8, CpuError>,
) -> bool {
    if !before.rdy {
        &&& r == Ok::<u8, CpuError>(0)
        &&& after == before
        &&& mem_after == mem_before
        &&& bus_after == bus_before
        &&& log_after == log_before
    } else {
        &&& log_after.len() > log_before.len()
        &&& log_after[log_before.len() as int] == rd(mem_before, before.regs.pc)
        &&& match step_spec(before.regs, mem_before) {
            Ok(o) => {
                &&& r == Ok::<u8, CpuError>(o.cycles as u8)
                &&& after == (CpuState {
                    regs: o.regs,
                    cycles: before.cycles.saturating_add(o.cycles as u64),
                    instructions: before.instructions.saturating_add(1),
                    rdy: before.rdy,
                })
                &&& mem_after == o.mem
                &&& bus_after == sat(bus_before, o.cycles)
                &&& extends(log_before, log_after, o.cycles)
                &&& ends_with(log_after, data_tail(decode_spec(mem_before[before.regs.pc as int])->Some_0, before.regs, mem_before))
            },
            Err(e) => {
                &&& r == Err::<u8, CpuError>(e)
                &&& after == before
                &&& mem_after == mem_before
                &&& bus_after == sat(bus_before, 1)
                &&& extends(log_before, log_after, 1)
            },
        }
    }
}

/// `after` and `mem_after` are what one successful `tick` makes of `before` and
/// `mem_before`.
pub open spec fn retires(before: CpuState, mem_before: Seq<u8>, after: CpuState, mem_after: Seq<u8>) -> bool {
    &&& before.rdy
    &&& step_spec(before.regs, mem_before) is Ok
    &&& ({
        let o = step_spec(before.regs, mem_before)->Ok_0;
        &&& after == (CpuState {
            regs: o.regs,
            cycles: before.cycles.saturating_add(o.cycles as u64),
            instructions: before.instructions.saturating_add(1),
            rdy: before.rdy,
        })
        &&& mem_after == o.mem
    })
}

/// A sequence of processor and memory states, each retired from the one before by one
/// successful instruction.
pub open spec fn is_run(trace: Seq<(CpuState, Seq<u8>)>) -> bool {
    &&& trace.len() >= 1
    &&& forall|i: int|
        0 <= i < trace.len() - 1 ==> #[trigger] retires(trace[i].0, trace[i].1, trace[i + 1].0, trace[i + 1].1)
}

/// Before each instruction of `trace` ran, `callback` was shown its opcode and the
/// processor (`asked`) and answered true.
pub open spec fn accepted_each<F: Fn(u8, MCS6502) -> bool>(
    callback: F,
    trace: Seq<(CpuState, Seq<u8>)>,
    asked: Seq<MCS6502>,
) -> bool {
    &&& asked.len() == trace.len() - 1
    &&& forall|i: int|
        0 <= i < asked.len() ==> (#[trigger] asked[i])@ == trace[i].0 && callback.ensures(
            (trace[i].1[trace[i].0.regs.pc as int], asked[i]),
            true,
        )
}

/// The fatal report for an opcode without documented behaviour: the opcode and the
/// registers at its fetch.
fn illegal(cpu: &MCS6502, opcode: u8) -> (r: CpuError)
    ensures
        r == (CpuError::IllegalOpcode { opcode, regs: cpu@.regs }),
{
    CpuError::IllegalOpcode { opcode, regs: cpu.regs() }
}

impl MCS6502 {
    /// Runs one whole instruction and returns the cycles it consumed; returns 0 without
    /// touching anything while the ready line is low.
    pub fn tick(&mut self, mem: &mut Memory) -> (r: Result<u8, CpuError>)
        ensures
            tick_spec(
                old(self)@,
                final(self)@,
                old(mem)@,
                final(mem)@,
                old(mem).bus_cycles(),
                final(mem).bus_cycles(),
                old(mem).log(),
                final(mem).log(),
                r,
            ),
    {
        if !self.rdy() {
            return Ok(0);
        }
        proof {
            reveal(step_spec);
        }
        let regs = self.regs();
        let opcode = mem.read(regs.pc);
        proof {
            lemma_decode_well_formed(opcode);
        }
        match decode(opcode) {
            None => Err(illegal(self, opcode)),
            Some(i) => {
                if is_decimal_arith_instr(i) && self.tst_psr_bit(psr::D) {
                    Err(CpuError::DecimalModeUnsupported { opcode, regs })
                } else {
                    let cycles = execute(self, mem, i);
                    self.retire(cycles);
                    Ok(cycles)
                }
            },
        }
    }

    /// Loads the program counter from the reset vector at 0xFFFC/0xFFFD, read in two bus
    /// cycles.
    pub fn reset_pc(&mut self, mem: &mut Memory)
        ensures
            final(self)@ == with_regs(old(self)@, Regs { pc: word(old(mem)@[0xFFFC], old(mem)@[0xFFFD]), ..old(self)@.regs }),
            final(mem)@ == old(mem)@,
            final(mem).bus_cycles() == sat(old(mem).bus_cycles(), 2),
            extends(old(mem).log(), final(mem).log(), 2),
    {
        let lo = mem.read(0xFFFC);
        let hi = mem.read(0xFFFD);
        self.set_pc(lo, hi);
    }

    /// Fetches and executes instructions until `callback`, shown each opcode and the
    /// processor before it runs, answers false. Also stops when the ready line is low,
    /// when the instruction counter is exhausted, or on the first failing instruction,
    /// which is left unexecuted.
    pub fn fetch_decode_execute<F: Fn(u8, MCS6502) -> bool>(
        &mut self,
        mem: &mut Memory,
        callback: F,
    ) -> (r: Result<(), CpuError>)
        requires
            forall|opc: u8, cpu: MCS6502| callback.requires((opc, cpu)),
        ensures
            r is Ok ==> !final(self)@.rdy || final(self)@.instructions == u64::MAX
                || callback.ensures((final(mem)@[final(self)@.regs.pc as int], *final(self)), false),
            r matches Err(e) ==> step_spec(final(self)@.regs, final(mem)@) == Err::<Outcome, CpuError>(e),
            exists|trace: Seq<(CpuState, Seq<u8>)>, asked: Seq<MCS6502>|
                is_run(trace) && trace[0] == (old(self)@, old(mem)@) && trace.last() == (
                final(self)@,
                final(mem)@,
            ) && #[trigger] accepted_each(callback, trace, asked),
    {
        let ghost mut trace: Seq<(CpuState, Seq<u8>)> = seq![(self@, mem@)];
        let ghost mut asked: Seq<MCS6502> = Seq::empty();
        proof {
            reveal(step_spec);
        }
        loop
            invariant
                forall|opc: u8, cpu: MCS6502| callback.requires((opc, cpu)),
                self@.instructions >= old(self)@.instructions,
                is_run(trace),
                trace[0] == (old(self)@, old(mem)@),
                trace.last() == (self@, mem@),
                accepted_each(callback, trace, asked),
            decreases u64::MAX - self@.instructions,
        {
            if !self.rdy() || self.instructions() == u64::MAX {
                return Ok(());
            }
            let opc = mem.get(self.regs().pc);
            let snapshot = *self;
            if !callback(opc, snapshot) {
                return Ok(());
            }
            let ghost prev = self@;
            let ghost prev_mem = mem@;
            match self.tick(mem) {
                Err(e) => {
                    return Err(e);
                },
                Ok(_) => {
                    assert(retires(prev, prev_mem, self@, mem@));
                    proof {
                        let t = trace.push((self@, mem@));
                        assert forall|i: int| 0 <= i < t.len() - 1 implies #[trigger] retires(
                            t[i].0,
                            t[i].1,
                            t[i + 1].0,
                            t[i + 1].1,
                        ) by {
                            if i < trace.len() - 1 {
                                assert(t[i] == trace[i] && t[i + 1] == trace[i + 1]);
                            }
                        }
                        let a = asked.push(snapshot);
                        assert forall|i: int| 0 <= i < a.len() implies (#[trigger] a[i])@ == t[i].0
                            && callback.ensures((t[i].1[t[i].0.regs.pc as int], a[i]), true) by {
                            if i < asked.len() {
                                assert(a[i] == asked[i] && t[i] == trace[i]);
                            } else {
                                assert(t[i] == trace.last());
                            }
                        }
                        trace = t;
                        asked = a;
                    }
                },
            }
        }
    }
}

} // verus!
