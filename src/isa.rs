//! The instruction set: one behaviour per documented opcode.
use vstd::prelude::*;

use crate::psr;

verus! {

/// How an instruction finds its operand.
#[derive(Clone, Copy, Debug, PartialEq, Eq, Structural)]
pub enum Mode {
    /// The accumulator itself (shifts and rotates).
    Accumulator,
    /// The byte after the opcode.
    Immediate,
    /// An address in page zero.
    ZeroPage,
    /// A page-zero address plus X, wrapping within page zero.
    ZeroPageX,
    /// A page-zero address plus Y, wrapping within page zero.
    ZeroPageY,
    /// A full 16-bit address.
    Absolute,
    /// A 16-bit address plus X.
    AbsoluteX,
    /// A 16-bit address plus Y.
    AbsoluteY,
    /// `(zp,X)`: the pointer in page zero at operand plus X.
    IndirectX,
    /// `(zp),Y`: the pointer in page zero at operand, plus Y.
    IndirectY,
}

/// Operations that consume one operand byte.
#[derive(Clone, Copy, Debug, PartialEq, Eq, Structural)]
pub enum ReadOp {
    Lda,
    Ldx,
    Ldy,
    And,
    Ora,
    Eor,
    Adc,
    Sbc,
    Cmp,
    Cpx,
    Cpy,
    Bit,
}

/// Operations that read a byte, change it and write it back.
#[derive(Clone, Copy, Debug, PartialEq, Eq, Structural)]
pub enum ModifyOp {
    Asl,
    Lsr,
    Rol,
    Ror,
    Inc,
    Dec,
}

/// Single-byte operations on registers and flags.
#[derive(Clone, Copy, Debug, PartialEq, Eq, Structural)]
pub enum ImpliedOp {
    Clc,
    Sec,
    Cli,
    Sei,
    Clv,
    Cld,
    Sed,
    Inx,
    Iny,
    Dex,
    Dey,
    Tax,
    Tay,
    Txa,
    Tya,
    Tsx,
    Txs,
    Nop,
}

/// A register that a store writes out.
#[derive(Clone, Copy, Debug, PartialEq, Eq, Structural)]
pub enum Reg {
    A,
    X,
    Y,
}

/// The behaviour of one opcode.
#[allow(inconsistent_fields)]
#[derive(Clone, Copy, Debug, PartialEq, Eq, Structural)]
pub enum Instr {
    Read { op: ReadOp, mode: Mode },
    Store { reg: Reg, mode: Mode },
    Modify { op: ModifyOp, mode: Mode },
    Implied { op: ImpliedOp },
    /// Taken when the flag `flag` is set exactly when `set` is.
    Branch { flag: u8, set: bool },
    /// JMP, absolute or through a pointer.
    Jump { indirect: bool },
    /// JSR.
    CallSubroutine,
    /// RTS.
    ReturnFromSubroutine,
    /// RTI.
    ReturnFromInterrupt,
    /// BRK.
    Break,
    /// PHA, or PHP when `flags`.
    Push { flags: bool },
    /// PLA, or PLP when `flags`.
    Pull { flags: bool },
}

/// Operand modes that each kind of instruction can have.
pub open spec fn well_formed(i: Instr) -> bool {
    match i {
        Instr::Read { mode, .. } => mode != Mode::Accumulator,
        Instr::Store { mode, .. } => mode != Mode::Accumulator && mode != Mode::Immediate,
        Instr::Modify { mode, .. } => mode == Mode::Accumulator || mode == Mode::ZeroPage || mode
            == Mode::ZeroPageX || mode == Mode::Absolute || mode == Mode::AbsoluteX,
        _ => true,
    }
}

/// Every entry of the table pairs its operation with a mode it can have.
pub proof fn lemma_decode_well_formed(opc: u8)
    ensures
        decode_spec(opc) matches Some(i) ==> well_formed(i),
{
    reveal(decode_spec);
}

/// The behaviour of each documented opcode; `None` for the others.
#[verifier::opaque]
pub open spec fn decode_spec(opc: u8) -> Option<Instr> {
    match opc {
        0x00 => Some(Instr::Break),
        0x01 => Some(Instr::Read { op: ReadOp::Ora, mode: Mode::IndirectX }),
        0x05 => Some(Instr::Read { op: ReadOp::Ora, mode: Mode::ZeroPage }),
        0x06 => Some(Instr::Modify { op: ModifyOp::Asl, mode: Mode::ZeroPage }),
        0x08 => Some(Instr::Push { flags: true }),
        0x09 => Some(Instr::Read { op: ReadOp::Ora, mode: Mode::Immediate }),
        0x0A => Some(Instr::Modify { op: ModifyOp::Asl, mode: Mode::Accumulator }),
        0x0D => Some(Instr::Read { op: ReadOp::Ora, mode: Mode::Absolute }),
        0x0E => Some(Instr::Modify { op: ModifyOp::Asl, mode: Mode::Absolute }),
        0x10 => Some(Instr::Branch { flag: psr::N, set: false }),
        0x11 => Some(Instr::Read { op: ReadOp::Ora, mode: Mode::IndirectY }),
        0x15 => Some(Instr::Read { op: ReadOp::Ora, mode: Mode::ZeroPageX }),
        0x16 => Some(Instr::Modify { op: ModifyOp::Asl, mode: Mode::ZeroPageX }),
        0x18 => Some(Instr::Implied { op: ImpliedOp::Clc }),
        0x19 => Some(Instr::Read { op: ReadOp::Ora, mode: Mode::AbsoluteY }),
        0x1D => Some(Instr::Read { op: ReadOp::Ora, mode: Mode::AbsoluteX }),
        0x1E => Some(Instr::Modify { op: ModifyOp::Asl, mode: Mode::AbsoluteX }),
        0x20 => Some(Instr::CallSubroutine),
        0x21 => Some(Instr::Read { op: ReadOp::And, mode: Mode::IndirectX }),
        0x24 => Some(Instr::Read { op: ReadOp::Bit, mode: Mode::ZeroPage }),
        0x25 => Some(Instr::Read { op: ReadOp::And, mode: Mode::ZeroPage }),
        0x26 => Some(Instr::Modify { op: ModifyOp::Rol, mode: Mode::ZeroPage }),
        0x28 => Some(Instr::Pull { flags: true }),
        0x29 => Some(Instr::Read { op: ReadOp::And, mode: Mode::Immediate }),
        0x2A => Some(Instr::Modify { op: ModifyOp::Rol, mode: Mode::Accumulator }),
        0x2C => Some(Instr::Read { op: ReadOp::Bit, mode: Mode::Absolute }),
        0x2D => Some(Instr::Read { op: ReadOp::And, mode: Mode::Absolute }),
        0x2E => Some(Instr::Modify { op: ModifyOp::Rol, mode: Mode::Absolute }),
        0x30 => Some(Instr::Branch { flag: psr::N, set: true }),
        0x31 => Some(Instr::Read { op: ReadOp::And, mode: Mode::IndirectY }),
        0x35 => Some(Instr::Read { op: ReadOp::And, mode: Mode::ZeroPageX }),
        0x36 => Some(Instr::Modify { op: ModifyOp::Rol, mode: Mode::ZeroPageX }),
        0x38 => Some(Instr::Implied { op: ImpliedOp::Sec }),
        0x39 => Some(Instr::Read { op: ReadOp::And, mode: Mode::AbsoluteY }),
        0x3D => Some(Instr::Read { op: ReadOp::And, mode: Mode::AbsoluteX }),
        0x3E => Some(Instr::Modify { op: ModifyOp::Rol, mode: Mode::AbsoluteX }),
        0x40 => Some(Instr::ReturnFromInterrupt),
        0x41 => Some(Instr::Read { op: ReadOp::Eor, mode: Mode::IndirectX }),
        0x45 => Some(Instr::Read { op: ReadOp::Eor, mode: Mode::ZeroPage }),
        0x46 => Some(Instr::Modify { op: ModifyOp::Lsr, mode: Mode::ZeroPage }),
        0x48 => Some(Instr::Push { flags: false }),
        0x49 => Some(Instr::Read { op: ReadOp::Eor, mode: Mode::Immediate }),
        0x4A => Some(Instr::Modify { op: ModifyOp::Lsr, mode: Mode::Accumulator }),
        0x4C => Some(Instr::Jump { indirect: false }),
        0x4D => Some(Instr::Read { op: ReadOp::Eor, mode: Mode::Absolute }),
        0x4E => Some(Instr::Modify { op: ModifyOp::Lsr, mode: Mode::Absolute }),
        0x50 => Some(Instr::Branch { flag: psr::V, set: false }),
        0x51 => Some(Instr::Read { op: ReadOp::Eor, mode: Mode::IndirectY }),
        0x55 => Some(Instr::Read { op: ReadOp::Eor, mode: Mode::ZeroPageX }),
        0x56 => Some(Instr::Modify { op: ModifyOp::Lsr, mode: Mode::ZeroPageX }),
        0x58 => Some(Instr::Implied { op: ImpliedOp::Cli }),
        0x59 => Some(Instr::Read { op: ReadOp::Eor, mode: Mode::AbsoluteY }),
        0x5D => Some(Instr::Read { op: ReadOp::Eor, mode: Mode::AbsoluteX }),
        0x5E => Some(Instr::Modify { op: ModifyOp::Lsr, mode: Mode::AbsoluteX }),
        0x60 => Some(Instr::ReturnFromSubroutine),
        0x61 => Some(Instr::Read { op: ReadOp::Adc, mode: Mode::IndirectX }),
        0x65 => Some(Instr::Read { op: ReadOp::Adc, mode: Mode::ZeroPage }),
        0x66 => Some(Instr::Modify { op: ModifyOp::Ror, mode: Mode::ZeroPage }),
        0x68 => Some(Instr::Pull { flags: false }),
        0x69 => Some(Instr::Read { op: ReadOp::Adc, mode: Mode::Immediate }),
        0x6A => Some(Instr::Modify { op: ModifyOp::Ror, mode: Mode::Accumulator }),
        0x6C => Some(Instr::Jump { indirect: true }),
        0x6D => Some(Instr::Read { op: ReadOp::Adc, mode: Mode::Absolute }),
        0x6E => Some(Instr::Modify { op: ModifyOp::Ror, mode: Mode::Absolute }),
        0x70 => Some(Instr::Branch { flag: psr::V, set: true }),
        0x71 => Some(Instr::Read { op: ReadOp::Adc, mode: Mode::IndirectY }),
        0x75 => Some(Instr::Read { op: ReadOp::Adc, mode: Mode::ZeroPageX }),
        0x76 => Some(Instr::Modify { op: ModifyOp::Ror, mode: Mode::ZeroPageX }),
        0x78 => Some(Instr::Implied { op: ImpliedOp::Sei }),
        0x79 => Some(Instr::Read { op: ReadOp::Adc, mode: Mode::AbsoluteY }),
        0x7D => Some(Instr::Read { op: ReadOp::Adc, mode: Mode::AbsoluteX }),
        0x7E => Some(Instr::Modify { op: ModifyOp::Ror, mode: Mode::AbsoluteX }),
        0x81 => Some(Instr::Store { reg: Reg::A, mode: Mode::IndirectX }),
        0x84 => Some(Instr::Store { reg: Reg::Y, mode: Mode::ZeroPage }),
        0x85 => Some(Instr::Store { reg: Reg::A, mode: Mode::ZeroPage }),
        0x86 => Some(Instr::Store { reg: Reg::X, mode: Mode::ZeroPage }),
        0x88 => Some(Instr::Implied { op: ImpliedOp::Dey }),
        0x8A => Some(Instr::Implied { op: ImpliedOp::Txa }),
        0x8C => Some(Instr::Store { reg: Reg::Y, mode: Mode::Absolute }),
        0x8D => Some(Instr::Store { reg: Reg::A, mode: Mode::Absolute }),
        0x8E => Some(Instr::Store { reg: Reg::X, mode: Mode::Absolute }),
        0x90 => Some(Instr::Branch { flag: psr::C, set: false }),
        0x91 => Some(Instr::Store { reg: Reg::A, mode: Mode::IndirectY }),
        0x94 => Some(Instr::Store { reg: Reg::Y, mode: Mode::ZeroPageX }),
        0x95 => Some(Instr::Store { reg: Reg::A, mode: Mode::ZeroPageX }),
        0x96 => Some(Instr::Store { reg: Reg::X, mode: Mode::ZeroPageY }),
        0x98 => Some(Instr::Implied { op: ImpliedOp::Tya }),
        0x99 => Some(Instr::Store { reg: Reg::A, mode: Mode::AbsoluteY }),
        0x9A => Some(Instr::Implied { op: ImpliedOp::Txs }),
        0x9D => Some(Instr::Store { reg: Reg::A, mode: Mode::AbsoluteX }),
        0xA0 => Some(Instr::Read { op: ReadOp::Ldy, mode: Mode::Immediate }),
        0xA1 => Some(Instr::Read { op: ReadOp::Lda, mode: Mode::IndirectX }),
        0xA2 => Some(Instr::Read { op: ReadOp::Ldx, mode: Mode::Immediate }),
        0xA4 => Some(Instr::Read { op: ReadOp::Ldy, mode: Mode::ZeroPage }),
        0xA5 => Some(Instr::Read { op: ReadOp::Lda, mode: Mode::ZeroPage }),
        0xA6 => Some(Instr::Read { op: ReadOp::Ldx, mode: Mode::ZeroPage }),
        0xA8 => Some(Instr::Implied { op: ImpliedOp::Tay }),
        0xA9 => Some(Instr::Read { op: ReadOp::Lda, mode: Mode::Immediate }),
        0xAA => Some(Instr::Implied { op: ImpliedOp::Tax }),
        0xAC => Some(Instr::Read { op: ReadOp::Ldy, mode: Mode::Absolute }),
        0xAD => Some(Instr::Read { op: ReadOp::Lda, mode: Mode::Absolute }),
        0xAE => Some(Instr::Read { op: ReadOp::Ldx, mode: Mode::Absolute }),
        0xB0 => Some(Instr::Branch { flag: psr::C, set: true }),
        0xB1 => Some(Instr::Read { op: ReadOp::Lda, mode: Mode::IndirectY }),
        0xB4 => Some(Instr::Read { op: ReadOp::Ldy, mode: Mode::ZeroPageX }),
        0xB5 => Some(Instr::Read { op: ReadOp::Lda, mode: Mode::ZeroPageX }),
        0xB6 => Some(Instr::Read { op: ReadOp::Ldx, mode: Mode::ZeroPageY }),
        0xB8 => Some(Instr::Implied { op: ImpliedOp::Clv }),
        0xB9 => Some(Instr::Read { op: ReadOp::Lda, mode: Mode::AbsoluteY }),
        0xBA => Some(Instr::Implied { op: ImpliedOp::Tsx }),
        0xBC => Some(Instr::Read { op: ReadOp::Ldy, mode: Mode::AbsoluteX }),
        0xBD => Some(Instr::Read { op: ReadOp::Lda, mode: Mode::AbsoluteX }),
        0xBE => Some(Instr::Read { op: ReadOp::Ldx, mode: Mode::AbsoluteY }),
        0xC0 => Some(Instr::Read { op: ReadOp::Cpy, mode: Mode::Immediate }),
        0xC1 => Some(Instr::Read { op: ReadOp::Cmp, mode: Mode::IndirectX }),
        0xC4 => Some(Instr::Read { op: ReadOp::Cpy, mode: Mode::ZeroPage }),
        0xC5 => Some(Instr::Read { op: ReadOp::Cmp, mode: Mode::ZeroPage }),
        0xC6 => Some(Instr::Modify { op: ModifyOp::Dec, mode: Mode::ZeroPage }),
        0xC8 => Some(Instr::Implied { op: ImpliedOp::Iny }),
        0xC9 => Some(Instr::Read { op: ReadOp::Cmp, mode: Mode::Immediate }),
        0xCA => Some(Instr::Implied { op: ImpliedOp::Dex }),
        0xCC => Some(Instr::Read { op: ReadOp::Cpy, mode: Mode::Absolute }),
        0xCD => Some(Instr::Read { op: ReadOp::Cmp, mode: Mode::Absolute }),
        0xCE => Some(Instr::Modify { op: ModifyOp::Dec, mode: Mode::Absolute }),
        0xD0 => Some(Instr::Branch { flag: psr::Z, set: false }),
        0xD1 => Some(Instr::Read { op: ReadOp::Cmp, mode: Mode::IndirectY }),
        0xD5 => Some(Instr::Read { op: ReadOp::Cmp, mode: Mode::ZeroPageX }),
        0xD6 => Some(Instr::Modify { op: ModifyOp::Dec, mode: Mode::ZeroPageX }),
        0xD8 => Some(Instr::Implied { op: ImpliedOp::Cld }),
        0xD9 => Some(Instr::Read { op: ReadOp::Cmp, mode: Mode::AbsoluteY }),
        0xDD => Some(Instr::Read { op: ReadOp::Cmp, mode: Mode::AbsoluteX }),
        0xDE => Some(Instr::Modify { op: ModifyOp::Dec, mode: Mode::AbsoluteX }),
        0xE0 => Some(Instr::Read { op: ReadOp::Cpx, mode: Mode::Immediate }),
        0xE1 => Some(Instr::Read { op: ReadOp::Sbc, mode: Mode::IndirectX }),
        0xE4 => Some(Instr::Read { op: ReadOp::Cpx, mode: Mode::ZeroPage }),
        0xE5 => Some(Instr::Read { op: ReadOp::Sbc, mode: Mode::ZeroPage }),
        0xE6 => Some(Instr::Modify { op: ModifyOp::Inc, mode: Mode::ZeroPage }),
        0xE8 => Some(Instr::Implied { op: ImpliedOp::Inx }),
        0xE9 => Some(Instr::Read { op: ReadOp::Sbc, mode: Mode::Immediate }),
        0xEA => Some(Instr::Implied { op: ImpliedOp::Nop }),
        0xEC => Some(Instr::Read { op: ReadOp::Cpx, mode: Mode::Absolute }),
        0xED => Some(Instr::Read { op: ReadOp::Sbc, mode: Mode::Absolute }),
        0xEE => Some(Instr::Modify { op: ModifyOp::Inc, mode: Mode::Absolute }),
        0xF0 => Some(Instr::Branch { flag: psr::Z, set: true }),
        0xF1 => Some(Instr::Read { op: ReadOp::Sbc, mode: Mode::IndirectY }),
        0xF5 => Some(Instr::Read { op: ReadOp::Sbc, mode: Mode::ZeroPageX }),
        0xF6 => Some(Instr::Modify { op: ModifyOp::Inc, mode: Mode::ZeroPageX }),
        0xF8 => Some(Instr::Implied { op: ImpliedOp::Sed }),
        0xF9 => Some(Instr::Read { op: ReadOp::Sbc, mode: Mode::AbsoluteY }),
        0xFD => Some(Instr::Read { op: ReadOp::Sbc, mode: Mode::AbsoluteX }),
        0xFE => Some(Instr::Modify { op: ModifyOp::Inc, mode: Mode::AbsoluteX }),
        _ => None,
    }
}

/// Looks an opcode up in the instruction table.
pub fn decode(opc: u8) -> (r: Option<Instr>)
    ensures
        r == decode_spec(opc),
{
    proof {
        reveal(decode_spec);
    }
    match opc {
        0x00 => Some(Instr::Break),
        0x01 => Some(Instr::Read { op: ReadOp::Ora, mode: Mode::IndirectX }),
        0x05 => Some(Instr::Read { op: ReadOp::Ora, mode: Mode::ZeroPage }),
        0x06 => Some(Instr::Modify { op: ModifyOp::Asl, mode: Mode::ZeroPage }),
        0x08 => Some(Instr::Push { flags: true }),
        0x09 => Some(Instr::Read { op: ReadOp::Ora, mode: Mode::Immediate }),
        0x0A => Some(Instr::Modify { op: ModifyOp::Asl, mode: Mode::Accumulator }),
        0x0D => Some(Instr::Read { op: ReadOp::Ora, mode: Mode::Absolute }),
        0x0E => Some(Instr::Modify { op: ModifyOp::Asl, mode: Mode::Absolute }),
        0x10 => Some(Instr::Branch { flag: psr::N, set: false }),
        0x11 => Some(Instr::Read { op: ReadOp::Ora, mode: Mode::IndirectY }),
        0x15 => Some(Instr::Read { op: ReadOp::Ora, mode: Mode::ZeroPageX }),
        0x16 => Some(Instr::Modify { op: ModifyOp::Asl, mode: Mode::ZeroPageX }),
        0x18 => Some(Instr::Implied { op: ImpliedOp::Clc }),
        0x19 => Some(Instr::Read { op: ReadOp::Ora, mode: Mode::AbsoluteY }),
        0x1D => Some(Instr::Read { op: ReadOp::Ora, mode: Mode::AbsoluteX }),
        0x1E => Some(Instr::Modify { op: ModifyOp::Asl, mode: Mode::AbsoluteX }),
        0x20 => Some(Instr::CallSubroutine),
        0x21 => Some(Instr::Read { op: ReadOp::And, mode: Mode::IndirectX }),
        0x24 => Some(Instr::Read { op: ReadOp::Bit, mode: Mode::ZeroPage }),
        0x25 => Some(Instr::Read { op: ReadOp::And, mode: Mode::ZeroPage }),
        0x26 => Some(Instr::Modify { op: ModifyOp::Rol, mode: Mode::ZeroPage }),
        0x28 => Some(Instr::Pull { flags: true }),
        0x29 => Some(Instr::Read { op: ReadOp::And, mode: Mode::Immediate }),
        0x2A => Some(Instr::Modify { op: ModifyOp::Rol, mode: Mode::Accumulator }),
        0x2C => Some(Instr::Read { op: ReadOp::Bit, mode: Mode::Absolute }),
        0x2D => Some(Instr::Read { op: ReadOp::And, mode: Mode::Absolute }),
        0x2E => Some(Instr::Modify { op: ModifyOp::Rol, mode: Mode::Absolute }),
        0x30 => Some(Instr::Branch { flag: psr::N, set: true }),
        0x31 => Some(Instr::Read { op: ReadOp::And, mode: Mode::IndirectY }),
        0x35 => Some(Instr::Read { op: ReadOp::And, mode: Mode::ZeroPageX }),
        0x36 => Some(Instr::Modify { op: ModifyOp::Rol, mode: Mode::ZeroPageX }),
        0x38 => Some(Instr::Implied { op: ImpliedOp::Sec }),
        0x39 => Some(Instr::Read { op: ReadOp::And, mode: Mode::AbsoluteY }),
        0x3D => Some(Instr::Read { op: ReadOp::And, mode: Mode::AbsoluteX }),
        0x3E => Some(Instr::Modify { op: ModifyOp::Rol, mode: Mode::AbsoluteX }),
        0x40 => Some(Instr::ReturnFromInterrupt),
        0x41 => Some(Instr::Read { op: ReadOp::Eor, mode: Mode::IndirectX }),
        0x45 => Some(Instr::Read { op: ReadOp::Eor, mode: Mode::ZeroPage }),
        0x46 => Some(Instr::Modify { op: ModifyOp::Lsr, mode: Mode::ZeroPage }),
        0x48 => Some(Instr::Push { flags: false }),
        0x49 => Some(Instr::Read { op: ReadOp::Eor, mode: Mode::Immediate }),
        0x4A => Some(Instr::Modify { op: ModifyOp::Lsr, mode: Mode::Accumulator }),
        0x4C => Some(Instr::Jump { indirect: false }),
        0x4D => Some(Instr::Read { op: ReadOp::Eor, mode: Mode::Absolute }),
        0x4E => Some(Instr::Modify { op: ModifyOp::Lsr, mode: Mode::Absolute }),
        0x50 => Some(Instr::Branch { flag: psr::V, set: false }),
        0x51 => Some(Instr::Read { op: ReadOp::Eor, mode: Mode::IndirectY }),
        0x55 => Some(Instr::Read { op: ReadOp::Eor, mode: Mode::ZeroPageX }),
        0x56 => Some(Instr::Modify { op: ModifyOp::Lsr, mode: Mode::ZeroPageX }),
        0x58 => Some(Instr::Implied { op: ImpliedOp::Cli }),
        0x59 => Some(Instr::Read { op: ReadOp::Eor, mode: Mode::AbsoluteY }),
        0x5D => Some(Instr::Read { op: ReadOp::Eor, mode: Mode::AbsoluteX }),
        0x5E => Some(Instr::Modify { op: ModifyOp::Lsr, mode: Mode::AbsoluteX }),
        0x60 => Some(Instr::ReturnFromSubroutine),
        0x61 => Some(Instr::Read { op: ReadOp::Adc, mode: Mode::IndirectX }),
        0x65 => Some(Instr::Read { op: ReadOp::Adc, mode: Mode::ZeroPage }),
        0x66 => Some(Instr::Modify { op: ModifyOp::Ror, mode: Mode::ZeroPage }),
        0x68 => Some(Instr::Pull { flags: false }),
        0x69 => Some(Instr::Read { op: ReadOp::Adc, mode: Mode::Immediate }),
        0x6A => Some(Instr::Modify { op: ModifyOp::Ror, mode: Mode::Accumulator }),
        0x6C => Some(Instr::Jump { indirect: true }),
        0x6D => Some(Instr::Read { op: ReadOp::Adc, mode: Mode::Absolute }),
        0x6E => Some(Instr::Modify { op: ModifyOp::Ror, mode: Mode::Absolute }),
        0x70 => Some(Instr::Branch { flag: psr::V, set: true }),
        0x71 => Some(Instr::Read { op: ReadOp::Adc, mode: Mode::IndirectY }),
        0x75 => Some(Instr::Read { op: ReadOp::Adc, mode: Mode::ZeroPageX }),
        0x76 => Some(Instr::Modify { op: ModifyOp::Ror, mode: Mode::ZeroPageX }),
        0x78 => Some(Instr::Implied { op: ImpliedOp::Sei }),
        0x79 => Some(Instr::Read { op: ReadOp::Adc, mode: Mode::AbsoluteY }),
        0x7D => Some(Instr::Read { op: ReadOp::Adc, mode: Mode::AbsoluteX }),
        0x7E => Some(Instr::Modify { op: ModifyOp::Ror, mode: Mode::AbsoluteX }),
        0x81 => Some(Instr::Store { reg: Reg::A, mode: Mode::IndirectX }),
        0x84 => Some(Instr::Store { reg: Reg::Y, mode: Mode::ZeroPage }),
        0x85 => Some(Instr::Store { reg: Reg::A, mode: Mode::ZeroPage }),
        0x86 => Some(Instr::Store { reg: Reg::X, mode: Mode::ZeroPage }),
        0x88 => Some(Instr::Implied { op: ImpliedOp::Dey }),
        0x8A => Some(Instr::Implied { op: ImpliedOp::Txa }),
        0x8C => Some(Instr::Store { reg: Reg::Y, mode: Mode::Absolute }),
        0x8D => Some(Instr::Store { reg: Reg::A, mode: Mode::Absolute }),
        0x8E => Some(Instr::Store { reg: Reg::X, mode: Mode::Absolute }),
        0x90 => Some(Instr::Branch { flag: psr::C, set: false }),
        0x91 => Some(Instr::Store { reg: Reg::A, mode: Mode::IndirectY }),
        0x94 => Some(Instr::Store { reg: Reg::Y, mode: Mode::ZeroPageX }),
        0x95 => Some(Instr::Store { reg: Reg::A, mode: Mode::ZeroPageX }),
        0x96 => Some(Instr::Store { reg: Reg::X, mode: Mode::ZeroPageY }),
        0x98 => Some(Instr::Implied { op: ImpliedOp::Tya }),
        0x99 => Some(Instr::Store { reg: Reg::A, mode: Mode::AbsoluteY }),
        0x9A => Some(Instr::Implied { op: ImpliedOp::Txs }),
        0x9D => Some(Instr::Store { reg: Reg::A, mode: Mode::AbsoluteX }),
        0xA0 => Some(Instr::Read { op: ReadOp::Ldy, mode: Mode::Immediate }),
        0xA1 => Some(Instr::Read { op: ReadOp::Lda, mode: Mode::IndirectX }),
        0xA2 => Some(Instr::Read { op: ReadOp::Ldx, mode: Mode::Immediate }),
        0xA4 => Some(Instr::Read { op: ReadOp::Ldy, mode: Mode::ZeroPage }),
        0xA5 => Some(Instr::Read { op: ReadOp::Lda, mode: Mode::ZeroPage }),
        0xA6 => Some(Instr::Read { op: ReadOp::Ldx, mode: Mode::ZeroPage }),
        0xA8 => Some(Instr::Implied { op: ImpliedOp::Tay }),
        0xA9 => Some(Instr::Read { op: ReadOp::Lda, mode: Mode::Immediate }),
        0xAA => Some(Instr::Implied { op: ImpliedOp::Tax }),
        0xAC => Some(Instr::Read { op: ReadOp::Ldy, mode: Mode::Absolute }),
        0xAD => Some(Instr::Read { op: ReadOp::Lda, mode: Mode::Absolute }),
        0xAE => Some(Instr::Read { op: ReadOp::Ldx, mode: Mode::Absolute }),
        0xB0 => Some(Instr::Branch { flag: psr::C, set: true }),
        0xB1 => Some(Instr::Read { op: ReadOp::Lda, mode: Mode::IndirectY }),
        0xB4 => Some(Instr::Read { op: ReadOp::Ldy, mode: Mode::ZeroPageX }),
        0xB5 => Some(Instr::Read { op: ReadOp::Lda, mode: Mode::ZeroPageX }),
        0xB6 => Some(Instr::Read { op: ReadOp::Ldx, mode: Mode::ZeroPageY }),
        0xB8 => Some(Instr::Implied { op: ImpliedOp::Clv }),
        0xB9 => Some(Instr::Read { op: ReadOp::Lda, mode: Mode::AbsoluteY }),
        0xBA => Some(Instr::Implied { op: ImpliedOp::Tsx }),
        0xBC => Some(Instr::Read { op: ReadOp::Ldy, mode: Mode::AbsoluteX }),
        0xBD => Some(Instr::Read { op: ReadOp::Lda, mode: Mode::AbsoluteX }),
        0xBE => Some(Instr::Read { op: ReadOp::Ldx, mode: Mode::AbsoluteY }),
        0xC0 => Some(Instr::Read { op: ReadOp::Cpy, mode: Mode::Immediate }),
        0xC1 => Some(Instr::Read { op: ReadOp::Cmp, mode: Mode::IndirectX }),
        0xC4 => Some(Instr::Read { op: ReadOp::Cpy, mode: Mode::ZeroPage }),
        0xC5 => Some(Instr::Read { op: ReadOp::Cmp, mode: Mode::ZeroPage }),
        0xC6 => Some(Instr::Modify { op: ModifyOp::Dec, mode: Mode::ZeroPage }),
        0xC8 => Some(Instr::Implied { op: ImpliedOp::Iny }),
        0xC9 => Some(Instr::Read { op: ReadOp::Cmp, mode: Mode::Immediate }),
        0xCA => Some(Instr::Implied { op: ImpliedOp::Dex }),
        0xCC => Some(Instr::Read { op: ReadOp::Cpy, mode: Mode::Absolute }),
        0xCD => Some(Instr::Read { op: ReadOp::Cmp, mode: Mode::Absolute }),
        0xCE => Some(Instr::Modify { op: ModifyOp::Dec, mode: Mode::Absolute }),
        0xD0 => Some(Instr::Branch { flag: psr::Z, set: false }),
        0xD1 => Some(Instr::Read { op: ReadOp::Cmp, mode: Mode::IndirectY }),
        0xD5 => Some(Instr::Read { op: ReadOp::Cmp, mode: Mode::ZeroPageX }),
        0xD6 => Some(Instr::Modify { op: ModifyOp::Dec, mode: Mode::ZeroPageX }),
        0xD8 => Some(Instr::Implied { op: ImpliedOp::Cld }),
        0xD9 => Some(Instr::Read { op: ReadOp::Cmp, mode: Mode::AbsoluteY }),
        0xDD => Some(Instr::Read { op: ReadOp::Cmp, mode: Mode::AbsoluteX }),
        0xDE => Some(Instr::Modify { op: ModifyOp::Dec, mode: Mode::AbsoluteX }),
        0xE0 => Some(Instr::Read { op: ReadOp::Cpx, mode: Mode::Immediate }),
        0xE1 => Some(Instr::Read { op: ReadOp::Sbc, mode: Mode::IndirectX }),
        0xE4 => Some(Instr::Read { op: ReadOp::Cpx, mode: Mode::ZeroPage }),
        0xE5 => Some(Instr::Read { op: ReadOp::Sbc, mode: Mode::ZeroPage }),
        0xE6 => Some(Instr::Modify { op: ModifyOp::Inc, mode: Mode::ZeroPage }),
        0xE8 => Some(Instr::Implied { op: ImpliedOp::Inx }),
        0xE9 => Some(Instr::Read { op: ReadOp::Sbc, mode: Mode::Immediate }),
        0xEA => Some(Instr::Implied { op: ImpliedOp::Nop }),
        0xEC => Some(Instr::Read { op: ReadOp::Cpx, mode: Mode::Absolute }),
        0xED => Some(Instr::Read { op: ReadOp::Sbc, mode: Mode::Absolute }),
        0xEE => Some(Instr::Modify { op: ModifyOp::Inc, mode: Mode::Absolute }),
        0xF0 => Some(Instr::Branch { flag: psr::Z, set: true }),
        0xF1 => Some(Instr::Read { op: ReadOp::Sbc, mode: Mode::IndirectY }),
        0xF5 => Some(Instr::Read { op: ReadOp::Sbc, mode: Mode::ZeroPageX }),
        0xF6 => Some(Instr::Modify { op: ModifyOp::Inc, mode: Mode::ZeroPageX }),
        0xF8 => Some(Instr::Implied { op: ImpliedOp::Sed }),
        0xF9 => Some(Instr::Read { op: ReadOp::Sbc, mode: Mode::AbsoluteY }),
        0xFD => Some(Instr::Read { op: ReadOp::Sbc, mode: Mode::AbsoluteX }),
        0xFE => Some(Instr::Modify { op: ModifyOp::Inc, mode: Mode::AbsoluteX }),
        _ => None,
    }
}

} // verus!
