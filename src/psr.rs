//! The processor status register: flag masks and bit helpers.
use vstd::prelude::*;

verus! {

/// Carry.
pub const C: u8 = 0x01;

/// Zero.
pub const Z: u8 = 0x02;

/// Interrupt disable.
pub const I: u8 = 0x04;

/// Decimal mode.
pub const D: u8 = 0x08;

/// Break command; only ever materialised on the stack.
pub const B: u8 = 0x10;

/// The unused bit; only ever materialised on the stack.
pub const U: u8 = 0x20;

/// Overflow.
pub const V: u8 = 0x40;

/// Negative.
pub const N: u8 = 0x80;

/// Every flag that lives in the register itself (all but `B` and `U`).
pub const ALL: u8 = 0xF3;

/// The two bits that are synthesised on push and dropped on pull.
pub const STACK_ONLY: u8 = 0x30;

/// True when every bit of `mask` is set in `bits`.
pub open spec fn has(bits: u8, mask: u8) -> bool {
    bits & mask == mask
}

/// `bits` with the bits of `mask` set or cleared according to `on`.
pub open spec fn with_flag(bits: u8, mask: u8, on: bool) -> u8 {
    if on {
        bits | mask
    } else {
        bits & !mask
    }
}

/// The flag byte that software pushes (BRK, PHP): both stack-only bits forced on.
pub open spec fn pushed(p: u8) -> u8 {
    p | STACK_ONLY
}

/// The flag byte restored by software pulls (PLP, RTI): both stack-only bits dropped.
pub open spec fn pulled(v: u8) -> u8 {
    v & !STACK_ONLY
}

/// Tests whether every bit of `bit` is set in `bits`.
pub fn tst_bit(bits: u8, bit: u8) -> (r: bool)
    ensures
        r == has(bits, bit),
{
    bits & bit == bit
}

/// Sets the bits of `bit` in `bits`.
pub fn set_bit(bits: &mut u8, bit: u8)
    ensures
        *final(bits) == with_flag(*old(bits), bit, true),
{
    *bits = *bits | bit;
}

/// Clears the bits of `bit` in `bits`.
pub fn clr_bit(bits: &mut u8, bit: u8)
    ensures
        *final(bits) == with_flag(*old(bits), bit, false),
{
    *bits = *bits & !bit;
}

/// Sets or clears the bits of `mask` in `bits`.
pub fn put_flag(bits: u8, mask: u8, on: bool) -> (r: u8)
    ensures
        r == with_flag(bits, mask, on),
{
    if on {
        bits | mask
    } else {
        bits & !mask
    }
}

/// Setting or clearing a single-bit flag is seen by a later test of that flag, and
/// leaves every other single-bit flag as it was.
pub proof fn lemma_with_flag(bits: u8, mask: u8, on: bool, other: u8)
    requires
        is_flag(mask),
        is_flag(other),
        other != mask,
    ensures
        has(with_flag(bits, mask, on), mask) == on,
        has(with_flag(bits, mask, on), other) == has(bits, other),
{
    lemma_flag_bits(bits, mask, on, other);
}

/// The eight single-bit masks of the register.
pub open spec fn is_flag(m: u8) -> bool {
    m == C || m == Z || m == I || m == D || m == B || m == U || m == V || m == N
}

proof fn lemma_flag_bits(bits: u8, mask: u8, on: bool, other: u8)
    requires
        mask == 1 || mask == 2 || mask == 4 || mask == 8 || mask == 16 || mask == 32 || mask == 64
            || mask == 128,
        other == 1 || other == 2 || other == 4 || other == 8 || other == 16 || other == 32 || other
            == 64 || other == 128,
        other != mask,
    ensures
        ((bits | mask) & mask == mask),
        ((bits & !mask) & mask == mask) == false,
        ((bits | mask) & other == other) == (bits & other == other),
        ((bits & !mask) & other == other) == (bits & other == other),
{
    assert((bits | mask) & mask == mask) by (bit_vector);
    assert((bits & !mask) & mask != mask) by (bit_vector)
        requires
            mask == 1 || mask == 2 || mask == 4 || mask == 8 || mask == 16 || mask == 32 || mask
                == 64 || mask == 128,
    ;
    assert(((bits | mask) & other == other) == (bits & other == other)) by (bit_vector)
        requires
            mask == 1 || mask == 2 || mask == 4 || mask == 8 || mask == 16 || mask == 32 || mask
                == 64 || mask == 128,
            other == 1 || other == 2 || other == 4 || other == 8 || other == 16 || other == 32
                || other == 64 || other == 128,
            other != mask,
    ;
    assert(((bits & !mask) & other == other) == (bits & other == other)) by (bit_vector)
        requires
            mask == 1 || mask == 2 || mask == 4 || mask == 8 || mask == 16 || mask == 32 || mask
                == 64 || mask == 128,
            other == 1 || other == 2 || other == 4 || other == 8 || other == 16 || other == 32
                || other == 64 || other == 128,
            other != mask,
    ;
}

} // verus!
