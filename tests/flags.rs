use rustella::cpu::MCS6502;
use rustella::engine::{reg_PSR, set_reg_PSR};
use rustella::psr::{self, clr_bit, set_bit, tst_bit};

#[test]
fn test_tst_bit() {
    let bits: u8 = psr::B | psr::C;
    assert!(tst_bit(bits, psr::B));
    assert!(!tst_bit(bits, psr::V));
}

#[test]
fn test_set_bit() {
    let mut bits: u8 = !psr::ALL;
    set_bit(&mut bits, psr::B);

    assert!(tst_bit(bits, psr::B));
}

#[test]
fn test_clr_bit() {
    let mut bits: u8 = psr::ALL;
    clr_bit(&mut bits, psr::B);

    assert!(!tst_bit(bits, psr::B));
}

#[test]
fn put_flag_sets_and_clears_one_bit() {
    assert_eq!(psr::put_flag(0x00, psr::V, true), 0x40);
    assert_eq!(psr::put_flag(0xFF, psr::V, false), 0xBF);
}

#[test]
fn reg_psr_sets_the_stack_only_bits() {
    for psr_value in [0b0000_0000u8, 0b1010_0010, 0b0101_1001, 0b1111_1111] {
        let mut cpu = MCS6502::new(0, 0);
        cpu.set_p(psr_value);
        let stack_psr = reg_PSR(&cpu);
        assert_eq!(stack_psr & 0b1100_1111, psr_value & 0b1100_1111);
        assert!(tst_bit(stack_psr, 0x30));
    }
}

#[test]
fn set_reg_psr_drops_the_stack_only_bits() {
    for psr_value in [0b1111_1111u8, 0b1110_0000, 0b1101_0100, 0b0100_0011] {
        let mut cpu = MCS6502::new(0, 0);
        set_reg_PSR(&mut cpu, psr_value);
        assert_eq!(cpu.p() & 0b0011_0000, 0);
        assert!(tst_bit(cpu.p(), psr_value & 0b1100_1111));
    }
}
