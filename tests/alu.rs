use rustella::alu::{
    rol_core, ror_core, safe_sub_checked, shift_ops_sync_pcr_c_lsb, shift_ops_sync_pcr_c_msb,
    sync_pcr_n, sync_pcr_z, DecimalModeUnsupported, ADC_core, BIT_core, CMP_core, SBC_core,
};
use rustella::cpu::MCS6502;
use rustella::psr;

fn cpu_with(carry: bool, a: u8) -> MCS6502 {
    let mut cpu = MCS6502::new(0, 0);
    cpu.clr_psr_bit(psr::D);
    if carry {
        cpu.set_psr_bit(psr::C)
    } else {
        cpu.clr_psr_bit(psr::C)
    }
    cpu.set_a(a);
    cpu
}

fn flags(cpu: &MCS6502) -> (bool, bool, bool, bool) {
    (
        cpu.tst_psr_bit(psr::N),
        cpu.tst_psr_bit(psr::V),
        cpu.tst_psr_bit(psr::Z),
        cpu.tst_psr_bit(psr::C),
    )
}

#[test]
fn test_safe_sub() {
    assert_eq!(safe_sub_checked(0x10, 0x10), (0x00, false));
    assert_eq!(safe_sub_checked(0x00, 0x01), (0xFF, true));
    assert_eq!(safe_sub_checked(0x10, 0x20), (0xF0, true));
}

#[test]
fn test_binary_adc() {
    //   C     n1    n2    res   N      V      Z      C
    let cases: [(bool, u8, u8, u8, bool, bool, bool, bool); 14] = [
        (false, 0x00, 0x00, 0x00, false, false, true, false),
        (true, 0x01, 0x01, 0x03, false, false, false, false),
        (false, 0x01, 0x02, 0x03, false, false, false, false),
        (false, 0x64, 0xE8, 0x4C, false, false, false, true),
        (false, 0x40, 0x80, 0xC0, true, false, false, false),
        (true, 0xD0, 0x8F, 0x60, false, true, false, true),
        (false, 0x50, 0x10, 0x60, false, false, false, false),
        (false, 0x50, 0x50, 0xA0, true, true, false, false),
        (false, 0x50, 0x90, 0xE0, true, false, false, false),
        (false, 0x50, 0xD0, 0x20, false, false, false, true),
        (false, 0xD0, 0x10, 0xE0, true, false, false, false),
        (false, 0xD0, 0x50, 0x20, false, false, false, true),
        (false, 0xD0, 0x90, 0x60, false, true, false, true),
        (false, 0xD0, 0xD0, 0xA0, true, false, false, true),
    ];
    for (carry, v1, v2, exp, n, v, z, c) in cases {
        let mut cpu = cpu_with(carry, v1);
        assert_eq!(ADC_core(&mut cpu, v2), Ok(()));
        assert_eq!(cpu.a(), exp);
        assert_eq!(flags(&cpu), (n, v, z, c), "ADC {v1:02X} + {v2:02X} + {carry}");
    }
}

#[test]
fn adc_overflow_counts_the_carry_in() {
    // 63 + 64 + 1 = 128 leaves the signed range.
    let mut cpu = cpu_with(true, 0x3F);
    assert_eq!(ADC_core(&mut cpu, 0x40), Ok(()));
    assert_eq!(cpu.a(), 0x80);
    assert_eq!(flags(&cpu), (true, true, false, false));
}

#[test]
fn test_binary_sbc() {
    //   C     n1    n2    res   N      V      Z      C
    let cases: [(bool, u8, u8, u8, bool, bool, bool, bool); 9] = [
        (true, 0x00, 0x00, 0x00, false, false, true, true),
        (true, 0x50, 0xF0, 0x60, false, false, false, false),
        (true, 0x50, 0xB0, 0xA0, true, true, false, false),
        (true, 0x50, 0x70, 0xE0, true, false, false, false),
        (true, 0x50, 0x30, 0x20, false, false, false, true),
        (true, 0xD0, 0xF0, 0xE0, true, false, false, false),
        (true, 0xD0, 0xB0, 0x20, false, false, false, true),
        (true, 0xD0, 0x70, 0x60, false, true, false, true),
        (true, 0xD0, 0x30, 0xA0, true, false, false, true),
    ];
    for (carry, v1, v2, exp, n, v, z, c) in cases {
        let mut cpu = cpu_with(carry, v1);
        assert_eq!(SBC_core(&mut cpu, v2), Ok(()));
        assert_eq!(cpu.a(), exp);
        assert_eq!(flags(&cpu), (n, v, z, c), "SBC {v1:02X} - {v2:02X}");
    }
}

#[test]
fn decimal_mode_arithmetic_is_refused() {
    let mut cpu = cpu_with(false, 0x15);
    cpu.set_psr_bit(psr::D);
    let before = cpu.p();
    assert_eq!(ADC_core(&mut cpu, 0x27), Err(DecimalModeUnsupported));
    assert_eq!(SBC_core(&mut cpu, 0x27), Err(DecimalModeUnsupported));
    assert_eq!(cpu.a(), 0x15);
    assert_eq!(cpu.p(), before);
}

#[test]
fn compare_sets_flags_only() {
    let mut cpu = cpu_with(false, 0x40);
    cpu.set_x(0x10);
    cpu.set_y(0x90);
    CMP_core(&mut cpu, 0x40, 0x40);
    assert_eq!(flags(&cpu).2, true);
    assert_eq!(flags(&cpu).3, true);
    CMP_core(&mut cpu, 0x10, 0x20);
    assert_eq!(flags(&cpu), (true, false, false, false));
    assert_eq!((cpu.a(), cpu.x(), cpu.y()), (0x40, 0x10, 0x90));
}

#[test]
fn bit_copies_bits_seven_and_six() {
    let mut cpu = cpu_with(false, 0x01);
    BIT_core(&mut cpu, 0xC0);
    assert_eq!(flags(&cpu), (true, true, true, false));
    BIT_core(&mut cpu, 0x01);
    assert_eq!(flags(&cpu), (false, false, false, false));
    assert_eq!(cpu.a(), 0x01);
}

#[test]
fn rotates_fold_in_the_carry() {
    let cpu = cpu_with(true, 0);
    assert_eq!(ror_core(&cpu, 0x02), 0x81);
    assert_eq!(rol_core(&cpu, 0x80), 0x01);
    let cpu = cpu_with(false, 0);
    assert_eq!(ror_core(&cpu, 0x03), 0x01);
    assert_eq!(rol_core(&cpu, 0xC1), 0x82);
}

#[test]
fn flag_sync_helpers() {
    let mut cpu = cpu_with(false, 0);
    sync_pcr_n(&mut cpu, 0x80);
    sync_pcr_z(&mut cpu, 0x00);
    shift_ops_sync_pcr_c_lsb(&mut cpu, 0x01);
    assert_eq!(flags(&cpu), (true, false, true, true));
    shift_ops_sync_pcr_c_msb(&mut cpu, 0x7F);
    sync_pcr_n(&mut cpu, 0x7F);
    sync_pcr_z(&mut cpu, 0x7F);
    assert_eq!(flags(&cpu), (false, false, false, false));
}
