use rustella::cpu::{CpuError, MCS6502};
use rustella::memory::Memory;
use rustella::psr;

/// A processor at `at` with the program there, flags clear but the ones given.
fn setup(program: &[u8], at: u16) -> (MCS6502, Memory) {
    let mut mem = Memory::new();
    mem.load(program, at);
    let mut cpu = MCS6502::new((at % 256) as u8, (at / 256) as u8);
    cpu.set_p(0x00);
    cpu.set_s(0xFF);
    (cpu, mem)
}

fn pc16(cpu: &MCS6502) -> u16 {
    let (lo, hi) = cpu.pc();
    lo as u16 + 256 * hi as u16
}

#[test]
fn lda_immediate_sets_negative() {
    let (mut cpu, mut mem) = setup(&[0xA9, 0x80], 0x0400);
    assert_eq!(cpu.tick(&mut mem), Ok(2));
    assert_eq!(cpu.a(), 0x80);
    assert!(cpu.tst_psr_bit(psr::N));
    assert!(!cpu.tst_psr_bit(psr::Z));
    assert_eq!(pc16(&cpu), 0x0402);
    assert_eq!(cpu.cycles(), 2);
    assert_eq!(cpu.instructions(), 1);
}

#[test]
fn indexed_absolute_read_pays_for_page_cross() {
    // LDX #1; LDA $10FF,X; LDA $1000,X
    let (mut cpu, mut mem) = setup(&[0xA2, 0x01, 0xBD, 0xFF, 0x10, 0xBD, 0x00, 0x10], 0x0400);
    mem.set(0x1100, 0x42);
    mem.set(0x1001, 0x17);
    assert_eq!(cpu.tick(&mut mem), Ok(2));
    assert_eq!(cpu.tick(&mut mem), Ok(5));
    assert_eq!(cpu.a(), 0x42);
    assert_eq!(cpu.tick(&mut mem), Ok(4));
    assert_eq!(cpu.a(), 0x17);
    assert_eq!(cpu.cycles(), 11);
}

#[test]
fn post_indexed_indirect_read_pays_for_page_cross() {
    // LDY #1; LDA ($10),Y; LDA ($20),Y
    let (mut cpu, mut mem) = setup(&[0xA0, 0x01, 0xB1, 0x10, 0xB1, 0x20], 0x0400);
    mem.load(&[0xFF, 0x20], 0x0010);
    mem.load(&[0x00, 0x30], 0x0020);
    mem.set(0x2100, 0x99);
    mem.set(0x3001, 0x55);
    assert_eq!(cpu.tick(&mut mem), Ok(2));
    assert_eq!(cpu.tick(&mut mem), Ok(6));
    assert_eq!(cpu.a(), 0x99);
    assert_eq!(cpu.tick(&mut mem), Ok(5));
    assert_eq!(cpu.a(), 0x55);
}

#[test]
fn stores_always_pay_the_index_cycle() {
    // LDA #7; LDX #1; STA $2000,X
    let (mut cpu, mut mem) = setup(&[0xA9, 0x07, 0xA2, 0x01, 0x9D, 0x00, 0x20], 0x0400);
    cpu.tick(&mut mem).unwrap();
    cpu.tick(&mut mem).unwrap();
    assert_eq!(cpu.tick(&mut mem), Ok(5));
    assert_eq!(mem.get(0x2001), 0x07);
}

#[test]
fn branch_cycles() {
    // BNE +2 with Z set: not taken
    let (mut cpu, mut mem) = setup(&[0xD0, 0x02], 0x0400);
    cpu.set_psr_bit(psr::Z);
    assert_eq!(cpu.tick(&mut mem), Ok(2));
    assert_eq!(pc16(&cpu), 0x0402);

    // BNE +2 with Z clear: taken, same page
    let (mut cpu, mut mem) = setup(&[0xD0, 0x02], 0x0400);
    assert_eq!(cpu.tick(&mut mem), Ok(3));
    assert_eq!(pc16(&cpu), 0x0404);

    // BEQ -4 from 0x0500: taken into the previous page
    let (mut cpu, mut mem) = setup(&[0xF0, 0xFC], 0x0500);
    cpu.set_psr_bit(psr::Z);
    assert_eq!(cpu.tick(&mut mem), Ok(4));
    assert_eq!(pc16(&cpu), 0x04FE);
}

#[test]
fn jsr_then_rts_returns_past_the_call() {
    let (mut cpu, mut mem) = setup(&[0x20, 0x00, 0x05], 0x0400);
    mem.set(0x0500, 0x60);
    let s = cpu.s();
    assert_eq!(cpu.tick(&mut mem), Ok(6));
    assert_eq!(pc16(&cpu), 0x0500);
    assert_eq!(cpu.s(), s.wrapping_sub(2));
    assert_eq!(mem.get(0x01FF), 0x04);
    assert_eq!(mem.get(0x01FE), 0x02);
    assert_eq!(cpu.tick(&mut mem), Ok(6));
    assert_eq!(pc16(&cpu), 0x0403);
    assert_eq!(cpu.s(), s);
}

#[test]
fn push_psr_always_keeps_bits_4_and_5_on() {
    for psr_value in [0b0000_0000u8, 0b1010_0010, 0b0101_1001, 0b1111_1111] {
        let (mut cpu, mut mem) = setup(&[0x08], 0x0400);
        cpu.set_p(psr_value);
        assert_eq!(cpu.tick(&mut mem), Ok(3));
        let stacked = mem.get(0x01FF);
        assert_eq!(stacked & 0b1100_1111, psr_value & 0b1100_1111);
        assert_eq!(stacked & 0x30, 0x30);
        assert_eq!(cpu.s(), 0xFE);
    }
}

#[test]
fn pop_psr_always_keep_bits_4_and_5_off() {
    for psr_value in [0b1111_1111u8, 0b1110_0000, 0b1101_0100, 0b0100_0011] {
        let (mut cpu, mut mem) = setup(&[0x28], 0x0400);
        cpu.set_s(0xFE);
        mem.set(0x01FF, psr_value);
        assert_eq!(cpu.tick(&mut mem), Ok(4));
        assert_eq!(cpu.p() & 0x30, 0);
        assert_eq!(cpu.p(), psr_value & 0b1100_1111);
        assert_eq!(cpu.s(), 0xFF);
    }
}

#[test]
fn pla_sets_zero_and_negative() {
    let (mut cpu, mut mem) = setup(&[0x68], 0x0400);
    cpu.set_s(0xFE);
    mem.set(0x01FF, 0x00);
    assert_eq!(cpu.tick(&mut mem), Ok(4));
    assert_eq!(cpu.a(), 0);
    assert!(cpu.tst_psr_bit(psr::Z));
}

#[test]
fn brk_then_rti() {
    let (mut cpu, mut mem) = setup(&[0x00], 0x0400);
    mem.load(&[0x00, 0x06], 0xFFFE);
    mem.set(0x0600, 0x40);
    cpu.set_p(psr::C);
    assert_eq!(cpu.tick(&mut mem), Ok(7));
    assert_eq!(pc16(&cpu), 0x0600);
    assert!(cpu.tst_psr_bit(psr::I));
    assert_eq!(mem.get(0x01FF), 0x04);
    assert_eq!(mem.get(0x01FE), 0x02);
    assert_eq!(mem.get(0x01FD), psr::C | psr::B | psr::U);
    assert_eq!(cpu.s(), 0xFC);
    assert_eq!(cpu.tick(&mut mem), Ok(6));
    assert_eq!(pc16(&cpu), 0x0402);
    assert_eq!(cpu.p(), psr::C);
    assert_eq!(cpu.s(), 0xFF);
}

#[test]
fn jmp_indirect_wraps_within_the_pointer_page() {
    let (mut cpu, mut mem) = setup(&[0x6C, 0xFF, 0x10], 0x0400);
    mem.set(0x10FF, 0x34);
    mem.set(0x1000, 0x12);
    mem.set(0x1100, 0x99);
    assert_eq!(cpu.tick(&mut mem), Ok(5));
    assert_eq!(pc16(&cpu), 0x1234);
}

#[test]
fn read_modify_write_instructions() {
    // INC $10; ASL A; ROR $11
    let (mut cpu, mut mem) = setup(&[0xE6, 0x10, 0x0A, 0x66, 0x11], 0x0400);
    mem.set(0x0010, 0xFF);
    mem.set(0x0011, 0x01);
    cpu.set_a(0x81);
    assert_eq!(cpu.tick(&mut mem), Ok(5));
    assert_eq!(mem.get(0x0010), 0x00);
    assert!(cpu.tst_psr_bit(psr::Z));
    assert_eq!(cpu.tick(&mut mem), Ok(2));
    assert_eq!(cpu.a(), 0x02);
    assert!(cpu.tst_psr_bit(psr::C));
    assert_eq!(cpu.tick(&mut mem), Ok(5));
    assert_eq!(mem.get(0x0011), 0x80);
    assert!(cpu.tst_psr_bit(psr::C));
    assert!(cpu.tst_psr_bit(psr::N));
}

#[test]
fn pre_indexed_indirect_load_and_store() {
    // LDX #4; LDA ($10,X); STA ($12,X)
    let (mut cpu, mut mem) = setup(&[0xA2, 0x04, 0xA1, 0x10, 0x81, 0x12], 0x0400);
    mem.load(&[0x00, 0x30, 0x00, 0x31], 0x0014);
    mem.set(0x3000, 0x5A);
    cpu.tick(&mut mem).unwrap();
    assert_eq!(cpu.tick(&mut mem), Ok(6));
    assert_eq!(cpu.a(), 0x5A);
    assert_eq!(cpu.tick(&mut mem), Ok(6));
    assert_eq!(mem.get(0x3100), 0x5A);
}

#[test]
fn compare_leaves_registers_alone() {
    // CMP #$40; CPX #$20; CPY #$FF
    let (mut cpu, mut mem) = setup(&[0xC9, 0x40, 0xE0, 0x20, 0xC0, 0xFF], 0x0400);
    cpu.set_a(0x40);
    cpu.set_x(0x10);
    cpu.set_y(0xFF);
    assert_eq!(cpu.tick(&mut mem), Ok(2));
    assert!(cpu.tst_psr_bit(psr::Z) && cpu.tst_psr_bit(psr::C));
    assert_eq!(cpu.tick(&mut mem), Ok(2));
    assert!(!cpu.tst_psr_bit(psr::C) && cpu.tst_psr_bit(psr::N));
    assert_eq!(cpu.tick(&mut mem), Ok(2));
    assert_eq!((cpu.a(), cpu.x(), cpu.y()), (0x40, 0x10, 0xFF));
}

#[test]
fn illegal_opcode_is_reported_and_nothing_changes() {
    let (mut cpu, mut mem) = setup(&[0x02], 0x0400);
    let regs = cpu.regs();
    assert_eq!(cpu.tick(&mut mem), Err(CpuError::IllegalOpcode { opcode: 0x02, regs }));
    assert_eq!(cpu.regs(), regs);
    assert_eq!(cpu.cycles(), 0);
    assert_eq!(cpu.instructions(), 0);
    assert_eq!(mem.bus_accesses(), 1);
}

#[test]
fn decimal_mode_adc_is_reported_not_guessed() {
    // SED; ADC #1
    let (mut cpu, mut mem) = setup(&[0xF8, 0x69, 0x01], 0x0400);
    assert_eq!(cpu.tick(&mut mem), Ok(2));
    let regs = cpu.regs();
    assert_eq!(cpu.tick(&mut mem), Err(CpuError::DecimalModeUnsupported { opcode: 0x69, regs }));
    assert_eq!(cpu.regs(), regs);
}

#[test]
fn low_ready_line_stalls_without_cycles() {
    let (mut cpu, mut mem) = setup(&[0xEA], 0x0400);
    cpu.set_rdy(false);
    assert_eq!(cpu.tick(&mut mem), Ok(0));
    assert_eq!(pc16(&cpu), 0x0400);
    assert_eq!(cpu.cycles(), 0);
    assert_eq!(mem.bus_accesses(), 0);
    cpu.set_rdy(true);
    assert_eq!(cpu.tick(&mut mem), Ok(2));
    assert_eq!(pc16(&cpu), 0x0401);
}

#[test]
fn counting_loop_runs_to_completion() {
    // LDX #5; LDA #0; loop: CLC; ADC #3; DEX; BNE loop; STA $0200; BRK
    let program = [
        0xA2, 0x05, 0xA9, 0x00, 0x18, 0x69, 0x03, 0xCA, 0xD0, 0xFA, 0x8D, 0x00, 0x02, 0x00,
    ];
    let (mut cpu, mut mem) = setup(&program, 0x0400);
    let r = cpu.fetch_decode_execute(&mut mem, |opc, _cpu| opc != 0x00);
    assert_eq!(r, Ok(()));
    assert_eq!(mem.get(0x0200), 15);
    assert_eq!(cpu.x(), 0);
    assert_eq!(pc16(&cpu), 0x040D);
    assert_eq!(cpu.instructions(), 2 + 5 * 4 + 1);
    // 2 + 2 + 5 * (2 + 2 + 2) + 4 * 3 + 2 + 4
    assert_eq!(cpu.cycles(), 52);
    assert_eq!(mem.bus_accesses(), 52);
}

#[test]
fn dispatch_loop_stops_on_an_illegal_opcode() {
    let (mut cpu, mut mem) = setup(&[0xEA, 0xFF], 0x0400);
    let r = cpu.fetch_decode_execute(&mut mem, |_opc, _cpu| true);
    assert!(matches!(r, Err(CpuError::IllegalOpcode { opcode: 0xFF, .. })));
    assert_eq!(pc16(&cpu), 0x0401);
}

#[test]
fn reset_loads_the_vector() {
    let mut mem = Memory::new();
    mem.load(&[0x00, 0xF0], 0xFFFC);
    let mut cpu = MCS6502::new(0, 0);
    cpu.reset_pc(&mut mem);
    assert_eq!(cpu.pc(), (0x00, 0xF0));
    assert_eq!(mem.bus_accesses(), 2);
}

#[test]
fn power_up_registers() {
    let mut cpu = MCS6502::new(0x34, 0x12);
    assert_eq!((cpu.a(), cpu.x(), cpu.y(), cpu.s(), cpu.p()), (0xDE, 0xBE, 0xAD, 0xEF, 0x0C));
    assert_eq!(cpu.pc(), (0x34, 0x12));
    cpu.pc_incr(0xD0);
    assert_eq!(cpu.pc(), (0x04, 0x13));
    cpu.set_pc(0xFF, 0xFF);
    cpu.pc_incr(2);
    assert_eq!(cpu.pc(), (0x01, 0x00));
}

#[test]
fn memory_load_wraps_at_the_top() {
    let mut mem = Memory::new();
    mem.load(&[1, 2, 3], 0xFFFF);
    assert_eq!((mem.get(0xFFFF), mem.get(0x0000), mem.get(0x0001)), (1, 2, 3));
    let rom = Memory::new_with_rom(&[9, 8]);
    assert_eq!((rom.get(0), rom.get(1), rom.get(2)), (9, 8, 0));
}

#[test]
fn one_bus_access_per_cycle_in_every_mode() {
    // LDX #1; LDY #1; LDA $10,X; STA $2000,Y; INC $20FF,X; LDA ($30),Y; STA ($40,X);
    // ASL $50; PHA; PLA; JSR $0500 (RTS there); BRK (vector to RTI)
    let program = [
        0xA2, 0x01, 0xA0, 0x01, 0xB5, 0x10, 0x99, 0x00, 0x20, 0xFE, 0xFF, 0x20, 0xB1, 0x30, 0x81, 0x40,
        0x06, 0x50, 0x48, 0x68, 0x20, 0x00, 0x05, 0x00,
    ];
    let (mut cpu, mut mem) = setup(&program, 0x0400);
    mem.load(&[0xFF, 0x21], 0x0030);
    mem.load(&[0x00, 0x22], 0x0041);
    mem.set(0x0500, 0x60);
    mem.set(0x0600, 0x40);
    mem.load(&[0x00, 0x06], 0xFFFE);
    let expected: [u8; 13] = [2, 2, 4, 5, 7, 6, 6, 5, 3, 4, 6, 6, 7];
    for want in expected.iter() {
        let before = mem.bus_accesses();
        assert_eq!(cpu.tick(&mut mem), Ok(*want));
        assert_eq!(mem.bus_accesses() - before, *want as u64);
    }
    // back from the interrupt handler, after the BRK and its padding byte
    let before = mem.bus_accesses();
    assert_eq!(cpu.tick(&mut mem), Ok(6));
    assert_eq!(mem.bus_accesses() - before, 6);
    assert_eq!(pc16(&cpu), 0x0419);
    assert_eq!(mem.get(0x2201), cpu.a());
    assert_eq!(mem.get(0x2100), 1);
}

#[test]
fn stack_pointer_wraps_within_page_one() {
    // PHA with S = 0, then PLA
    let (mut cpu, mut mem) = setup(&[0x48, 0x68], 0x0400);
    cpu.set_s(0x00);
    cpu.set_a(0x77);
    assert_eq!(cpu.tick(&mut mem), Ok(3));
    assert_eq!(mem.get(0x0100), 0x77);
    assert_eq!(cpu.s(), 0xFF);
    cpu.set_a(0x00);
    assert_eq!(cpu.tick(&mut mem), Ok(4));
    assert_eq!(cpu.a(), 0x77);
    assert_eq!(cpu.s(), 0x00);
}

#[test]
fn zero_page_indexing_wraps_within_page_zero() {
    // LDX #2; LDA $FF,X reads $01, not $0101
    let (mut cpu, mut mem) = setup(&[0xA2, 0x02, 0xB5, 0xFF], 0x0400);
    mem.set(0x0001, 0x11);
    mem.set(0x0101, 0x22);
    cpu.tick(&mut mem).unwrap();
    assert_eq!(cpu.tick(&mut mem), Ok(4));
    assert_eq!(cpu.a(), 0x11);
}

#[test]
fn program_counter_wraps_at_the_top() {
    // NOP at 0xFFFF continues at 0x0000
    let (mut cpu, mut mem) = setup(&[0xEA], 0xFFFF);
    assert_eq!(cpu.tick(&mut mem), Ok(2));
    assert_eq!(pc16(&cpu), 0x0000);
}

#[test]
fn transfers_and_flag_instructions() {
    // SEC; SEI; SED; CLD; CLV; TAX; TXS; TSX; TYA; INY; DEX
    let program = [0x38, 0x78, 0xF8, 0xD8, 0xB8, 0xAA, 0x9A, 0xBA, 0x98, 0xC8, 0xCA];
    let (mut cpu, mut mem) = setup(&program, 0x0400);
    cpu.set_a(0x80);
    cpu.set_y(0x05);
    for _ in 0..program.len() {
        assert_eq!(cpu.tick(&mut mem), Ok(2));
    }
    assert!(cpu.tst_psr_bit(psr::C) && cpu.tst_psr_bit(psr::I));
    assert!(!cpu.tst_psr_bit(psr::D) && !cpu.tst_psr_bit(psr::V));
    assert_eq!(cpu.s(), 0x80);
    assert_eq!(cpu.a(), 0x05);
    assert_eq!(cpu.y(), 0x06);
    assert_eq!(cpu.x(), 0x7F);
    assert!(!cpu.tst_psr_bit(psr::N) && !cpu.tst_psr_bit(psr::Z));
}
