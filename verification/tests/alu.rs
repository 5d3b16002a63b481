//! Arithmetic, logic, shift and compare semantics, checked against the
//! documented flag formulas on concrete values.

use rusty_nes::config::Emulator;
use rusty_nes::cpu::instructions;

fn fresh() -> Emulator {
    Emulator::default()
}

/// The flags ADC must produce for `a + m + c`, straight from the
/// documented formulas.
fn adc_expected(a: u8, m: u8, c: bool) -> (u8, bool, bool, bool, bool) {
    let total: u16 = a as u16 + m as u16 + c as u16;
    let result = (total & 0xff) as u8;
    let carry = total > 0xff;
    let zero = total & 0xff == 0;
    let overflow = ((a as u16 ^ total) & (m as u16 ^ total) & 0x80) == 0x80;
    let negative = total & 0x80 == 0x80;
    (result, carry, zero, overflow, negative)
}

#[test]
fn adc_flag_grid() {
    let interesting = [0x00u8, 0x7f, 0x80, 0xff];
    for &a in &interesting {
        for &m in &interesting {
            for &c in &[false, true] {
                let mut emu = fresh();
                emu.cpu.registers.a = a;
                emu.cpu.registers.status.c = c;
                instructions::adc(&mut emu, m);
                let (result, carry, zero, overflow, negative) = adc_expected(a, m, c);
                assert_eq!(emu.cpu.registers.a, result, "a={a:#x} m={m:#x} c={c}");
                assert_eq!(emu.cpu.registers.status.c, carry);
                assert_eq!(emu.cpu.registers.status.z, zero);
                assert_eq!(emu.cpu.registers.status.v, overflow);
                assert_eq!(emu.cpu.registers.status.n, negative);
            }
        }
    }
}

#[test]
fn sbc_flag_grid() {
    let interesting = [0x00u8, 0x7f, 0x80, 0xff];
    for &a in &interesting {
        for &m in &interesting {
            for &c in &[false, true] {
                let mut emu = fresh();
                emu.cpu.registers.a = a;
                emu.cpu.registers.status.c = c;
                instructions::sbc(&mut emu, m);
                // SBC is ADC of the complemented operand.
                let (result, carry, zero, overflow, negative) = adc_expected(a, m ^ 0xff, c);
                assert_eq!(emu.cpu.registers.a, result, "a={a:#x} m={m:#x} c={c}");
                assert_eq!(emu.cpu.registers.status.c, carry);
                assert_eq!(emu.cpu.registers.status.z, zero);
                assert_eq!(emu.cpu.registers.status.v, overflow);
                assert_eq!(emu.cpu.registers.status.n, negative);
            }
        }
    }
}

#[test]
fn adc_classic_signed_overflow() {
    // 0x50 + 0x50 overflows signed: A' = 0xA0, N and V set, C and Z clear.
    let mut emu = fresh();
    emu.cpu.registers.a = 0x50;
    instructions::adc(&mut emu, 0x50);
    assert_eq!(emu.cpu.registers.a, 0xa0);
    assert!(emu.cpu.registers.status.n);
    assert!(emu.cpu.registers.status.v);
    assert!(!emu.cpu.registers.status.c);
    assert!(!emu.cpu.registers.status.z);
}

#[test]
fn logic_ops_set_zero_and_negative() {
    let mut emu = fresh();
    emu.cpu.registers.a = 0b1100_0011;
    instructions::and(&mut emu, 0b1000_0001);
    assert_eq!(emu.cpu.registers.a, 0b1000_0001);
    assert!(emu.cpu.registers.status.n);
    assert!(!emu.cpu.registers.status.z);

    let mut emu = fresh();
    emu.cpu.registers.a = 0x0f;
    instructions::and(&mut emu, 0xf0);
    assert_eq!(emu.cpu.registers.a, 0);
    assert!(emu.cpu.registers.status.z);

    let mut emu = fresh();
    emu.cpu.registers.a = 0x0f;
    instructions::ora(&mut emu, 0x80);
    assert_eq!(emu.cpu.registers.a, 0x8f);
    assert!(emu.cpu.registers.status.n);

    let mut emu = fresh();
    emu.cpu.registers.a = 0xff;
    instructions::eor(&mut emu, 0xff);
    assert_eq!(emu.cpu.registers.a, 0);
    assert!(emu.cpu.registers.status.z);
}

#[test]
fn shifts_move_bits_through_carry() {
    let mut emu = fresh();
    let r = instructions::asl(&mut emu, 0b1000_0001);
    assert_eq!(r, 0b0000_0010);
    assert!(emu.cpu.registers.status.c);

    let r = instructions::lsr(&mut emu, 0b0000_0011);
    assert_eq!(r, 0b0000_0001);
    assert!(emu.cpu.registers.status.c);

    // ROL folds the old carry into bit 0.
    emu.cpu.registers.status.c = true;
    let r = instructions::rol(&mut emu, 0b0100_0000);
    assert_eq!(r, 0b1000_0001);
    assert!(!emu.cpu.registers.status.c);
    assert!(emu.cpu.registers.status.n);

    // ROR folds the old carry into bit 7.
    emu.cpu.registers.status.c = true;
    let r = instructions::ror(&mut emu, 0b0000_0010);
    assert_eq!(r, 0b1000_0001);
    assert!(!emu.cpu.registers.status.c);
}

#[test]
fn bit_test_reads_result_bits() {
    let mut emu = fresh();
    emu.cpu.registers.a = 0xc0;
    instructions::bit_test(&mut emu, 0xc0);
    assert!(!emu.cpu.registers.status.z);
    assert!(emu.cpu.registers.status.v);
    assert!(emu.cpu.registers.status.n);

    let mut emu = fresh();
    emu.cpu.registers.a = 0x0f;
    instructions::bit_test(&mut emu, 0xf0);
    assert!(emu.cpu.registers.status.z);
    assert!(!emu.cpu.registers.status.v);
    assert!(!emu.cpu.registers.status.n);
}

#[test]
fn compares_order_register_against_operand() {
    let mut emu = fresh();
    emu.cpu.registers.a = 0x40;
    instructions::cmp(&mut emu, 0x30);
    assert!(emu.cpu.registers.status.c);
    assert!(!emu.cpu.registers.status.z);
    assert!(!emu.cpu.registers.status.n);

    instructions::cmp(&mut emu, 0x40);
    assert!(emu.cpu.registers.status.c);
    assert!(emu.cpu.registers.status.z);

    instructions::cmp(&mut emu, 0x50);
    assert!(!emu.cpu.registers.status.c);
    assert!(emu.cpu.registers.status.n);

    emu.cpu.registers.x = 1;
    instructions::cpx(&mut emu, 2);
    assert!(!emu.cpu.registers.status.c);

    emu.cpu.registers.y = 9;
    instructions::cpy(&mut emu, 9);
    assert!(emu.cpu.registers.status.z);
}

#[test]
fn inc_dec_wrap_around() {
    let mut emu = fresh();
    let r = instructions::inc(&mut emu, 0xff);
    assert_eq!(r, 0);
    assert!(emu.cpu.registers.status.z);

    let r = instructions::dec(&mut emu, 0x00);
    assert_eq!(r, 0xff);
    assert!(emu.cpu.registers.status.n);
    assert!(!emu.cpu.registers.status.z);
}
