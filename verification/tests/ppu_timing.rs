//! The timing unit: counters, vblank signalling, and the register
//! behaviours seen through the CPU's window.

use rusty_nes::config::Emulator;
use rusty_nes::cpu;
use rusty_nes::ppu;
use rusty_nes::ppu::ScanlinePhase;

fn fresh() -> Emulator {
    Emulator::default()
}

#[test]
fn one_scanline_is_exactly_341_cycles() {
    let mut emu = fresh();
    assert_eq!(emu.ppu.cycle, 0);
    assert_eq!(emu.ppu.scanline, 0);
    for _ in 0..341 {
        ppu::run_cycle(&mut emu);
    }
    assert_eq!(emu.ppu.cycle, 0);
    assert_eq!(emu.ppu.scanline, 1);
}

#[test]
fn vblank_rises_at_241_and_falls_at_the_pre_render_line() {
    let mut emu = fresh();
    emu.ppu.scanline = 241;
    emu.ppu.cycle = 0;
    ppu::run_cycle(&mut emu);
    assert_eq!(emu.ppu.ppu_status & 0x80, 0x80);

    emu.ppu.scanline = 261;
    emu.ppu.cycle = 0;
    emu.ppu.ppu_addr_latch = true;
    emu.ppu.ppu_scroll_latch = true;
    ppu::run_cycle(&mut emu);
    assert_eq!(emu.ppu.ppu_status & 0x80, 0x00);
    assert!(!emu.ppu.ppu_addr_latch);
    assert!(!emu.ppu.ppu_scroll_latch);
}

#[test]
fn a_frame_wraps_and_flips_parity() {
    let mut emu = fresh();
    emu.ppu.scanline = 261;
    emu.ppu.cycle = 340;
    assert!(!emu.ppu.odd_frame);
    ppu::run_cycle(&mut emu);
    assert_eq!(emu.ppu.scanline, 0);
    assert_eq!(emu.ppu.cycle, 0);
    assert!(emu.ppu.odd_frame);
}

#[test]
fn whole_frame_returns_to_the_origin() {
    let mut emu = fresh();
    for _ in 0..(341 * 262) {
        ppu::run_cycle(&mut emu);
    }
    assert_eq!(emu.ppu.cycle, 0);
    assert_eq!(emu.ppu.scanline, 0);
    assert!(emu.ppu.odd_frame);
}

#[test]
fn scanline_phases_cover_the_frame() {
    assert_eq!(ppu::classify_scanline(0), ScanlinePhase::Visible);
    assert_eq!(ppu::classify_scanline(239), ScanlinePhase::Visible);
    assert_eq!(ppu::classify_scanline(240), ScanlinePhase::PostRender);
    assert_eq!(ppu::classify_scanline(241), ScanlinePhase::Vblank);
    assert_eq!(ppu::classify_scanline(260), ScanlinePhase::Vblank);
    assert_eq!(ppu::classify_scanline(261), ScanlinePhase::PreRender);
}

#[test]
fn status_read_clears_vblank_and_the_latch() {
    let mut emu = fresh();
    emu.ppu.ppu_status = 0xc0;
    emu.ppu.ppu_addr_latch = true;
    let value = cpu::read_u8(&mut emu, 0x2002);
    assert_eq!(value, 0xc0);
    assert_eq!(emu.ppu.ppu_status, 0x40);
    assert!(!emu.ppu.ppu_addr_latch);

    // The same through a mirror of the window.
    emu.ppu.ppu_status = 0x80;
    let value = cpu::read_u8(&mut emu, 0x200a);
    assert_eq!(value, 0x80);
    assert_eq!(emu.ppu.ppu_status, 0x00);
}

#[test]
fn address_latch_takes_high_byte_first() {
    let mut emu = fresh();
    cpu::write_block(&mut emu, 0x2006, &vec![0x21]);
    assert!(emu.ppu.ppu_addr_latch);
    cpu::write_block(&mut emu, 0x2006, &vec![0x08]);
    assert!(!emu.ppu.ppu_addr_latch);
    assert_eq!(emu.ppu.ppu_addr, 0x2108);
}

#[test]
fn data_port_writes_store_and_advance() {
    let mut emu = fresh();
    emu.ppu.ppu_addr = 0x2108;
    cpu::write_block(&mut emu, 0x2007, &vec![0x55]);
    assert_eq!(emu.ppu.memory[0x2108], 0x55);
    assert_eq!(emu.ppu.ppu_addr, 0x2109);

    // In vertical increment mode the pointer moves a whole row.
    emu.ppu.ppu_ctrl = 0x04;
    cpu::write_block(&mut emu, 0x2007, &vec![0x66]);
    assert_eq!(emu.ppu.memory[0x2109], 0x66);
    assert_eq!(emu.ppu.ppu_addr, 0x2109 + 32);
}

#[test]
fn data_port_reads_are_delayed_one_read() {
    let mut emu = fresh();
    emu.ppu.memory[0x2100] = 0xab;
    emu.ppu.memory[0x2101] = 0xcd;
    emu.ppu.ppu_addr = 0x2100;
    let first = cpu::read_u8(&mut emu, 0x2007);
    assert_eq!(first, 0x00);
    assert_eq!(emu.ppu.ppu_data, 0xab);
    assert_eq!(emu.ppu.ppu_addr, 0x2101);
    let second = cpu::read_u8(&mut emu, 0x2007);
    assert_eq!(second, 0xab);
    assert_eq!(emu.ppu.ppu_data, 0xcd);
}

#[test]
fn palette_reads_are_immediate() {
    let mut emu = fresh();
    emu.ppu.memory[0x3f00] = 0x2a;
    emu.ppu.ppu_addr = 0x3f00;
    let value = cpu::read_u8(&mut emu, 0x2007);
    assert_eq!(value, 0x2a);
}

#[test]
fn control_register_selects_the_increment() {
    let mut emu = fresh();
    assert!(!ppu::get_control_increment_mode(&emu));
    cpu::write_block(&mut emu, 0x2000, &vec![0x04]);
    assert!(ppu::get_control_increment_mode(&emu));
}

#[test]
fn set_vblank_touches_only_bit_seven() {
    let mut emu = fresh();
    emu.ppu.ppu_status = 0x25;
    ppu::set_vblank(&mut emu, true);
    assert_eq!(emu.ppu.ppu_status, 0xa5);
    ppu::set_vblank(&mut emu, false);
    assert_eq!(emu.ppu.ppu_status, 0x25);
}

#[test]
fn ppu_reset_clears_registers_but_not_memory() {
    let mut emu = fresh();
    emu.ppu.memory[0x123] = 9;
    emu.ppu.scanline = 100;
    emu.ppu.cycle = 7;
    emu.ppu.ppu_ctrl = 0xff;
    emu.ppu.ppu_addr = 0x1234;
    ppu::reset(&mut emu);
    assert_eq!(emu.ppu.scanline, 0);
    assert_eq!(emu.ppu.cycle, 0);
    assert_eq!(emu.ppu.ppu_ctrl, 0);
    assert_eq!(emu.ppu.ppu_addr, 0);
    assert_eq!(emu.ppu.memory[0x123], 9);
}
