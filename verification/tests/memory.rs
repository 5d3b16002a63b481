//! The mirrored address space, the stack, and branch target arithmetic.

use rusty_nes::config::Emulator;
use rusty_nes::cpu;
use rusty_nes::cpu::register::Status;
use rusty_nes::ppu;
use rusty_nes::ram;
use rusty_nes::ram::AddressMap;

#[test]
fn cpu_mapping_folds_ram_and_register_mirrors() {
    assert_eq!(cpu::mapped_address(0x0000), 0x0000);
    assert_eq!(cpu::mapped_address(0x07ff), 0x07ff);
    assert_eq!(cpu::mapped_address(0x0800), 0x0000);
    assert_eq!(cpu::mapped_address(0x1000), 0x0000);
    assert_eq!(cpu::mapped_address(0x1801), 0x0001);
    assert_eq!(cpu::mapped_address(0x1fff), 0x07ff);
    assert_eq!(cpu::mapped_address(0x2000), 0x2000);
    assert_eq!(cpu::mapped_address(0x2008), 0x2000);
    assert_eq!(cpu::mapped_address(0x2010), 0x2000);
    assert_eq!(cpu::mapped_address(0x3456), 0x2006);
    assert_eq!(cpu::mapped_address(0x4000), 0x4000);
    assert_eq!(cpu::mapped_address(0xffff), 0xffff);
}

#[test]
fn ppu_mapping_folds_nametable_and_palette_mirrors() {
    assert_eq!(ppu::mapped_address(0x0000), 0x0000);
    assert_eq!(ppu::mapped_address(0x2fff), 0x2fff);
    assert_eq!(ppu::mapped_address(0x3000), 0x2000);
    assert_eq!(ppu::mapped_address(0x3eff), 0x2eff);
    assert_eq!(ppu::mapped_address(0x3f00), 0x3f00);
    assert_eq!(ppu::mapped_address(0x3f1f), 0x3f1f);
    assert_eq!(ppu::mapped_address(0x3f20), 0x3f00);
    assert_eq!(ppu::mapped_address(0x3fff), 0x3f1f);
}

#[test]
fn ram_write_is_visible_through_every_mirror() {
    let mut emu = Emulator::default();
    let data = vec![0x5a];
    cpu::write_block(&mut emu, 0x0000, &data);
    assert_eq!(cpu::read_u8(&mut emu, 0x0800), 0x5a);
    assert_eq!(cpu::read_u8(&mut emu, 0x1000), 0x5a);
    assert_eq!(cpu::read_u8(&mut emu, 0x1800), 0x5a);
    assert_eq!(cpu::read_u8(&mut emu, 0x0000), 0x5a);
}

#[test]
fn register_write_is_visible_through_window_mirrors() {
    let mut emu = Emulator::default();
    let data = vec![0x77];
    cpu::write_block(&mut emu, 0x2000, &data);
    assert_eq!(cpu::read_u8(&mut emu, 0x2008), 0x77);
    assert_eq!(cpu::read_u8(&mut emu, 0x2010), 0x77);
    // The control register saw the write too.
    assert_eq!(emu.ppu.ppu_ctrl, 0x77);
}

#[test]
fn mirrored_write_lands_in_canonical_ram() {
    let mut emu = Emulator::default();
    let data = vec![0x11];
    cpu::write_block(&mut emu, 0x1803, &data);
    assert_eq!(cpu::read_u8(&mut emu, 0x0003), 0x11);
}

#[test]
fn words_read_little_endian() {
    let mut emu = Emulator::default();
    emu.cpu.memory[0x0300] = 0x34;
    emu.cpu.memory[0x0301] = 0x12;
    assert_eq!(ram::read_u16(AddressMap::Cpu, &emu.cpu.memory, 0x0300), 0x1234);
}

#[test]
fn block_read_copies_bytes_through_the_fold() {
    let mut emu = Emulator::default();
    emu.cpu.memory[0x0000] = 0xaa;
    emu.cpu.memory[0x0001] = 0xbb;
    let bytes = ram::read(AddressMap::Cpu, &emu.cpu.memory, 0x0800, 2);
    assert_eq!(bytes, vec![0xaa, 0xbb]);
}

#[test]
fn stack_round_trip_restores_pointer() {
    let mut emu = Emulator::default();
    emu.cpu.registers.sp = 0xfd;
    cpu::write_stack_u16(&mut emu, 0xbeef);
    assert_eq!(emu.cpu.registers.sp, 0xfb);
    let value = cpu::read_stack_u16(&mut emu);
    assert_eq!(value, 0xbeef);
    assert_eq!(emu.cpu.registers.sp, 0xfd);
}

#[test]
fn stack_wraps_silently_inside_page_one() {
    let mut emu = Emulator::default();
    emu.cpu.registers.sp = 0x00;
    cpu::write_stack_u16(&mut emu, 0xa55a);
    assert_eq!(emu.cpu.registers.sp, 0xfe);
    let value = cpu::read_stack_u16(&mut emu);
    assert_eq!(value, 0xa55a);
    assert_eq!(emu.cpu.registers.sp, 0x00);
    // The two bytes sat at the ends of page one.
    assert_eq!(emu.cpu.memory[0x0100], 0xa5);
    assert_eq!(emu.cpu.memory[0x01ff], 0x5a);
}

#[test]
fn relative_offsets_track_page_changes() {
    // Forward past the end of the page.
    assert_eq!(ram::relative_offset_page_change(0x00f2, 0x7f), (0x0171, true));
    // Forward within the page.
    assert_eq!(ram::relative_offset_page_change(0x0150, 0x10), (0x0160, false));
    // Backward past the start of the page.
    assert_eq!(ram::relative_offset_page_change(0x0105, -6), (0x00ff, true));
    // Backward within the page.
    assert_eq!(ram::relative_offset_page_change(0x0105, -5), (0x0100, false));
    // Wrapping off either end of the address space.
    assert_eq!(ram::relative_offset_page_change(0xffff, 1), (0x0000, true));
    assert_eq!(ram::relative_offset_page_change(0x0000, -1), (0xffff, true));
}

#[test]
fn status_byte_packs_and_unpacks_exactly() {
    let s = Status {
        c: true, z: false, i: true, d: false,
        b: false, u: true, v: false, n: true,
    };
    assert_eq!(s.bits(), 0b1010_0101);
    let t = Status::from_bits(0b1010_0101);
    assert_eq!(t, s);
    // Byte round trip.
    assert_eq!(Status::from_bits(0x6f).bits(), 0x6f);
}

#[test]
fn word_read_wraps_at_the_top_of_memory() {
    let mut emu = Emulator::default();
    emu.cpu.memory[0xffff] = 0x34;
    emu.cpu.memory[0x0000] = 0x12;
    assert_eq!(ram::read_u16(AddressMap::Cpu, &emu.cpu.memory, 0xffff), 0x1234);
}

#[test]
fn word_read_folds_each_byte_separately() {
    let mut emu = Emulator::default();
    // The low byte comes from the top of the RAM mirror, the high byte
    // from the first register-window address.
    emu.cpu.memory[0x07ff] = 0x78;
    emu.cpu.memory[0x2000] = 0x56;
    assert_eq!(ram::read_u16(AddressMap::Cpu, &emu.cpu.memory, 0x1fff), 0x5678);
}
