//! Header decoding and fixed-bank mapper initialisation.

use rusty_nes::config::Emulator;
use rusty_nes::rom::mapper;
use rusty_nes::rom::ROM;

fn image_header(
    prg_banks: u8,
    chr_banks: u8,
    flags6: u8,
    flags7: u8,
    flags8: u8,
    flags9: u8,
    flags10: u8,
) -> Vec<u8> {
    let mut buffer = vec![0x4e, 0x45, 0x53, 0x1a, prg_banks, chr_banks, flags6, flags7,
        flags8, flags9, flags10];
    buffer.resize(16, 0);
    buffer
}

#[test]
fn header_fields_decode_from_the_flag_bytes() {
    let buffer = image_header(2, 1, 0xa3, 0x41, 5, 1, 0x21);
    let mut rom = ROM::default();
    assert!(rom.load_header(&buffer));
    let h = &rom.header;
    assert_eq!(h.nes_title, vec![0x4e, 0x45, 0x53, 0x1a]);
    assert_eq!(h.prg_rom_length, 2);
    assert_eq!(h.chr_rom_length, 1);
    assert!(h.vertical_mirroring);
    assert!(h.persistent_memory);
    assert!(!h.trainer);
    assert!(!h.ignore_mirroring);
    // Low nibble from byte six's high nibble, high nibble from byte
    // seven's.
    assert_eq!(h.mapper, 0x4a);
    assert!(h.vs_unisystem);
    assert!(!h.play_choice_10);
    assert!(!h.nes_2);
    assert_eq!(h.prg_ram_size, 5);
    assert!(h.pal_tv);
    assert_eq!(h.tv_system, 0x01);
    // The present bit is inverted: a clear bit means present.
    assert!(h.has_prg_ram);
    assert!(h.bus_conflicts);
}

#[test]
fn header_nes2_needs_exactly_bit_three() {
    let mut rom = ROM::default();
    assert!(rom.load_header(&image_header(1, 1, 0, 0x08, 0, 0, 0)));
    assert!(rom.header.nes_2);
    assert!(rom.load_header(&image_header(1, 1, 0, 0x0c, 0, 0, 0)));
    assert!(!rom.header.nes_2);
}

#[test]
fn short_buffer_is_rejected_unchanged() {
    let mut rom = ROM::default();
    let buffer = vec![0x4e, 0x45, 0x53];
    assert!(!rom.load_header(&buffer));
    assert_eq!(rom.header.prg_rom_length, 0);
    assert_eq!(rom.header.mapper, 0);
}

#[test]
fn single_bank_image_mirrors_at_c000() {
    let mut emu = Emulator::default();
    emu.rom.header.mapper = 0;
    emu.rom.header.prg_rom_length = 1;
    emu.rom.header.chr_rom_length = 1;
    let mut prg = vec![0u8; 0x4000];
    prg[0] = 0xaa;
    prg[0x3fff] = 0xbb;
    emu.rom.prg_rom = prg;
    let mut chr = vec![0u8; 0x2000];
    chr[0] = 0xcc;
    chr[0x1fff] = 0xdd;
    emu.rom.chr_rom = chr;
    assert!(mapper::init_mapper(&mut emu));
    assert_eq!(emu.cpu.memory[0x8000], 0xaa);
    assert_eq!(emu.cpu.memory[0xbfff], 0xbb);
    assert_eq!(emu.cpu.memory[0xc000], 0xaa);
    assert_eq!(emu.cpu.memory[0xffff], 0xbb);
    assert_eq!(emu.ppu.memory[0x0000], 0xcc);
    assert_eq!(emu.ppu.memory[0x1fff], 0xdd);
}

#[test]
fn double_bank_image_fills_the_whole_region() {
    let mut emu = Emulator::default();
    emu.rom.header.mapper = 0;
    emu.rom.header.prg_rom_length = 2;
    emu.rom.header.chr_rom_length = 0;
    let mut prg = vec![0u8; 0x8000];
    prg[0] = 0x11;
    prg[0x7fff] = 0x22;
    emu.rom.prg_rom = prg;
    assert!(mapper::init_mapper(&mut emu));
    assert_eq!(emu.cpu.memory[0x8000], 0x11);
    assert_eq!(emu.cpu.memory[0xffff], 0x22);
}

#[test]
fn unsupported_mapper_is_refused() {
    let mut emu = Emulator::default();
    emu.rom.header.mapper = 4;
    assert!(!mapper::init_mapper(&mut emu));
    assert_eq!(emu.cpu.memory[0x8000], 0);
}
