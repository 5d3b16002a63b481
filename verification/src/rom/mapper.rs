//! Mapper initialisation: placing the cartridge banks into the address
//! spaces.  Only the fixed-bank mapper (number 0) is modelled; it writes
//! the program bank to `0x8000`, mirrored at `0xC000` when there is only
//! one bank, and the character bank into the graphics unit's pattern
//! tables at `0x0000`.

use crate::config::Emulator;
use crate::ram;
use crate::ram::AddressMap;
use vstd::arithmetic::div_mod::{lemma_mod_multiples_vanish, lemma_small_mod};
use vstd::prelude::*;

verus! {

/// Whether a CPU-space address belongs to the program-bank region the
/// fixed-bank mapper fills: the space from `0x8000` up, as far as the
/// banks reach, the single-bank image reaching twice.
pub open spec fn prg_region_spec(banks: u8, a: int) -> bool {
    if banks == 1 {
        0x8000 <= a < 0x10000
    } else {
        0x8000 <= a < 0x8000 + banks * 0x4000
    }
}

/// Initialises the cartridge mapping.  Returns `false`, changing
/// nothing, for a mapper the core does not model; for mapper 0 it fills
/// the program region (mirroring a single bank) and the character
/// region, and returns `true`.
pub fn init_mapper(emulator: &mut Emulator) -> (r: bool)
    requires
        old(emulator)@.wf(),
        old(emulator).rom.prg_rom.len() ==
            old(emulator).rom.header.prg_rom_length * 0x4000,
        old(emulator).rom.header.prg_rom_length <= 2,
        old(emulator).rom.chr_rom.len() ==
            old(emulator).rom.header.chr_rom_length * 0x2000,
        old(emulator).rom.header.chr_rom_length <= 1,
    ensures
        r == (old(emulator).rom.header.mapper == 0),
        !r ==> *final(emulator) == *old(emulator),
        final(emulator).rom == old(emulator).rom,
        final(emulator)@.cpu.registers == old(emulator)@.cpu.registers,
        final(emulator)@.cpu.cycle == old(emulator)@.cpu.cycle,
        final(emulator)@.wf(),
        r ==> forall|j: int| 0 <= j < 0x10000 ==> final(emulator)@.cpu.memory[j] == (
            if prg_region_spec(old(emulator).rom.header.prg_rom_length, j) {
                old(emulator).rom.prg_rom@[
                    (j - 0x8000) % (old(emulator).rom.prg_rom@.len() as int)
                ]
            } else {
                old(emulator)@.cpu.memory[j]
            }
        ),
        r ==> forall|j: int| 0 <= j < 0x4000 ==> final(emulator)@.ppu.memory[j] == (
            if j < old(emulator).rom.chr_rom.len() {
                old(emulator).rom.chr_rom@[j]
            } else {
                old(emulator)@.ppu.memory[j]
            }
        ),
        r ==> final(emulator)@.ppu == (crate::ppu::PpuView {
            memory: final(emulator)@.ppu.memory,
            ..old(emulator)@.ppu
        }),
{
    if emulator.rom.header.mapper != 0 {
        return false;
    }
    let banks = emulator.rom.header.prg_rom_length;
    let ghost mem0 = emulator.cpu.memory@;
    ram::write_block(AddressMap::Cpu, &mut emulator.cpu.memory, 0x8000, &emulator.rom.prg_rom);
    proof {
        ram::lemma_write_block_identity(AddressMap::Cpu, mem0, 0x8000,
            emulator.rom.prg_rom@);
    }
    if banks == 1 {
        let ghost mem1 = emulator.cpu.memory@;
        ram::write_block(AddressMap::Cpu, &mut emulator.cpu.memory, 0xc000,
            &emulator.rom.prg_rom);
        proof {
            ram::lemma_write_block_identity(AddressMap::Cpu, mem1, 0xc000,
                emulator.rom.prg_rom@);
            assert forall|j: int| 0 <= j < 0x10000 implies emulator.cpu.memory@[j] == (
                if prg_region_spec(1, j) {
                    emulator.rom.prg_rom@[(j - 0x8000) % 0x4000]
                } else {
                    mem0[j]
                }
            ) by {
                if 0x8000 <= j < 0xc000 {
                    lemma_small_mod((j - 0x8000) as nat, 0x4000);
                } else if 0xc000 <= j < 0x10000 {
                    lemma_mod_multiples_vanish(1, j - 0xc000, 0x4000);
                    lemma_small_mod((j - 0xc000) as nat, 0x4000);
                }
            }
        }
    } else {
        proof {
            assert forall|j: int| 0 <= j < 0x10000 implies emulator.cpu.memory@[j] == (
                if prg_region_spec(banks, j) {
                    emulator.rom.prg_rom@[
                        (j - 0x8000) % (emulator.rom.prg_rom@.len() as int)
                    ]
                } else {
                    mem0[j]
                }
            ) by {
                if prg_region_spec(banks, j) {
                    lemma_small_mod((j - 0x8000) as nat,
                        emulator.rom.prg_rom@.len());
                }
            }
        }
    }
    let ghost pmem0 = emulator.ppu.memory@;
    ram::write_block(AddressMap::Ppu, &mut emulator.ppu.memory, 0x0000, &emulator.rom.chr_rom);
    proof {
        ram::lemma_write_block_identity(AddressMap::Ppu, pmem0, 0x0000,
            emulator.rom.chr_rom@);
    }
    true
}

} // verus!
