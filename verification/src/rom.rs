//! The cartridge image as the core consumes it: a parsed header and the
//! raw program and character banks.
//!
//! File loading is owned by the hosting process; this module only decodes
//! the 16-byte header out of a byte buffer and holds the banks for the
//! mapper to place into the address spaces.

pub mod mapper;

use vstd::prelude::*;

verus! {

/// A parsed cartridge header.
#[derive(Clone, Debug)]
pub struct Header {
    /// The four magic bytes at the start of the image.
    pub nes_title: Vec<u8>,
    /// Program bank count, in 16KB units.
    pub prg_rom_length: u8,
    /// Character bank count, in 8KB units.
    pub chr_rom_length: u8,
    /// Name-table mirroring axis (bit 0 of the sixth flag byte).
    pub vertical_mirroring: bool,
    /// Battery-backed RAM present.
    pub persistent_memory: bool,
    /// A 512-byte trainer precedes the banks.
    pub trainer: bool,
    /// Four-screen mirroring overrides the axis.
    pub ignore_mirroring: bool,
    /// Mapper number, low nibble from flag byte six, high nibble from
    /// flag byte seven.
    pub mapper: u8,
    /// Arcade-system cartridge.
    pub vs_unisystem: bool,
    /// PlayChoice-10 data present.
    pub play_choice_10: bool,
    /// The header is in the successor format.
    pub nes_2: bool,
    /// Program RAM size, in 8KB units.
    pub prg_ram_size: u8,
    /// PAL television system.
    pub pal_tv: bool,
    /// Television system selector.
    pub tv_system: u8,
    /// Program RAM present (clear bit means present).
    pub has_prg_ram: bool,
    /// The board has bus conflicts.
    pub bus_conflicts: bool,
}

/// Whether a header matches the first 16 bytes of an image: every field
/// decoded by the documented bit formulas.
pub open spec fn header_matches_bytes_spec(h: Header, bytes: Seq<u8>) -> bool {
    let flags6 = bytes[6];
    let flags7 = bytes[7];
    let flags8 = bytes[8];
    let flags9 = bytes[9];
    let flags10 = bytes[10];
    &&& h.nes_title@ == bytes.subrange(0, 4)
    &&& h.prg_rom_length == bytes[4]
    &&& h.chr_rom_length == bytes[5]
    &&& h.vertical_mirroring == (flags6 & 0x1 == 0x1)
    &&& h.persistent_memory == (flags6 & 0x2 == 0x2)
    &&& h.trainer == (flags6 & 0x4 == 0x4)
    &&& h.ignore_mirroring == (flags6 & 0x8 == 0x8)
    &&& h.mapper == flags6 as int / 16 + (flags7 as int / 16) * 16
    &&& h.vs_unisystem == (flags7 & 0x1 == 0x1)
    &&& h.play_choice_10 == (flags7 & 0x2 == 0x2)
    &&& h.nes_2 == (flags7 & 0x4 == 0x0 && flags7 & 0x8 == 0x8)
    &&& h.prg_ram_size == flags8
    &&& h.pal_tv == (flags9 & 0x1 == 0x1)
    &&& h.tv_system == ((flags10 & 0x1) | ((flags10 & 0x2) << 1))
    &&& h.has_prg_ram == (flags10 & 0x10 == 0x0)
    &&& h.bus_conflicts == (flags10 & 0x20 == 0x20)
}

impl Default for Header {
    /// An all-zero header.
    fn default() -> (r: Header)
        ensures
            r.nes_title@ == Seq::<u8>::empty(),
            r.prg_rom_length == 0 && r.chr_rom_length == 0,
            !r.vertical_mirroring && !r.persistent_memory && !r.trainer && !r.ignore_mirroring,
            r.mapper == 0,
            !r.vs_unisystem && !r.play_choice_10 && !r.nes_2,
            r.prg_ram_size == 0,
            !r.pal_tv && r.tv_system == 0,
            !r.has_prg_ram && !r.bus_conflicts,
    {
        Header {
            nes_title: Vec::new(),
            prg_rom_length: 0,
            chr_rom_length: 0,
            vertical_mirroring: false,
            persistent_memory: false,
            trainer: false,
            ignore_mirroring: false,
            mapper: 0,
            vs_unisystem: false,
            play_choice_10: false,
            nes_2: false,
            prg_ram_size: 0,
            pal_tv: false,
            tv_system: 0,
            has_prg_ram: false,
            bus_conflicts: false,
        }
    }
}

/// A cartridge image: header plus raw banks.
#[derive(Clone, Debug)]
pub struct ROM {
    /// The parsed header.
    pub header: Header,
    /// Trainer bytes, used only when the header announces them.
    pub trainer: Vec<u8>,
    /// Raw program bank bytes.
    pub prg_rom: Vec<u8>,
    /// Raw character bank bytes.
    pub chr_rom: Vec<u8>,
    /// PlayChoice instruction bytes, used only when announced.
    pub playchoice_inst_rom: Vec<u8>,
    /// PlayChoice PROM bytes, used only when announced.
    pub playchoice_prom: Vec<u8>,
}

impl Default for ROM {
    /// An empty cartridge with an all-zero header.
    fn default() -> (r: ROM)
        ensures
            r.prg_rom@ == Seq::<u8>::empty(),
            r.chr_rom@ == Seq::<u8>::empty(),
            r.header.prg_rom_length == 0 && r.header.chr_rom_length == 0,
            r.header.mapper == 0,
    {
        ROM {
            header: Header::default(),
            trainer: Vec::new(),
            prg_rom: Vec::new(),
            chr_rom: Vec::new(),
            playchoice_inst_rom: Vec::new(),
            playchoice_prom: Vec::new(),
        }
    }
}

impl ROM {
    /// Decodes the 16-byte header at the start of `buffer` into
    /// `self.header`.  Returns `false`, changing nothing, when the buffer
    /// is too short to hold a header; the banks are never touched.
    pub fn load_header(&mut self, buffer: &Vec<u8>) -> (r: bool)
        ensures
            r == (buffer@.len() >= 16),
            r ==> header_matches_bytes_spec(final(self).header, buffer@),
            !r ==> *final(self) == *old(self),
            final(self).trainer == old(self).trainer,
            final(self).prg_rom == old(self).prg_rom,
            final(self).chr_rom == old(self).chr_rom,
            final(self).playchoice_inst_rom == old(self).playchoice_inst_rom,
            final(self).playchoice_prom == old(self).playchoice_prom,
    {
        if buffer.len() < 16 {
            return false;
        }
        let mut title: Vec<u8> = Vec::new();
        title.push(buffer[0]);
        title.push(buffer[1]);
        title.push(buffer[2]);
        title.push(buffer[3]);
        proof {
            assert(title@ =~= buffer@.subrange(0, 4));
        }
        let flags6 = buffer[6];
        let flags7 = buffer[7];
        let flags8 = buffer[8];
        let flags9 = buffer[9];
        let flags10 = buffer[10];
        self.header = Header {
            nes_title: title,
            prg_rom_length: buffer[4],
            chr_rom_length: buffer[5],
            vertical_mirroring: flags6 & 0x1 == 0x1,
            persistent_memory: flags6 & 0x2 == 0x2,
            trainer: flags6 & 0x4 == 0x4,
            ignore_mirroring: flags6 & 0x8 == 0x8,
            mapper: flags6 / 16 + (flags7 / 16) * 16,
            vs_unisystem: flags7 & 0x1 == 0x1,
            play_choice_10: flags7 & 0x2 == 0x2,
            nes_2: flags7 & 0x4 == 0x0 && flags7 & 0x8 == 0x8,
            prg_ram_size: flags8,
            pal_tv: flags9 & 0x1 == 0x1,
            tv_system: (flags10 & 0x1) | ((flags10 & 0x2) << 1),
            has_prg_ram: flags10 & 0x10 == 0x0,
            bus_conflicts: flags10 & 0x20 == 0x20,
        };
        true
    }
}

} // verus!
