//! The emulator context: one object owning the CPU, the cartridge and the
//! graphics timing unit, passed by reference into the component functions.

use crate::cpu::{CPU, CpuView};
use crate::ppu::{PPU, PpuView};
use crate::rom::ROM;
use vstd::prelude::*;

verus! {

/// The whole machine.
pub struct Emulator {
    /// Processor state and the 64KB CPU address space.
    pub cpu: CPU,
    /// The loaded cartridge image.
    pub rom: ROM,
    /// Graphics timing unit state and its 16KB address space.
    pub ppu: PPU,
}

/// The machine state as mathematics: the CPU and timing-unit views.  The
/// cartridge is plain data and never changes underneath the core, so it
/// stays outside the view.
pub ghost struct EmuView {
    /// View of the processor.
    pub cpu: CpuView,
    /// View of the timing unit.
    pub ppu: PpuView,
}

impl View for Emulator {
    type V = EmuView;

    open spec fn view(&self) -> EmuView {
        EmuView { cpu: self.cpu@, ppu: self.ppu@ }
    }
}

impl EmuView {
    /// Well-formedness of the whole machine: both address spaces have
    /// their fixed sizes and the timing counters are inside one frame.
    pub open spec fn wf(self) -> bool {
        self.cpu.wf() && self.ppu.wf()
    }
}

impl Default for Emulator {
    /// The power-on machine: zeroed memories and registers, no cartridge.
    fn default() -> (r: Emulator)
        ensures
            r@.wf(),
            r@.cpu.cycle == 0,
            r@.cpu.registers.pc == 0,
            r@.ppu.cycle == 0 && r@.ppu.scanline == 0,
    {
        Emulator { cpu: CPU::default(), rom: ROM::default(), ppu: PPU::default() }
    }
}

} // verus!
