//! The graphics timing unit: scanline/cycle counters, vblank signalling,
//! the register block the CPU reaches through `0x2000..0x2007`, and the
//! unit's own 16KB address space.
//!
//! Pixel generation is out of scope; only the timing skeleton that the CPU
//! observably depends on is modelled.

use crate::config::Emulator;
use crate::ram;
use vstd::prelude::*;

verus! {

/// Scanlines per frame; line 261 is the pre-render line.
pub const TOTAL_SCANLINES: u32 = 262;

/// Cycles per scanline.
pub const CYCLES_PER_SCANLINE: u32 = 341;

/// The graphics timing unit's state.
pub struct PPU {
    /// The unit's own 16KB address space (pattern tables, name tables,
    /// palette).
    pub memory: Vec<u8>,
    /// Object attribute memory.
    pub oam: Vec<u8>,
    /// Cycle counter within the current scanline, `0..=340`.
    pub cycle: u32,
    /// Current scanline, `0..=261`.
    pub scanline: u32,
    /// Control register (`0x2000`).
    pub ppu_ctrl: u8,
    /// Mask register (`0x2001`).
    pub ppu_mask: u8,
    /// Status register (`0x2002`).
    pub ppu_status: u8,
    /// Object attribute memory address register.
    pub oam_addr: u16,
    /// Scroll register two-write latch.
    pub ppu_scroll_latch: bool,
    /// Address register two-write latch: clear before the first (high)
    /// write, set before the second (low) write.
    pub ppu_addr_latch: bool,
    /// Scroll register value.
    pub ppu_scroll: u8,
    /// The unit's address pointer, written through `0x2006`.
    pub ppu_addr: u16,
    /// The one-read-delayed data buffer behind `0x2007`.
    pub ppu_data: u8,
    /// Odd/even frame parity, flipped once per frame.
    pub odd_frame: bool,
}

/// The timing unit's state as mathematics: the same fields with the
/// memories abstracted to sequences.
pub ghost struct PpuView {
    /// View of `PPU::memory`.
    pub memory: Seq<u8>,
    /// View of `PPU::oam`.
    pub oam: Seq<u8>,
    /// Cycle counter within the current scanline.
    pub cycle: u32,
    /// Current scanline.
    pub scanline: u32,
    /// Control register.
    pub ppu_ctrl: u8,
    /// Mask register.
    pub ppu_mask: u8,
    /// Status register.
    pub ppu_status: u8,
    /// Object attribute memory address register.
    pub oam_addr: u16,
    /// Scroll register two-write latch.
    pub ppu_scroll_latch: bool,
    /// Address register two-write latch.
    pub ppu_addr_latch: bool,
    /// Scroll register value.
    pub ppu_scroll: u8,
    /// The unit's address pointer.
    pub ppu_addr: u16,
    /// The one-read-delayed data buffer.
    pub ppu_data: u8,
    /// Odd/even frame parity.
    pub odd_frame: bool,
}

impl View for PPU {
    type V = PpuView;

    open spec fn view(&self) -> PpuView {
        PpuView {
            memory: self.memory@,
            oam: self.oam@,
            cycle: self.cycle,
            scanline: self.scanline,
            ppu_ctrl: self.ppu_ctrl,
            ppu_mask: self.ppu_mask,
            ppu_status: self.ppu_status,
            oam_addr: self.oam_addr,
            ppu_scroll_latch: self.ppu_scroll_latch,
            ppu_addr_latch: self.ppu_addr_latch,
            ppu_scroll: self.ppu_scroll,
            ppu_addr: self.ppu_addr,
            ppu_data: self.ppu_data,
            odd_frame: self.odd_frame,
        }
    }
}

impl PpuView {
    /// Well-formedness: backing arrays have their fixed sizes and the
    /// counters are inside one frame.
    pub open spec fn wf(self) -> bool {
        &&& self.memory.len() == 0x4000
        &&& self.oam.len() == 0x100
        &&& self.cycle < 341
        &&& self.scanline < 262
    }

    /// Whether the control register selects the 32-byte address increment.
    pub open spec fn control_increment_mode(self) -> bool {
        self.ppu_ctrl & 0x04 == 0x04
    }

    /// The amount the address pointer advances after a data-port access:
    /// 32 in vertical mode, 1 in horizontal mode.
    pub open spec fn addr_increment(self) -> u16 {
        if self.control_increment_mode() { 32 } else { 1 }
    }

    /// Whether the vblank flag (bit 7 of the status register) is set.
    pub open spec fn vblank(self) -> bool {
        self.ppu_status & 0x80 == 0x80
    }
}

impl Default for PPU {
    /// Power-on state: zeroed memory, counters at the top-left of the
    /// frame, all registers and latches clear.
    fn default() -> (r: PPU)
        ensures
            r@.wf(),
            r@.memory == Seq::<u8>::new(0x4000, |j: int| 0u8),
            r@.oam == Seq::<u8>::new(0x100, |j: int| 0u8),
            r@.cycle == 0 && r@.scanline == 0,
            r@.ppu_ctrl == 0 && r@.ppu_mask == 0 && r@.ppu_status == 0,
            r@.oam_addr == 0 && r@.ppu_scroll == 0 && r@.ppu_addr == 0 && r@.ppu_data == 0,
            !r@.ppu_scroll_latch && !r@.ppu_addr_latch && !r@.odd_frame,
    {
        PPU {
            memory: zero_vec(0x4000),
            oam: zero_vec(0x100),
            cycle: 0,
            scanline: 0,
            ppu_ctrl: 0,
            ppu_mask: 0,
            ppu_status: 0,
            oam_addr: 0,
            ppu_scroll_latch: false,
            ppu_addr_latch: false,
            ppu_scroll: 0,
            ppu_addr: 0,
            ppu_data: 0,
            odd_frame: false,
        }
    }
}

/// A vector of `n` zero bytes.
pub fn zero_vec(n: usize) -> (r: Vec<u8>)
    ensures
        r@ == Seq::<u8>::new(n as nat, |j: int| 0u8),
{
    let mut v: Vec<u8> = Vec::new();
    let mut i: usize = 0;
    while i < n
        invariant
            i <= n,
            v@ == Seq::<u8>::new(i as nat, |j: int| 0u8),
        decreases n - i,
    {
        v.push(0);
        i = i + 1;
        proof {
            assert(v@ =~= Seq::<u8>::new(i as nat, |j: int| 0u8));
        }
    }
    v
}

/// Folds a raw graphics-unit address to its canonical mirrored address.
pub fn mapped_address(addr: u16) -> (r: usize)
    ensures
        r == ram::AddressMap::Ppu.apply_spec(addr as int),
        r < 0x4000,
{
    ram::AddressMap::Ppu.apply(addr)
}

/// The unit with its vblank flag set or cleared; no other bit moves.
pub open spec fn set_vblank_spec(p: PpuView, value: bool) -> PpuView {
    if value {
        PpuView { ppu_status: p.ppu_status | 0x80, ..p }
    } else {
        PpuView { ppu_status: p.ppu_status & 0x7f, ..p }
    }
}

/// Setting the flag sets it and clearing it clears it.
pub proof fn lemma_set_vblank(p: PpuView)
    ensures
        set_vblank_spec(p, true).vblank(),
        !set_vblank_spec(p, false).vblank(),
{
    let s = p.ppu_status;
    assert((s | 0x80) & 0x80 == 0x80) by (bit_vector);
    assert((s & 0x7f) & 0x80 != 0x80) by (bit_vector);
}

/// Sets or clears the vblank flag in the status register.
pub fn set_vblank(emulator: &mut Emulator, value: bool)
    ensures
        final(emulator)@.ppu == set_vblank_spec(old(emulator)@.ppu, value),
        final(emulator)@.cpu == old(emulator)@.cpu,
        final(emulator).rom == old(emulator).rom,
{
    if value {
        emulator.ppu.ppu_status = emulator.ppu.ppu_status | 0x80;
    } else {
        emulator.ppu.ppu_status = emulator.ppu.ppu_status & 0x7f;
    }
}

/// Reads the increment-mode bit of the control register.
pub fn get_control_increment_mode(emulator: &Emulator) -> (r: bool)
    ensures
        r == emulator@.ppu.control_increment_mode(),
{
    emulator.ppu.ppu_ctrl & 0x04 == 0x04
}

/// The phase a scanline belongs to; together the phases cover every line
/// of the frame.
#[derive(Clone, Copy, Debug, PartialEq, Eq, Structural)]
pub enum ScanlinePhase {
    /// Lines `0..=239`: picture area (pixel generation is stubbed).
    Visible,
    /// Line 240: idle line after the picture.
    PostRender,
    /// Lines `241..=260`: vertical blanking; entry at line 241 raises the
    /// vblank flag.
    Vblank,
    /// Line 261: pre-render line; vblank and the per-frame latches clear.
    PreRender,
}

/// Classifies a scanline into its phase.
pub open spec fn phase_spec(scanline: u32) -> ScanlinePhase {
    if scanline <= 239 {
        ScanlinePhase::Visible
    } else if scanline == 240 {
        ScanlinePhase::PostRender
    } else if scanline <= 260 {
        ScanlinePhase::Vblank
    } else {
        ScanlinePhase::PreRender
    }
}

/// Classifies a scanline into its phase.
pub fn classify_scanline(scanline: u32) -> (r: ScanlinePhase)
    ensures
        r == phase_spec(scanline),
{
    if scanline <= 239 {
        ScanlinePhase::Visible
    } else if scanline == 240 {
        ScanlinePhase::PostRender
    } else if scanline <= 260 {
        ScanlinePhase::Vblank
    } else {
        ScanlinePhase::PreRender
    }
}

/// One tick of the timing unit: the per-line events at the current
/// position, then the counters advance by one cycle, wrapping into the
/// next scanline and the next frame.
pub open spec fn tick_spec(p: PpuView) -> PpuView {
    let q = if p.scanline == 241 && p.cycle == 0 {
        set_vblank_spec(p, true)
    } else if p.scanline == 261 && p.cycle == 0 {
        PpuView { ppu_scroll_latch: false, ppu_addr_latch: false, ..set_vblank_spec(p, false) }
    } else {
        p
    };
    if q.cycle + 1 >= 341 {
        if q.scanline + 1 >= 262 {
            PpuView { cycle: 0, scanline: 0, odd_frame: !q.odd_frame, ..q }
        } else {
            PpuView { cycle: 0, scanline: (q.scanline + 1) as u32, ..q }
        }
    } else {
        PpuView { cycle: (q.cycle + 1) as u32, ..q }
    }
}

/// Advances the timing unit by one cycle.
///
/// Entering scanline 241 raises the vblank flag; entering the pre-render
/// line 261 clears it and resets the per-frame write latches.  Every
/// scanline of the frame falls in exactly one phase, so no reachable
/// counter state goes unclassified.
pub fn run_cycle(emulator: &mut Emulator)
    requires
        old(emulator)@.ppu.wf(),
    ensures
        final(emulator)@.ppu == tick_spec(old(emulator)@.ppu),
        final(emulator)@.ppu.wf(),
        final(emulator)@.cpu == old(emulator)@.cpu,
        final(emulator).rom == old(emulator).rom,
{
    match classify_scanline(emulator.ppu.scanline) {
        ScanlinePhase::Visible => {
            // Pixel generation is an external non-goal; nothing to do.
        },
        ScanlinePhase::PostRender => {},
        ScanlinePhase::Vblank => {
            if emulator.ppu.scanline == 241 && emulator.ppu.cycle == 0 {
                set_vblank(emulator, true);
            }
        },
        ScanlinePhase::PreRender => {
            if emulator.ppu.cycle == 0 {
                set_vblank(emulator, false);
                emulator.ppu.ppu_scroll_latch = false;
                emulator.ppu.ppu_addr_latch = false;
            }
        },
    }
    emulator.ppu.cycle = emulator.ppu.cycle + 1;
    if emulator.ppu.cycle >= CYCLES_PER_SCANLINE {
        emulator.ppu.cycle = 0;
        emulator.ppu.scanline = emulator.ppu.scanline + 1;
        if emulator.ppu.scanline >= TOTAL_SCANLINES {
            emulator.ppu.scanline = 0;
            emulator.ppu.odd_frame = !emulator.ppu.odd_frame;
        }
    }
}

/// The timing unit after `n` ticks.
pub open spec fn tick_iter_spec(p: PpuView, n: nat) -> PpuView
    decreases n,
{
    if n == 0 {
        p
    } else {
        tick_spec(tick_iter_spec(p, (n - 1) as nat))
    }
}

/// Ticks that stay inside one scanline only advance the cycle counter.
proof fn lemma_ticks_within_scanline(p: PpuView, k: nat)
    requires
        p.wf(),
        p.cycle + k <= 340,
    ensures
        tick_iter_spec(p, k).wf(),
        tick_iter_spec(p, k).cycle == p.cycle + k,
        tick_iter_spec(p, k).scanline == p.scanline,
    decreases k,
{
    if k > 0 {
        lemma_ticks_within_scanline(p, (k - 1) as nat);
    }
}

/// Exactly 341 ticks from the start of a scanline advance the unit by
/// one scanline and return the cycle counter to zero.
pub proof fn lemma_scanline_advance(p: PpuView)
    requires
        p.wf(),
        p.cycle == 0,
        p.scanline < 261,
    ensures
        tick_iter_spec(p, 341).cycle == 0,
        tick_iter_spec(p, 341).scanline == p.scanline + 1,
{
    lemma_ticks_within_scanline(p, 340);
    assert(tick_iter_spec(p, 341) == tick_spec(tick_iter_spec(p, 340)));
}

/// The vblank flag rises on the first cycle of scanline 241 and falls on
/// the first cycle of the pre-render line.
pub proof fn lemma_vblank_transitions(p: PpuView)
    requires
        p.wf(),
    ensures
        p.scanline == 241 && p.cycle == 0 ==> tick_spec(p).vblank(),
        p.scanline == 261 && p.cycle == 0 ==> !tick_spec(p).vblank(),
{
    lemma_set_vblank(p);
}

/// Returns the timing unit to its power-on counters and registers; the
/// unit's memory is not touched.
pub fn reset(emulator: &mut Emulator)
    ensures
        final(emulator)@.ppu == (PpuView {
            cycle: 0,
            scanline: 0,
            ppu_ctrl: 0,
            ppu_mask: 0,
            ppu_status: 0,
            oam_addr: 0,
            ppu_scroll_latch: false,
            ppu_addr_latch: false,
            ppu_scroll: 0,
            ppu_addr: 0,
            ppu_data: 0,
            ..old(emulator)@.ppu
        }),
        final(emulator)@.cpu == old(emulator)@.cpu,
        final(emulator).rom == old(emulator).rom,
{
    emulator.ppu.cycle = 0;
    emulator.ppu.scanline = 0;
    emulator.ppu.ppu_ctrl = 0;
    emulator.ppu.ppu_mask = 0;
    emulator.ppu.ppu_status = 0;
    emulator.ppu.oam_addr = 0;
    emulator.ppu.ppu_scroll_latch = false;
    emulator.ppu.ppu_addr_latch = false;
    emulator.ppu.ppu_scroll = 0;
    emulator.ppu.ppu_addr = 0;
    emulator.ppu.ppu_data = 0;
}

} // verus!
