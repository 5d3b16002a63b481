//! The 6502-family processor: register file, memory interface with the
//! graphics-register bridge, stack, interrupts, and the cycle-stepped
//! scheduler.

pub mod instructions;
pub mod opcodes;
pub mod register;

use crate::config::{Emulator, EmuView};
use crate::ppu;
use crate::ppu::PpuView;
use crate::ram;
use crate::ram::AddressMap;
use register::Registers;
use register::Status;
use vstd::prelude::*;

verus! {

/// Processor state: the register file, the 64KB address space and the
/// wait counter of the cycle-stepped scheduler.
pub struct CPU {
    /// The register file.
    pub registers: Registers,
    /// The 64KB CPU address space.
    pub memory: Vec<u8>,
    /// Wait counter: cycles left before the next instruction finishes.
    pub cycle: u32,
}

/// The processor state as mathematics: the memory abstracted to a
/// sequence.
pub ghost struct CpuView {
    /// The register file.
    pub registers: Registers,
    /// View of the 64KB address space.
    pub memory: Seq<u8>,
    /// Wait counter.
    pub cycle: u32,
}

impl View for CPU {
    type V = CpuView;

    open spec fn view(&self) -> CpuView {
        CpuView { registers: self.registers, memory: self.memory@, cycle: self.cycle }
    }
}

impl CpuView {
    /// Well-formedness: the address space covers the full 16-bit domain.
    pub open spec fn wf(self) -> bool {
        self.memory.len() == 0x10000
    }
}

impl Default for CPU {
    /// Power-on state: zeroed registers and memory.
    fn default() -> (r: CPU)
        ensures
            r@.wf(),
            r@.registers == (Registers {
                a: 0, x: 0, y: 0, sp: 0, pc: 0,
                status: Status {
                    c: false, z: false, i: false, d: false,
                    b: false, u: false, v: false, n: false,
                },
            }),
            r@.memory == Seq::<u8>::new(0x10000, |j: int| 0u8),
            r@.cycle == 0,
    {
        CPU {
            registers: Registers::default(),
            memory: ppu::zero_vec(0x10000),
            cycle: 0,
        }
    }
}

/// Folds a raw CPU address to its canonical mirrored address.
pub fn mapped_address(addr: u16) -> (r: usize)
    ensures
        r == AddressMap::Cpu.apply_spec(addr as int),
        r < 0x10000,
{
    AddressMap::Cpu.apply(addr)
}

// ---------------------------------------------------------------------
// View helpers: a machine state with one component replaced.

/// The machine with its register file replaced.
pub open spec fn with_registers(e: EmuView, r: Registers) -> EmuView {
    EmuView { cpu: CpuView { registers: r, ..e.cpu }, ..e }
}

/// The machine with its CPU memory replaced.
pub open spec fn with_cpu_memory(e: EmuView, m: Seq<u8>) -> EmuView {
    EmuView { cpu: CpuView { memory: m, ..e.cpu }, ..e }
}

/// The machine with its timing unit replaced.
pub open spec fn with_ppu(e: EmuView, p: PpuView) -> EmuView {
    EmuView { ppu: p, ..e }
}

/// The machine with its wait counter replaced.
pub open spec fn with_cycle(e: EmuView, c: u32) -> EmuView {
    EmuView { cpu: CpuView { cycle: c, ..e.cpu }, ..e }
}

/// The machine with its program counter replaced.
pub open spec fn with_pc(e: EmuView, pc: u16) -> EmuView {
    with_registers(e, Registers { pc, ..e.cpu.registers })
}

// ---------------------------------------------------------------------
// The memory-mapped register bridge.

/// What a read of graphics register `mapped` (a canonical address in
/// `0x2000..=0x2007`) does to the unit, and the byte it intercepts.
///
/// Reading the status register returns it, clears the vblank flag and
/// resets the address latch.  Reading the data port returns the delayed
/// buffer (immediately for palette addresses), refills the buffer from
/// the unit's memory, and advances the address pointer.  Every other
/// register read is not intercepted (`None`) and falls through to raw
/// memory.
pub open spec fn ppu_register_read_spec(p: PpuView, mapped: int) -> (PpuView, Option<u8>) {
    if mapped == 0x2002 {
        (
            PpuView { ppu_addr_latch: false, ..ppu::set_vblank_spec(p, false) },
            Some(p.ppu_status),
        )
    } else if mapped == 0x2007 {
        let fetched = p.memory[AddressMap::Ppu.apply_spec(p.ppu_addr as int)];
        let value = if p.ppu_addr >= 0x3f00 { fetched } else { p.ppu_data };
        (
            PpuView {
                ppu_data: fetched,
                ppu_addr: p.ppu_addr.wrapping_add(p.addr_increment()),
                ..p
            },
            Some(value),
        )
    } else {
        (p, None)
    }
}

/// What a write of `value` to graphics register `mapped` does to the
/// unit.
///
/// `0x2000` and `0x2001` load the control and mask registers.  `0x2006`
/// is the two-write address latch, high byte first.  `0x2007` stores
/// through the unit's own fold at the address pointer and advances the
/// pointer.  Other registers have no modelled side effect.
pub open spec fn ppu_register_write_spec(p: PpuView, mapped: int, value: u8) -> PpuView {
    if mapped == 0x2000 {
        PpuView { ppu_ctrl: value, ..p }
    } else if mapped == 0x2001 {
        PpuView { ppu_mask: value, ..p }
    } else if mapped == 0x2006 {
        if !p.ppu_addr_latch {
            PpuView {
                ppu_addr: (value * 256 + p.ppu_addr % 256) as u16,
                ppu_addr_latch: true,
                ..p
            }
        } else {
            PpuView {
                ppu_addr: (p.ppu_addr / 256 * 256 + value) as u16,
                ppu_addr_latch: false,
                ..p
            }
        }
    } else if mapped == 0x2007 {
        PpuView {
            memory: p.memory.update(AddressMap::Ppu.apply_spec(p.ppu_addr as int), value),
            ppu_addr: p.ppu_addr.wrapping_add(p.addr_increment()),
            ..p
        }
    } else {
        p
    }
}

/// Handles a CPU read whose folded address lands in the graphics register
/// window; returns the intercepted byte, or `None` when the read falls
/// through to raw memory.
pub fn handle_ppu_memory_read(emulator: &mut Emulator, address: u16) -> (r: Option<u8>)
    requires
        old(emulator)@.wf(),
    ensures
        final(emulator)@.cpu == old(emulator)@.cpu,
        final(emulator).rom == old(emulator).rom,
        final(emulator)@.ppu == ppu_register_read_spec(
            old(emulator)@.ppu,
            AddressMap::Cpu.apply_spec(address as int),
        ).0,
        r == ppu_register_read_spec(
            old(emulator)@.ppu,
            AddressMap::Cpu.apply_spec(address as int),
        ).1,
        final(emulator)@.wf(),
{
    let mapped = mapped_address(address);
    if mapped == 0x2002 {
        let status = emulator.ppu.ppu_status;
        ppu::set_vblank(emulator, false);
        emulator.ppu.ppu_addr_latch = false;
        Some(status)
    } else if mapped == 0x2007 {
        let fetched = ram::read_u8(AddressMap::Ppu, &emulator.ppu.memory, emulator.ppu.ppu_addr);
        let value = if emulator.ppu.ppu_addr >= 0x3f00 { fetched } else { emulator.ppu.ppu_data };
        emulator.ppu.ppu_data = fetched;
        let increment: u16 = if ppu::get_control_increment_mode(emulator) { 32 } else { 1 };
        emulator.ppu.ppu_addr = emulator.ppu.ppu_addr.wrapping_add(increment);
        Some(value)
    } else {
        None
    }
}

/// Handles a CPU write whose folded address lands in the graphics
/// register window; outside the window it does nothing.
pub fn handle_ppu_memory_write(emulator: &mut Emulator, address: u16, value: u8)
    requires
        old(emulator)@.wf(),
    ensures
        final(emulator)@.cpu == old(emulator)@.cpu,
        final(emulator).rom == old(emulator).rom,
        final(emulator)@.ppu == ppu_register_write_spec(
            old(emulator)@.ppu,
            AddressMap::Cpu.apply_spec(address as int),
            value,
        ),
        final(emulator)@.wf(),
{
    let mapped = mapped_address(address);
    if mapped == 0x2000 {
        emulator.ppu.ppu_ctrl = value;
    } else if mapped == 0x2001 {
        emulator.ppu.ppu_mask = value;
    } else if mapped == 0x2006 {
        if !emulator.ppu.ppu_addr_latch {
            emulator.ppu.ppu_addr = (value as u16) * 256 + emulator.ppu.ppu_addr % 256;
            emulator.ppu.ppu_addr_latch = true;
        } else {
            emulator.ppu.ppu_addr = emulator.ppu.ppu_addr / 256 * 256 + value as u16;
            emulator.ppu.ppu_addr_latch = false;
        }
    } else if mapped == 0x2007 {
        ram::write_u8(AddressMap::Ppu, &mut emulator.ppu.memory, emulator.ppu.ppu_addr, value);
        let increment: u16 = if ppu::get_control_increment_mode(emulator) { 32 } else { 1 };
        emulator.ppu.ppu_addr = emulator.ppu.ppu_addr.wrapping_add(increment);
    }
}

// ---------------------------------------------------------------------
// The CPU's memory interface: every access goes through the fold and the
// register bridge.

/// What a CPU read of `address` yields and does: the bridge intercepts
/// register reads, everything else comes from raw memory at the folded
/// address.
pub open spec fn read8_spec(e: EmuView, address: u16) -> (EmuView, u8) {
    let mapped = AddressMap::Cpu.apply_spec(address as int);
    let bridged = ppu_register_read_spec(e.ppu, mapped);
    let e1 = with_ppu(e, bridged.0);
    match bridged.1 {
        Some(v) => (e1, v),
        None => (e1, e.cpu.memory[mapped]),
    }
}

/// Reads one byte as the CPU sees it.
pub fn read_u8(emulator: &mut Emulator, address: u16) -> (r: u8)
    requires
        old(emulator)@.wf(),
    ensures
        final(emulator)@ == read8_spec(old(emulator)@, address).0,
        r == read8_spec(old(emulator)@, address).1,
        final(emulator).rom == old(emulator).rom,
        final(emulator)@.wf(),
{
    let bridged = handle_ppu_memory_read(emulator, address);
    match bridged {
        Some(v) => v,
        None => ram::read_u8(AddressMap::Cpu, &emulator.cpu.memory, address),
    }
}

/// What a CPU write of one byte does: the bridge sees register writes,
/// and the byte also lands in raw memory at the folded address.
pub open spec fn write8_spec(e: EmuView, address: u16, value: u8) -> EmuView {
    let mapped = AddressMap::Cpu.apply_spec(address as int);
    let e1 = with_ppu(e, ppu_register_write_spec(e.ppu, mapped, value));
    with_cpu_memory(e1, e1.cpu.memory.update(mapped, value))
}

/// Writes one byte as the CPU sees it.
fn write_byte(emulator: &mut Emulator, address: u16, value: u8)
    requires
        old(emulator)@.wf(),
    ensures
        final(emulator)@ == write8_spec(old(emulator)@, address, value),
        final(emulator).rom == old(emulator).rom,
        final(emulator)@.wf(),
{
    handle_ppu_memory_write(emulator, address, value);
    ram::write_u8(AddressMap::Cpu, &mut emulator.cpu.memory, address, value);
}

/// What a CPU block write does: the bridge sees the first byte, then the
/// whole block lands in raw memory through the fold.
pub open spec fn write_block_cpu_spec(e: EmuView, address: u16, data: Seq<u8>) -> EmuView {
    let e1 = if data.len() > 0 {
        with_ppu(e, ppu_register_write_spec(
            e.ppu,
            AddressMap::Cpu.apply_spec(address as int),
            data[0],
        ))
    } else {
        e
    };
    with_cpu_memory(e1, ram::write_block_spec(AddressMap::Cpu, e1.cpu.memory, address, data))
}

/// Writes a block of bytes as the CPU sees it.
pub fn write_block(emulator: &mut Emulator, address: u16, data: &Vec<u8>)
    requires
        old(emulator)@.wf(),
        data.len() <= 0x10000,
    ensures
        final(emulator)@ == write_block_cpu_spec(old(emulator)@, address, data@),
        final(emulator).rom == old(emulator).rom,
        final(emulator)@.wf(),
{
    if data.len() > 0 {
        handle_ppu_memory_write(emulator, address, data[0]);
    }
    ram::write_block(AddressMap::Cpu, &mut emulator.cpu.memory, address, data);
}

// ---------------------------------------------------------------------
// Addressing-mode resolution.

/// The effective address an addressing-mode descriptor names, given the
/// memory the zero-page pointers live in.
pub open spec fn am_target_spec(am: ram::AddressingMode, mem: Seq<u8>) -> u16 {
    match am {
        ram::AddressingMode::ZeroPage { address } => address as u16,
        ram::AddressingMode::ZeroPageX { address, x } => ((address + x) % 256) as u16,
        ram::AddressingMode::ZeroPageY { address, y } => ((address + y) % 256) as u16,
        ram::AddressingMode::Absolute { address } => address,
        ram::AddressingMode::AbsoluteX { address, x } => address.wrapping_add(x as u16),
        ram::AddressingMode::AbsoluteY { address, y } => address.wrapping_add(y as u16),
        ram::AddressingMode::IndirectX { address, x } =>
            ram::read_u16_spec(AddressMap::Cpu, mem, ((address + x) % 256) as u16),
        ram::AddressingMode::IndirectY { address, y } =>
            ram::read_u16_spec(AddressMap::Cpu, mem, address as u16).wrapping_add(y as u16),
    }
}

/// Whether resolving the descriptor crosses a page: adding the index to
/// the low byte of the base address overflows past `0xFF`.
pub open spec fn am_page_cross_spec(am: ram::AddressingMode, mem: Seq<u8>) -> bool {
    match am {
        ram::AddressingMode::AbsoluteX { address, x } => address % 256 + x > 0xff,
        ram::AddressingMode::AbsoluteY { address, y } => address % 256 + y > 0xff,
        ram::AddressingMode::IndirectY { address, y } =>
            ram::read_u16_spec(AddressMap::Cpu, mem, address as u16) % 256 + y > 0xff,
        _ => false,
    }
}

/// Resolves the descriptor to its effective address; reads no registers
/// and triggers no bridge side effects (zero-page pointer fetches go to
/// raw memory).
fn resolve_target(emulator: &Emulator, am: ram::AddressingMode) -> (r: u16)
    requires
        emulator@.wf(),
    ensures
        r == am_target_spec(am, emulator@.cpu.memory),
{
    match am {
        ram::AddressingMode::ZeroPage { address } => address as u16,
        ram::AddressingMode::ZeroPageX { address, x } => (address as u16 + x as u16) % 256,
        ram::AddressingMode::ZeroPageY { address, y } => (address as u16 + y as u16) % 256,
        ram::AddressingMode::Absolute { address } => address,
        ram::AddressingMode::AbsoluteX { address, x } => address.wrapping_add(x as u16),
        ram::AddressingMode::AbsoluteY { address, y } => address.wrapping_add(y as u16),
        ram::AddressingMode::IndirectX { address, x } => {
            let pointer = (address as u16 + x as u16) % 256;
            ram::read_u16(AddressMap::Cpu, &emulator.cpu.memory, pointer)
        },
        ram::AddressingMode::IndirectY { address, y } => {
            let base = ram::read_u16(AddressMap::Cpu, &emulator.cpu.memory, address as u16);
            base.wrapping_add(y as u16)
        },
    }
}

/// Reads the operand an addressing-mode descriptor names, through the
/// register bridge, and reports whether a page boundary was crossed.
pub fn read_with_addressing_mode(emulator: &mut Emulator, addressing_mode: ram::AddressingMode)
    -> (r: (u8, bool))
    requires
        old(emulator)@.wf(),
    ensures
        final(emulator)@ == read8_spec(
            old(emulator)@,
            am_target_spec(addressing_mode, old(emulator)@.cpu.memory),
        ).0,
        r.0 == read8_spec(
            old(emulator)@,
            am_target_spec(addressing_mode, old(emulator)@.cpu.memory),
        ).1,
        r.1 == am_page_cross_spec(addressing_mode, old(emulator)@.cpu.memory),
        final(emulator).rom == old(emulator).rom,
        final(emulator)@.wf(),
{
    let target = resolve_target(emulator, addressing_mode);
    let page_cross = match addressing_mode {
        ram::AddressingMode::AbsoluteX { address, x } => address % 256 + x as u16 > 0xff,
        ram::AddressingMode::AbsoluteY { address, y } => address % 256 + y as u16 > 0xff,
        ram::AddressingMode::IndirectY { address, y } => {
            let base = ram::read_u16(AddressMap::Cpu, &emulator.cpu.memory, address as u16);
            base % 256 + y as u16 > 0xff
        },
        _ => false,
    };
    let value = read_u8(emulator, target);
    (value, page_cross)
}

/// Writes one byte to the address an addressing-mode descriptor names,
/// through the register bridge.
pub fn write_with_addressing_mode(
    emulator: &mut Emulator,
    value: u8,
    addressing_mode: ram::AddressingMode,
)
    requires
        old(emulator)@.wf(),
    ensures
        final(emulator)@ == write8_spec(
            old(emulator)@,
            am_target_spec(addressing_mode, old(emulator)@.cpu.memory),
            value,
        ),
        final(emulator).rom == old(emulator).rom,
        final(emulator)@.wf(),
{
    let target = resolve_target(emulator, addressing_mode);
    write_byte(emulator, target, value);
}

// ---------------------------------------------------------------------
// Program fetch.

/// What reading the next program byte yields: the byte at the program
/// counter, with the counter advanced by one, modulo the space.
pub open spec fn fetch_byte_spec(e: EmuView) -> (EmuView, u8) {
    let pc = e.cpu.registers.pc;
    (
        with_registers(e, Registers { pc: pc.wrapping_add(1), ..e.cpu.registers }),
        ram::read_u8_spec(AddressMap::Cpu, e.cpu.memory, pc),
    )
}

/// Reads the next program byte and advances the program counter.
pub fn read_program_byte(emulator: &mut Emulator) -> (r: u8)
    requires
        old(emulator)@.wf(),
    ensures
        final(emulator)@ == fetch_byte_spec(old(emulator)@).0,
        r == fetch_byte_spec(old(emulator)@).1,
        final(emulator).rom == old(emulator).rom,
        final(emulator)@.wf(),
{
    let v = ram::read_u8(AddressMap::Cpu, &emulator.cpu.memory, emulator.cpu.registers.pc);
    emulator.cpu.registers.pc = emulator.cpu.registers.pc.wrapping_add(1);
    v
}

/// What reading the next program word yields: the little-endian word at
/// the program counter, with the counter advanced by two.
pub open spec fn fetch_word_spec(e: EmuView) -> (EmuView, u16) {
    let pc = e.cpu.registers.pc;
    (
        with_registers(e, Registers { pc: pc.wrapping_add(2), ..e.cpu.registers }),
        ram::read_u16_spec(AddressMap::Cpu, e.cpu.memory, pc),
    )
}

/// Reads the next program word and advances the program counter by two.
pub fn read_program_word(emulator: &mut Emulator) -> (r: u16)
    requires
        old(emulator)@.wf(),
    ensures
        final(emulator)@ == fetch_word_spec(old(emulator)@).0,
        r == fetch_word_spec(old(emulator)@).1,
        final(emulator).rom == old(emulator).rom,
        final(emulator)@.wf(),
{
    let v = ram::read_u16(AddressMap::Cpu, &emulator.cpu.memory, emulator.cpu.registers.pc);
    emulator.cpu.registers.pc = emulator.cpu.registers.pc.wrapping_add(2);
    v
}

// ---------------------------------------------------------------------
// The stack, at `0x0100 + SP`, growing downwards.

/// What a stack push does: the byte lands at `0x0100 + SP`, then the
/// stack pointer decrements, wrapping inside page one.
pub open spec fn stack_push8_spec(e: EmuView, value: u8) -> EmuView {
    let sp = e.cpu.registers.sp;
    let e1 = with_cpu_memory(e, e.cpu.memory.update(0x100 + sp as int, value));
    with_registers(e1, Registers { sp: sp.wrapping_sub(1), ..e.cpu.registers })
}

/// What a stack pop does: the stack pointer increments, wrapping inside
/// page one, then the byte comes from `0x0100 + SP`.
pub open spec fn stack_pop8_spec(e: EmuView) -> (EmuView, u8) {
    let sp = e.cpu.registers.sp.wrapping_add(1);
    (
        with_registers(e, Registers { sp, ..e.cpu.registers }),
        e.cpu.memory[0x100 + sp as int],
    )
}

/// A 16-bit push is two pushes, high byte first.
pub open spec fn stack_push16_spec(e: EmuView, value: u16) -> EmuView {
    stack_push8_spec(stack_push8_spec(e, (value / 256) as u8), (value % 256) as u8)
}

/// A 16-bit pop is two pops, low byte first.
pub open spec fn stack_pop16_spec(e: EmuView) -> (EmuView, u16) {
    let first = stack_pop8_spec(e);
    let second = stack_pop8_spec(first.0);
    (second.0, (first.1 + 256 * second.1) as u16)
}

/// Pushes one byte onto the stack.
pub fn write_stack_u8(emulator: &mut Emulator, value: u8)
    requires
        old(emulator)@.wf(),
    ensures
        final(emulator)@ == stack_push8_spec(old(emulator)@, value),
        final(emulator).rom == old(emulator).rom,
        final(emulator)@.wf(),
{
    let sp = emulator.cpu.registers.sp;
    ram::write_u8(AddressMap::Cpu, &mut emulator.cpu.memory, 0x0100 + sp as u16, value);
    emulator.cpu.registers.sp = sp.wrapping_sub(1);
}

/// Pushes a word onto the stack, high byte first.
pub fn write_stack_u16(emulator: &mut Emulator, value: u16)
    requires
        old(emulator)@.wf(),
    ensures
        final(emulator)@ == stack_push16_spec(old(emulator)@, value),
        final(emulator).rom == old(emulator).rom,
        final(emulator)@.wf(),
{
    write_stack_u8(emulator, (value / 256) as u8);
    write_stack_u8(emulator, (value % 256) as u8);
}

/// Pops one byte off the stack.
pub fn read_stack_u8(emulator: &mut Emulator) -> (r: u8)
    requires
        old(emulator)@.wf(),
    ensures
        final(emulator)@ == stack_pop8_spec(old(emulator)@).0,
        r == stack_pop8_spec(old(emulator)@).1,
        final(emulator).rom == old(emulator).rom,
        final(emulator)@.wf(),
{
    let sp = emulator.cpu.registers.sp.wrapping_add(1);
    emulator.cpu.registers.sp = sp;
    ram::read_u8(AddressMap::Cpu, &emulator.cpu.memory, 0x0100 + sp as u16)
}

/// Pops a word off the stack, low byte first.
pub fn read_stack_u16(emulator: &mut Emulator) -> (r: u16)
    requires
        old(emulator)@.wf(),
    ensures
        final(emulator)@ == stack_pop16_spec(old(emulator)@).0,
        r == stack_pop16_spec(old(emulator)@).1,
        final(emulator).rom == old(emulator).rom,
        final(emulator)@.wf(),
{
    let lower = read_stack_u8(emulator);
    let upper = read_stack_u8(emulator);
    lower as u16 + 256 * (upper as u16)
}

// ---------------------------------------------------------------------
// Operand fetch by mode.

/// What fetching an addressing-mode descriptor does: the operand bytes
/// come from the program counter and pair with the index register the
/// mode names.  Modes that carry no operand leave the state alone.
pub open spec fn fetch_addressing_spec(e: EmuView, mode: opcodes::Mode)
    -> (EmuView, ram::AddressingMode) {
    match mode {
        opcodes::Mode::ZeroPage => {
            let f = fetch_byte_spec(e);
            (f.0, ram::AddressingMode::ZeroPage { address: f.1 })
        },
        opcodes::Mode::ZeroPageX => {
            let f = fetch_byte_spec(e);
            (f.0, ram::AddressingMode::ZeroPageX { address: f.1, x: e.cpu.registers.x })
        },
        opcodes::Mode::ZeroPageY => {
            let f = fetch_byte_spec(e);
            (f.0, ram::AddressingMode::ZeroPageY { address: f.1, y: e.cpu.registers.y })
        },
        opcodes::Mode::Absolute => {
            let f = fetch_word_spec(e);
            (f.0, ram::AddressingMode::Absolute { address: f.1 })
        },
        opcodes::Mode::AbsoluteX => {
            let f = fetch_word_spec(e);
            (f.0, ram::AddressingMode::AbsoluteX { address: f.1, x: e.cpu.registers.x })
        },
        opcodes::Mode::AbsoluteY => {
            let f = fetch_word_spec(e);
            (f.0, ram::AddressingMode::AbsoluteY { address: f.1, y: e.cpu.registers.y })
        },
        opcodes::Mode::IndirectX => {
            let f = fetch_byte_spec(e);
            (f.0, ram::AddressingMode::IndirectX { address: f.1, x: e.cpu.registers.x })
        },
        opcodes::Mode::IndirectY => {
            let f = fetch_byte_spec(e);
            (f.0, ram::AddressingMode::IndirectY { address: f.1, y: e.cpu.registers.y })
        },
        _ => (e, ram::AddressingMode::ZeroPage { address: 0 }),
    }
}

/// Fetches the operand bytes of an addressed mode and builds its
/// descriptor.
pub fn fetch_addressing(emulator: &mut Emulator, mode: opcodes::Mode)
    -> (r: ram::AddressingMode)
    requires
        old(emulator)@.wf(),
    ensures
        final(emulator)@ == fetch_addressing_spec(old(emulator)@, mode).0,
        r == fetch_addressing_spec(old(emulator)@, mode).1,
        final(emulator).rom == old(emulator).rom,
        final(emulator)@.wf(),
{
    match mode {
        opcodes::Mode::ZeroPage => {
            let address = read_program_byte(emulator);
            ram::AddressingMode::ZeroPage { address }
        },
        opcodes::Mode::ZeroPageX => {
            let x = emulator.cpu.registers.x;
            let address = read_program_byte(emulator);
            ram::AddressingMode::ZeroPageX { address, x }
        },
        opcodes::Mode::ZeroPageY => {
            let y = emulator.cpu.registers.y;
            let address = read_program_byte(emulator);
            ram::AddressingMode::ZeroPageY { address, y }
        },
        opcodes::Mode::Absolute => {
            let address = read_program_word(emulator);
            ram::AddressingMode::Absolute { address }
        },
        opcodes::Mode::AbsoluteX => {
            let x = emulator.cpu.registers.x;
            let address = read_program_word(emulator);
            ram::AddressingMode::AbsoluteX { address, x }
        },
        opcodes::Mode::AbsoluteY => {
            let y = emulator.cpu.registers.y;
            let address = read_program_word(emulator);
            ram::AddressingMode::AbsoluteY { address, y }
        },
        opcodes::Mode::IndirectX => {
            let x = emulator.cpu.registers.x;
            let address = read_program_byte(emulator);
            ram::AddressingMode::IndirectX { address, x }
        },
        opcodes::Mode::IndirectY => {
            let y = emulator.cpu.registers.y;
            let address = read_program_byte(emulator);
            ram::AddressingMode::IndirectY { address, y }
        },
        _ => ram::AddressingMode::ZeroPage { address: 0 },
    }
}

/// What fetching an operand value does: an immediate comes straight from
/// the program, anything else resolves its descriptor and reads through
/// the bridge; the third component reports a page crossing.
pub open spec fn fetch_value_spec(e: EmuView, mode: opcodes::Mode) -> (EmuView, u8, bool) {
    if mode == opcodes::Mode::Immediate {
        let f = fetch_byte_spec(e);
        (f.0, f.1, false)
    } else {
        let fa = fetch_addressing_spec(e, mode);
        let t = am_target_spec(fa.1, fa.0.cpu.memory);
        let rr = read8_spec(fa.0, t);
        (rr.0, rr.1, am_page_cross_spec(fa.1, fa.0.cpu.memory))
    }
}

/// Fetches the operand value of a read instruction, reporting page
/// crossings.
pub fn fetch_value(emulator: &mut Emulator, mode: opcodes::Mode) -> (r: (u8, bool))
    requires
        old(emulator)@.wf(),
    ensures
        final(emulator)@ == fetch_value_spec(old(emulator)@, mode).0,
        r.0 == fetch_value_spec(old(emulator)@, mode).1,
        r.1 == fetch_value_spec(old(emulator)@, mode).2,
        final(emulator).rom == old(emulator).rom,
        final(emulator)@.wf(),
{
    if mode == opcodes::Mode::Immediate {
        let v = read_program_byte(emulator);
        (v, false)
    } else {
        let am = fetch_addressing(emulator, mode);
        read_with_addressing_mode(emulator, am)
    }
}

// ---------------------------------------------------------------------
// Instruction execution.

/// The register file after one of the operand-reading operations: the
/// arithmetic and logic ops, the compares, the bit test and the loads.
pub open spec fn read_op_regs_spec(op: opcodes::Op, r: Registers, value: u8) -> Registers {
    match op {
        opcodes::Op::Adc => instructions::adc_spec(r, value),
        opcodes::Op::Sbc => instructions::sbc_spec(r, value),
        opcodes::Op::And => instructions::and_spec(r, value),
        opcodes::Op::Ora => instructions::ora_spec(r, value),
        opcodes::Op::Eor => instructions::eor_spec(r, value),
        opcodes::Op::Bit => instructions::bit_test_spec(r, value),
        opcodes::Op::Cmp =>
            Registers { status: instructions::compare_spec(r.status, r.a, value), ..r },
        opcodes::Op::Cpx =>
            Registers { status: instructions::compare_spec(r.status, r.x, value), ..r },
        opcodes::Op::Cpy =>
            Registers { status: instructions::compare_spec(r.status, r.y, value), ..r },
        opcodes::Op::Lda =>
            Registers { a: value, status: instructions::nz_spec(r.status, value), ..r },
        opcodes::Op::Ldx =>
            Registers { x: value, status: instructions::nz_spec(r.status, value), ..r },
        opcodes::Op::Ldy =>
            Registers { y: value, status: instructions::nz_spec(r.status, value), ..r },
        _ => r,
    }
}

/// Applies an operand-reading operation to the register file.
#[verifier::rlimit(100)]
fn apply_read_op(emulator: &mut Emulator, op: opcodes::Op, value: u8)
    requires
        old(emulator)@.wf(),
    ensures
        final(emulator)@ == with_registers(
            old(emulator)@,
            read_op_regs_spec(op, old(emulator)@.cpu.registers, value),
        ),
        final(emulator).rom == old(emulator).rom,
        final(emulator)@.wf(),
{
    match op {
        opcodes::Op::Adc => instructions::adc(emulator, value),
        opcodes::Op::Sbc => instructions::sbc(emulator, value),
        opcodes::Op::And => instructions::and(emulator, value),
        opcodes::Op::Ora => instructions::ora(emulator, value),
        opcodes::Op::Eor => instructions::eor(emulator, value),
        opcodes::Op::Bit => instructions::bit_test(emulator, value),
        opcodes::Op::Cmp => instructions::cmp(emulator, value),
        opcodes::Op::Cpx => instructions::cpx(emulator, value),
        opcodes::Op::Cpy => instructions::cpy(emulator, value),
        opcodes::Op::Lda => {
            emulator.cpu.registers.a = value;
            emulator.cpu.registers.status.z = value == 0;
            emulator.cpu.registers.status.n = value & 0x80 == 0x80;
        },
        opcodes::Op::Ldx => {
            emulator.cpu.registers.x = value;
            emulator.cpu.registers.status.z = value == 0;
            emulator.cpu.registers.status.n = value & 0x80 == 0x80;
        },
        opcodes::Op::Ldy => {
            emulator.cpu.registers.y = value;
            emulator.cpu.registers.status.z = value == 0;
            emulator.cpu.registers.status.n = value & 0x80 == 0x80;
        },
        _ => {},
    }
}

/// The flags and result of one of the read-modify-write operations: the
/// four shifts and the memory increment and decrement.
pub open spec fn shift_op_spec(op: opcodes::Op, r: Registers, value: u8) -> (Registers, u8) {
    match op {
        opcodes::Op::Asl => instructions::asl_spec(r, value),
        opcodes::Op::Lsr => instructions::lsr_spec(r, value),
        opcodes::Op::Rol => instructions::rol_spec(r, value),
        opcodes::Op::Ror => instructions::ror_spec(r, value),
        opcodes::Op::Inc => instructions::inc_spec(r, value),
        opcodes::Op::Dec => instructions::dec_spec(r, value),
        _ => (r, value),
    }
}

/// Applies a read-modify-write operation, returning the new value.
fn apply_shift_op(emulator: &mut Emulator, op: opcodes::Op, value: u8) -> (r: u8)
    requires
        old(emulator)@.wf(),
    ensures
        final(emulator)@ == with_registers(
            old(emulator)@,
            shift_op_spec(op, old(emulator)@.cpu.registers, value).0,
        ),
        r == shift_op_spec(op, old(emulator)@.cpu.registers, value).1,
        final(emulator).rom == old(emulator).rom,
        final(emulator)@.wf(),
{
    match op {
        opcodes::Op::Asl => instructions::asl(emulator, value),
        opcodes::Op::Lsr => instructions::lsr(emulator, value),
        opcodes::Op::Rol => instructions::rol(emulator, value),
        opcodes::Op::Ror => instructions::ror(emulator, value),
        opcodes::Op::Inc => instructions::inc(emulator, value),
        opcodes::Op::Dec => instructions::dec(emulator, value),
        _ => value,
    }
}

/// What a read-modify-write instruction does: resolve the descriptor,
/// read through the bridge, shift, and write the result back to the same
/// descriptor.
pub open spec fn rmw_spec(e: EmuView, op: opcodes::Op, mode: opcodes::Mode) -> EmuView {
    let fa = fetch_addressing_spec(e, mode);
    let t = am_target_spec(fa.1, fa.0.cpu.memory);
    let rr = read8_spec(fa.0, t);
    let sh = shift_op_spec(op, rr.0.cpu.registers, rr.1);
    let e3 = with_registers(rr.0, sh.0);
    let t2 = am_target_spec(fa.1, e3.cpu.memory);
    write8_spec(e3, t2, sh.1)
}

/// Executes a read-modify-write instruction on memory.
fn execute_rmw(emulator: &mut Emulator, op: opcodes::Op, mode: opcodes::Mode)
    requires
        old(emulator)@.wf(),
    ensures
        final(emulator)@ == rmw_spec(old(emulator)@, op, mode),
        final(emulator).rom == old(emulator).rom,
        final(emulator)@.wf(),
{
    let am = fetch_addressing(emulator, mode);
    let (value, _) = read_with_addressing_mode(emulator, am);
    let result = apply_shift_op(emulator, op, value);
    write_with_addressing_mode(emulator, result, am);
}

/// The flag a branch instruction tests, already resolved against the
/// status register.
pub open spec fn branch_condition_spec(op: opcodes::Op, s: Status) -> bool {
    match op {
        opcodes::Op::Bcc => !s.c,
        opcodes::Op::Bcs => s.c,
        opcodes::Op::Beq => s.z,
        opcodes::Op::Bne => !s.z,
        opcodes::Op::Bmi => s.n,
        opcodes::Op::Bpl => !s.n,
        opcodes::Op::Bvc => !s.v,
        opcodes::Op::Bvs => s.v,
        _ => false,
    }
}

/// What one decoded instruction does to the machine, and the total cycle
/// cost it returns, page-cross and branch bonuses included.
pub open spec fn instr_effect_spec(e: EmuView, instr: opcodes::Instruction) -> (EmuView, u32) {
    let op = instr.op;
    let mode = instr.mode;
    let base = opcodes::base_cycles_spec(op, mode);
    let r0 = e.cpu.registers;
    let s0 = r0.status;
    match op {
        opcodes::Op::Adc | opcodes::Op::Sbc | opcodes::Op::And | opcodes::Op::Ora
        | opcodes::Op::Eor | opcodes::Op::Bit | opcodes::Op::Cmp | opcodes::Op::Cpx
        | opcodes::Op::Cpy | opcodes::Op::Lda | opcodes::Op::Ldx | opcodes::Op::Ldy => {
            let fv = fetch_value_spec(e, mode);
            (
                with_registers(fv.0, read_op_regs_spec(op, fv.0.cpu.registers, fv.1)),
                if fv.2 { (base + 1) as u32 } else { base },
            )
        },
        opcodes::Op::Asl | opcodes::Op::Lsr | opcodes::Op::Rol | opcodes::Op::Ror => {
            if mode == opcodes::Mode::Accumulator {
                let sh = shift_op_spec(op, r0, r0.a);
                (with_registers(e, Registers { a: sh.1, ..sh.0 }), base)
            } else {
                (rmw_spec(e, op, mode), base)
            }
        },
        opcodes::Op::Inc | opcodes::Op::Dec => (rmw_spec(e, op, mode), base),
        opcodes::Op::Bcc | opcodes::Op::Bcs | opcodes::Op::Beq | opcodes::Op::Bne
        | opcodes::Op::Bmi | opcodes::Op::Bpl | opcodes::Op::Bvc | opcodes::Op::Bvs =>
            instructions::branch_spec(e, branch_condition_spec(op, s0)),
        opcodes::Op::Jmp => {
            if mode == opcodes::Mode::Indirect {
                let f = fetch_word_spec(e);
                let ptr = f.1;
                let lo = ram::read_u8_spec(AddressMap::Cpu, f.0.cpu.memory, ptr);
                let hi_addr = if ptr % 256 == 0xff { (ptr - 0xff) as u16 } else {
                    (ptr + 1) as u16
                };
                let hi = ram::read_u8_spec(AddressMap::Cpu, f.0.cpu.memory, hi_addr);
                (with_pc(f.0, (lo + 256 * hi) as u16), base)
            } else {
                let f = fetch_word_spec(e);
                (with_pc(f.0, f.1), base)
            }
        },
        opcodes::Op::Jsr => {
            let f = fetch_word_spec(e);
            (instructions::jsr_spec(f.0, f.1), base)
        },
        opcodes::Op::Rts => {
            let p = stack_pop16_spec(e);
            (with_pc(p.0, p.1.wrapping_add(1)), base)
        },
        opcodes::Op::Rti => {
            let p8 = stack_pop8_spec(e);
            let e1 = with_registers(
                p8.0,
                Registers { status: Status::from_bits_spec(p8.1), ..p8.0.cpu.registers },
            );
            let p16 = stack_pop16_spec(e1);
            (with_pc(p16.0, p16.1), base)
        },
        opcodes::Op::Brk => {
            let ret = r0.pc.wrapping_add(1);
            let e1 = stack_push16_spec(e, ret);
            let s1 = Status { b: true, ..e1.cpu.registers.status };
            let e2 = with_registers(e1, Registers { status: s1, ..e1.cpu.registers });
            let e3 = stack_push8_spec(e2, s1.bits_spec());
            let e4 = with_registers(e3, Registers {
                status: Status { i: true, ..s1 },
                pc: ram::read_u16_spec(AddressMap::Cpu, e3.cpu.memory, 0xfffe),
                ..e3.cpu.registers
            });
            (e4, base)
        },
        opcodes::Op::Pha => (stack_push8_spec(e, r0.a), base),
        opcodes::Op::Php => (stack_push8_spec(e, s0.bits_spec()), base),
        opcodes::Op::Pla => {
            let p = stack_pop8_spec(e);
            (
                with_registers(p.0, Registers {
                    a: p.1,
                    status: instructions::nz_spec(p.0.cpu.registers.status, p.1),
                    ..p.0.cpu.registers
                }),
                base,
            )
        },
        opcodes::Op::Plp => {
            let p = stack_pop8_spec(e);
            (
                with_registers(p.0, Registers {
                    status: Status::from_bits_spec(p.1),
                    ..p.0.cpu.registers
                }),
                base,
            )
        },
        opcodes::Op::Clc =>
            (with_registers(e, Registers { status: Status { c: false, ..s0 }, ..r0 }), base),
        opcodes::Op::Cld =>
            (with_registers(e, Registers { status: Status { d: false, ..s0 }, ..r0 }), base),
        opcodes::Op::Cli =>
            (with_registers(e, Registers { status: Status { i: false, ..s0 }, ..r0 }), base),
        opcodes::Op::Clv =>
            (with_registers(e, Registers { status: Status { v: false, ..s0 }, ..r0 }), base),
        opcodes::Op::Sec =>
            (with_registers(e, Registers { status: Status { c: true, ..s0 }, ..r0 }), base),
        opcodes::Op::Sed =>
            (with_registers(e, Registers { status: Status { d: true, ..s0 }, ..r0 }), base),
        opcodes::Op::Sei =>
            (with_registers(e, Registers { status: Status { i: true, ..s0 }, ..r0 }), base),
        opcodes::Op::Inx => {
            let t = instructions::inc_spec(r0, r0.x);
            (with_registers(e, Registers { x: t.1, ..t.0 }), base)
        },
        opcodes::Op::Iny => {
            let t = instructions::inc_spec(r0, r0.y);
            (with_registers(e, Registers { y: t.1, ..t.0 }), base)
        },
        opcodes::Op::Dex => {
            let t = instructions::dec_spec(r0, r0.x);
            (with_registers(e, Registers { x: t.1, ..t.0 }), base)
        },
        opcodes::Op::Dey => {
            let t = instructions::dec_spec(r0, r0.y);
            (with_registers(e, Registers { y: t.1, ..t.0 }), base)
        },
        opcodes::Op::Tax => (
            with_registers(e, Registers {
                x: r0.a, status: instructions::nz_spec(s0, r0.a), ..r0
            }),
            base,
        ),
        opcodes::Op::Tay => (
            with_registers(e, Registers {
                y: r0.a, status: instructions::nz_spec(s0, r0.a), ..r0
            }),
            base,
        ),
        opcodes::Op::Txa => (
            with_registers(e, Registers {
                a: r0.x, status: instructions::nz_spec(s0, r0.x), ..r0
            }),
            base,
        ),
        opcodes::Op::Tya => (
            with_registers(e, Registers {
                a: r0.y, status: instructions::nz_spec(s0, r0.y), ..r0
            }),
            base,
        ),
        opcodes::Op::Tsx => (
            with_registers(e, Registers {
                x: r0.sp, status: instructions::nz_spec(s0, r0.sp), ..r0
            }),
            base,
        ),
        opcodes::Op::Txs => (with_registers(e, Registers { sp: r0.x, ..r0 }), base),
        opcodes::Op::Sta => {
            let fa = fetch_addressing_spec(e, mode);
            let t = am_target_spec(fa.1, fa.0.cpu.memory);
            (write8_spec(fa.0, t, r0.a), base)
        },
        opcodes::Op::Stx => {
            let fa = fetch_addressing_spec(e, mode);
            let t = am_target_spec(fa.1, fa.0.cpu.memory);
            (write8_spec(fa.0, t, r0.x), base)
        },
        opcodes::Op::Sty => {
            let fa = fetch_addressing_spec(e, mode);
            let t = am_target_spec(fa.1, fa.0.cpu.memory);
            (write8_spec(fa.0, t, r0.y), base)
        },
        opcodes::Op::Nop => (e, base),
    }
}

/// Executes an operand-reading instruction: the arithmetic and logic
/// ops, the compares, the bit test and the loads, with the page-cross
/// bonus on the indexed modes.
#[verifier::rlimit(100)]
#[verifier::spinoff_prover]
fn execute_read_group(emulator: &mut Emulator, instruction: opcodes::Instruction)
    -> (cycles: u32)
    requires
        old(emulator)@.wf(),
        instruction.op == opcodes::Op::Adc || instruction.op == opcodes::Op::Sbc
            || instruction.op == opcodes::Op::And || instruction.op == opcodes::Op::Ora
            || instruction.op == opcodes::Op::Eor || instruction.op == opcodes::Op::Bit
            || instruction.op == opcodes::Op::Cmp || instruction.op == opcodes::Op::Cpx
            || instruction.op == opcodes::Op::Cpy || instruction.op == opcodes::Op::Lda
            || instruction.op == opcodes::Op::Ldx || instruction.op == opcodes::Op::Ldy,
    ensures
        final(emulator)@ == instr_effect_spec(old(emulator)@, instruction).0,
        cycles == instr_effect_spec(old(emulator)@, instruction).1,
        2 <= cycles <= 8,
        final(emulator).rom == old(emulator).rom,
        final(emulator)@.wf(),
{
    let base = opcodes::base_cycles(instruction.op, instruction.mode);
    let (value, crossed) = fetch_value(emulator, instruction.mode);
    apply_read_op(emulator, instruction.op, value);
    if crossed { base + 1 } else { base }
}

/// Executes a shift, rotate, or memory increment or decrement, on the
/// accumulator or through a read-modify-write on memory.
#[verifier::rlimit(100)]
#[verifier::spinoff_prover]
fn execute_rmw_group(emulator: &mut Emulator, instruction: opcodes::Instruction)
    -> (cycles: u32)
    requires
        old(emulator)@.wf(),
        instruction.op == opcodes::Op::Asl || instruction.op == opcodes::Op::Lsr
            || instruction.op == opcodes::Op::Rol || instruction.op == opcodes::Op::Ror
            || instruction.op == opcodes::Op::Inc || instruction.op == opcodes::Op::Dec,
    ensures
        final(emulator)@ == instr_effect_spec(old(emulator)@, instruction).0,
        cycles == instr_effect_spec(old(emulator)@, instruction).1,
        2 <= cycles <= 8,
        final(emulator).rom == old(emulator).rom,
        final(emulator)@.wf(),
{
    let op = instruction.op;
    let mode = instruction.mode;
    let base = opcodes::base_cycles(op, mode);
    let acc = match op {
        opcodes::Op::Asl | opcodes::Op::Lsr | opcodes::Op::Rol | opcodes::Op::Ror =>
            mode == opcodes::Mode::Accumulator,
        _ => false,
    };
    if acc {
        let a = emulator.cpu.registers.a;
        let result = apply_shift_op(emulator, op, a);
        emulator.cpu.registers.a = result;
    } else {
        execute_rmw(emulator, op, mode);
    }
    base
}

/// Executes a conditional branch.
#[verifier::rlimit(100)]
#[verifier::spinoff_prover]
fn execute_branch_group(emulator: &mut Emulator, instruction: opcodes::Instruction)
    -> (cycles: u32)
    requires
        old(emulator)@.wf(),
        instruction.op == opcodes::Op::Bcc || instruction.op == opcodes::Op::Bcs
            || instruction.op == opcodes::Op::Beq || instruction.op == opcodes::Op::Bne
            || instruction.op == opcodes::Op::Bmi || instruction.op == opcodes::Op::Bpl
            || instruction.op == opcodes::Op::Bvc || instruction.op == opcodes::Op::Bvs,
    ensures
        final(emulator)@ == instr_effect_spec(old(emulator)@, instruction).0,
        cycles == instr_effect_spec(old(emulator)@, instruction).1,
        2 <= cycles <= 8,
        final(emulator).rom == old(emulator).rom,
        final(emulator)@.wf(),
{
    let s = emulator.cpu.registers.status;
    let condition = match instruction.op {
        opcodes::Op::Bcc => !s.c,
        opcodes::Op::Bcs => s.c,
        opcodes::Op::Beq => s.z,
        opcodes::Op::Bne => !s.z,
        opcodes::Op::Bmi => s.n,
        opcodes::Op::Bpl => !s.n,
        opcodes::Op::Bvc => !s.v,
        _ => s.v,
    };
    instructions::relative_branch(emulator, condition)
}

/// Executes the jumps, the subroutine pair, the interrupt return, and
/// the software interrupt.
#[verifier::rlimit(100)]
#[verifier::spinoff_prover]
fn execute_jump_group(emulator: &mut Emulator, instruction: opcodes::Instruction)
    -> (cycles: u32)
    requires
        old(emulator)@.wf(),
        instruction.op == opcodes::Op::Jmp || instruction.op == opcodes::Op::Jsr
            || instruction.op == opcodes::Op::Rts || instruction.op == opcodes::Op::Rti
            || instruction.op == opcodes::Op::Brk,
    ensures
        final(emulator)@ == instr_effect_spec(old(emulator)@, instruction).0,
        cycles == instr_effect_spec(old(emulator)@, instruction).1,
        2 <= cycles <= 8,
        final(emulator).rom == old(emulator).rom,
        final(emulator)@.wf(),
{
    let mode = instruction.mode;
    let base = opcodes::base_cycles(instruction.op, mode);
    match instruction.op {
        opcodes::Op::Jmp => {
            if mode == opcodes::Mode::Indirect {
                let ptr = read_program_word(emulator);
                let lo = ram::read_u8(AddressMap::Cpu, &emulator.cpu.memory, ptr);
                let hi_addr: u16 = if ptr % 256 == 0xff { ptr - 0xff } else { ptr + 1 };
                let hi = ram::read_u8(AddressMap::Cpu, &emulator.cpu.memory, hi_addr);
                instructions::jmp(emulator, lo as u16 + 256 * (hi as u16));
            } else {
                let address = read_program_word(emulator);
                instructions::jmp(emulator, address);
            }
        },
        opcodes::Op::Jsr => {
            let address = read_program_word(emulator);
            instructions::jsr(emulator, address);
        },
        opcodes::Op::Rts => {
            let v = read_stack_u16(emulator);
            emulator.cpu.registers.pc = v.wrapping_add(1);
        },
        opcodes::Op::Rti => {
            let bits = read_stack_u8(emulator);
            emulator.cpu.registers.status = Status::from_bits(bits);
            let v = read_stack_u16(emulator);
            emulator.cpu.registers.pc = v;
        },
        _ => {
            let ret = emulator.cpu.registers.pc.wrapping_add(1);
            write_stack_u16(emulator, ret);
            emulator.cpu.registers.status.b = true;
            let bits = emulator.cpu.registers.status.bits();
            write_stack_u8(emulator, bits);
            emulator.cpu.registers.status.i = true;
            emulator.cpu.registers.pc =
                ram::read_u16(AddressMap::Cpu, &emulator.cpu.memory, 0xfffe);
        },
    }
    base
}

/// Executes the four stack operations.
#[verifier::rlimit(100)]
#[verifier::spinoff_prover]
fn execute_stack_group(emulator: &mut Emulator, instruction: opcodes::Instruction)
    -> (cycles: u32)
    requires
        old(emulator)@.wf(),
        instruction.op == opcodes::Op::Pha || instruction.op == opcodes::Op::Php
            || instruction.op == opcodes::Op::Pla || instruction.op == opcodes::Op::Plp,
    ensures
        final(emulator)@ == instr_effect_spec(old(emulator)@, instruction).0,
        cycles == instr_effect_spec(old(emulator)@, instruction).1,
        2 <= cycles <= 8,
        final(emulator).rom == old(emulator).rom,
        final(emulator)@.wf(),
{
    let base = opcodes::base_cycles(instruction.op, instruction.mode);
    match instruction.op {
        opcodes::Op::Pha => {
            let a = emulator.cpu.registers.a;
            write_stack_u8(emulator, a);
        },
        opcodes::Op::Php => {
            let bits = emulator.cpu.registers.status.bits();
            write_stack_u8(emulator, bits);
        },
        opcodes::Op::Pla => {
            let v = read_stack_u8(emulator);
            emulator.cpu.registers.a = v;
            emulator.cpu.registers.status.z = v == 0;
            emulator.cpu.registers.status.n = v & 0x80 == 0x80;
        },
        _ => {
            let v = read_stack_u8(emulator);
            emulator.cpu.registers.status = Status::from_bits(v);
        },
    }
    base
}

/// Executes the flag sets and clears, and NOP.
#[verifier::rlimit(100)]
#[verifier::spinoff_prover]
fn execute_flag_group(emulator: &mut Emulator, instruction: opcodes::Instruction)
    -> (cycles: u32)
    requires
        old(emulator)@.wf(),
        instruction.op == opcodes::Op::Clc || instruction.op == opcodes::Op::Cld
            || instruction.op == opcodes::Op::Cli || instruction.op == opcodes::Op::Clv
            || instruction.op == opcodes::Op::Sec || instruction.op == opcodes::Op::Sed
            || instruction.op == opcodes::Op::Sei || instruction.op == opcodes::Op::Nop,
    ensures
        final(emulator)@ == instr_effect_spec(old(emulator)@, instruction).0,
        cycles == instr_effect_spec(old(emulator)@, instruction).1,
        2 <= cycles <= 8,
        final(emulator).rom == old(emulator).rom,
        final(emulator)@.wf(),
{
    let base = opcodes::base_cycles(instruction.op, instruction.mode);
    match instruction.op {
        opcodes::Op::Clc => { emulator.cpu.registers.status.c = false; },
        opcodes::Op::Cld => { emulator.cpu.registers.status.d = false; },
        opcodes::Op::Cli => { emulator.cpu.registers.status.i = false; },
        opcodes::Op::Clv => { emulator.cpu.registers.status.v = false; },
        opcodes::Op::Sec => { emulator.cpu.registers.status.c = true; },
        opcodes::Op::Sed => { emulator.cpu.registers.status.d = true; },
        opcodes::Op::Sei => { emulator.cpu.registers.status.i = true; },
        _ => {},
    }
    base
}

/// Executes the register increments and decrements.
#[verifier::rlimit(100)]
#[verifier::spinoff_prover]
fn execute_incdec_group(emulator: &mut Emulator, instruction: opcodes::Instruction)
    -> (cycles: u32)
    requires
        old(emulator)@.wf(),
        instruction.op == opcodes::Op::Inx || instruction.op == opcodes::Op::Iny
            || instruction.op == opcodes::Op::Dex || instruction.op == opcodes::Op::Dey,
    ensures
        final(emulator)@ == instr_effect_spec(old(emulator)@, instruction).0,
        cycles == instr_effect_spec(old(emulator)@, instruction).1,
        2 <= cycles <= 8,
        final(emulator).rom == old(emulator).rom,
        final(emulator)@.wf(),
{
    let base = opcodes::base_cycles(instruction.op, instruction.mode);
    match instruction.op {
        opcodes::Op::Inx => {
            let x = emulator.cpu.registers.x;
            let result = instructions::inc(emulator, x);
            emulator.cpu.registers.x = result;
        },
        opcodes::Op::Iny => {
            let y = emulator.cpu.registers.y;
            let result = instructions::inc(emulator, y);
            emulator.cpu.registers.y = result;
        },
        opcodes::Op::Dex => {
            let x = emulator.cpu.registers.x;
            let result = instructions::dec(emulator, x);
            emulator.cpu.registers.x = result;
        },
        _ => {
            let y = emulator.cpu.registers.y;
            let result = instructions::dec(emulator, y);
            emulator.cpu.registers.y = result;
        },
    }
    base
}

/// Executes the register transfers.
#[verifier::rlimit(100)]
#[verifier::spinoff_prover]
fn execute_transfer_group(emulator: &mut Emulator, instruction: opcodes::Instruction)
    -> (cycles: u32)
    requires
        old(emulator)@.wf(),
        instruction.op == opcodes::Op::Tax || instruction.op == opcodes::Op::Tay
            || instruction.op == opcodes::Op::Txa || instruction.op == opcodes::Op::Tya
            || instruction.op == opcodes::Op::Tsx || instruction.op == opcodes::Op::Txs,
    ensures
        final(emulator)@ == instr_effect_spec(old(emulator)@, instruction).0,
        cycles == instr_effect_spec(old(emulator)@, instruction).1,
        2 <= cycles <= 8,
        final(emulator).rom == old(emulator).rom,
        final(emulator)@.wf(),
{
    let base = opcodes::base_cycles(instruction.op, instruction.mode);
    match instruction.op {
        opcodes::Op::Tax => {
            let a = emulator.cpu.registers.a;
            emulator.cpu.registers.x = a;
            emulator.cpu.registers.status.z = a == 0;
            emulator.cpu.registers.status.n = a & 0x80 == 0x80;
        },
        opcodes::Op::Tay => {
            let a = emulator.cpu.registers.a;
            emulator.cpu.registers.y = a;
            emulator.cpu.registers.status.z = a == 0;
            emulator.cpu.registers.status.n = a & 0x80 == 0x80;
        },
        opcodes::Op::Txa => {
            let x = emulator.cpu.registers.x;
            emulator.cpu.registers.a = x;
            emulator.cpu.registers.status.z = x == 0;
            emulator.cpu.registers.status.n = x & 0x80 == 0x80;
        },
        opcodes::Op::Tya => {
            let y = emulator.cpu.registers.y;
            emulator.cpu.registers.a = y;
            emulator.cpu.registers.status.z = y == 0;
            emulator.cpu.registers.status.n = y & 0x80 == 0x80;
        },
        opcodes::Op::Tsx => {
            let sp = emulator.cpu.registers.sp;
            emulator.cpu.registers.x = sp;
            emulator.cpu.registers.status.z = sp == 0;
            emulator.cpu.registers.status.n = sp & 0x80 == 0x80;
        },
        _ => {
            let x = emulator.cpu.registers.x;
            emulator.cpu.registers.sp = x;
        },
    }
    base
}

/// Executes a store.
#[verifier::rlimit(100)]
#[verifier::spinoff_prover]
fn execute_store_group(emulator: &mut Emulator, instruction: opcodes::Instruction)
    -> (cycles: u32)
    requires
        old(emulator)@.wf(),
        instruction.op == opcodes::Op::Sta || instruction.op == opcodes::Op::Stx
            || instruction.op == opcodes::Op::Sty,
    ensures
        final(emulator)@ == instr_effect_spec(old(emulator)@, instruction).0,
        cycles == instr_effect_spec(old(emulator)@, instruction).1,
        2 <= cycles <= 8,
        final(emulator).rom == old(emulator).rom,
        final(emulator)@.wf(),
{
    let base = opcodes::base_cycles(instruction.op, instruction.mode);
    let value = match instruction.op {
        opcodes::Op::Sta => emulator.cpu.registers.a,
        opcodes::Op::Stx => emulator.cpu.registers.x,
        _ => emulator.cpu.registers.y,
    };
    let am = fetch_addressing(emulator, instruction.mode);
    write_with_addressing_mode(emulator, value, am);
    base
}

/// Executes one decoded instruction, returning its total cycle cost,
/// page-cross and branch bonuses included.
pub fn execute_instruction(emulator: &mut Emulator, instruction: opcodes::Instruction)
    -> (cycles: u32)
    requires
        old(emulator)@.wf(),
    ensures
        final(emulator)@ == instr_effect_spec(old(emulator)@, instruction).0,
        cycles == instr_effect_spec(old(emulator)@, instruction).1,
        2 <= cycles <= 8,
        final(emulator).rom == old(emulator).rom,
        final(emulator)@.wf(),
{
    match instruction.op {
        opcodes::Op::Adc | opcodes::Op::Sbc | opcodes::Op::And | opcodes::Op::Ora
        | opcodes::Op::Eor | opcodes::Op::Bit | opcodes::Op::Cmp | opcodes::Op::Cpx
        | opcodes::Op::Cpy | opcodes::Op::Lda | opcodes::Op::Ldx | opcodes::Op::Ldy =>
            execute_read_group(emulator, instruction),
        opcodes::Op::Asl | opcodes::Op::Lsr | opcodes::Op::Rol | opcodes::Op::Ror
        | opcodes::Op::Inc | opcodes::Op::Dec => execute_rmw_group(emulator, instruction),
        opcodes::Op::Bcc | opcodes::Op::Bcs | opcodes::Op::Beq | opcodes::Op::Bne
        | opcodes::Op::Bmi | opcodes::Op::Bpl | opcodes::Op::Bvc | opcodes::Op::Bvs =>
            execute_branch_group(emulator, instruction),
        opcodes::Op::Jmp | opcodes::Op::Jsr | opcodes::Op::Rts | opcodes::Op::Rti
        | opcodes::Op::Brk => execute_jump_group(emulator, instruction),
        opcodes::Op::Pha | opcodes::Op::Php | opcodes::Op::Pla | opcodes::Op::Plp =>
            execute_stack_group(emulator, instruction),
        opcodes::Op::Sta | opcodes::Op::Stx | opcodes::Op::Sty =>
            execute_store_group(emulator, instruction),
        opcodes::Op::Inx | opcodes::Op::Iny | opcodes::Op::Dex | opcodes::Op::Dey =>
            execute_incdec_group(emulator, instruction),
        opcodes::Op::Tax | opcodes::Op::Tay | opcodes::Op::Txa | opcodes::Op::Tya
        | opcodes::Op::Tsx | opcodes::Op::Txs => execute_transfer_group(emulator, instruction),
        _ => execute_flag_group(emulator, instruction),
    }
}

// ---------------------------------------------------------------------
// The cycle-stepped scheduler.

/// The fault raised when the byte at the program counter is no opcode of
/// the table: execution halts and the offending byte and location are
/// reported.
#[derive(Clone, Copy, Debug, PartialEq, Eq, Structural)]
pub struct UnknownOpcode {
    /// The byte that failed to decode.
    pub opcode: u8,
    /// Where it was fetched.
    pub pc: u16,
}

/// What one scheduler tick does.  While the wait counter is positive it
/// only counts down.  At zero, the opcode at the program counter is
/// fetched and decoded: an unknown byte halts the machine unchanged with
/// a fault; otherwise the counter advances past the opcode, the
/// instruction executes, and the wait counter becomes its cycle cost
/// less the tick itself.
pub open spec fn step_spec(e: EmuView) -> (EmuView, Result<(), UnknownOpcode>) {
    if e.cpu.cycle > 0 {
        (with_cycle(e, (e.cpu.cycle - 1) as u32), Ok(()))
    } else {
        let pc = e.cpu.registers.pc;
        let opcode = ram::read_u8_spec(AddressMap::Cpu, e.cpu.memory, pc);
        match opcodes::decode_spec(opcode) {
            None => (e, Err(UnknownOpcode { opcode, pc })),
            Some(instr) => {
                let e1 = with_pc(e, pc.wrapping_add(1));
                let eff = instr_effect_spec(e1, instr);
                (with_cycle(eff.0, (eff.1 - 1) as u32), Ok(()))
            },
        }
    }
}

/// Advances the CPU by one cycle: executes the next instruction when the
/// wait counter has run out, otherwise just counts it down, so the CPU
/// can be interleaved cycle for cycle with the timing unit.
pub fn run_cycle(emulator: &mut Emulator) -> (r: Result<(), UnknownOpcode>)
    requires
        old(emulator)@.wf(),
    ensures
        final(emulator)@ == step_spec(old(emulator)@).0,
        r == step_spec(old(emulator)@).1,
        final(emulator).rom == old(emulator).rom,
        final(emulator)@.wf(),
{
    if emulator.cpu.cycle == 0 {
        let pc = emulator.cpu.registers.pc;
        let opcode = ram::read_u8(AddressMap::Cpu, &emulator.cpu.memory, pc);
        match opcodes::decode(opcode) {
            None => Err(UnknownOpcode { opcode, pc }),
            Some(instruction) => {
                emulator.cpu.registers.pc = pc.wrapping_add(1);
                let cycles = execute_instruction(emulator, instruction);
                emulator.cpu.cycle = cycles - 1;
                Ok(())
            },
        }
    } else {
        emulator.cpu.cycle = emulator.cpu.cycle - 1;
        Ok(())
    }
}

// ---------------------------------------------------------------------
// Laws of the cycle accounting, the stack and the mirroring.

/// An Absolute,X read costs exactly one cycle more when the operand
/// address crosses a page boundary than when it does not, while a store
/// with the same mode never adds the bonus.
#[verifier::rlimit(30)]
pub proof fn lemma_absolute_x_cycle_penalty(e: EmuView)
    ensures
        ({
            let fa = fetch_addressing_spec(e, opcodes::Mode::AbsoluteX);
            let crossed = am_page_cross_spec(fa.1, fa.0.cpu.memory);
            let lda = opcodes::Instruction {
                op: opcodes::Op::Lda,
                mode: opcodes::Mode::AbsoluteX,
            };
            let sta = opcodes::Instruction {
                op: opcodes::Op::Sta,
                mode: opcodes::Mode::AbsoluteX,
            };
            &&& instr_effect_spec(e, lda).1 == 4 + (if crossed { 1int } else { 0int })
            &&& instr_effect_spec(e, sta).1 == 5
        }),
{
}

/// Pushing a 16-bit value and popping it returns the identical value and
/// leaves the stack pointer where it started, whatever the pointer was.
pub proof fn lemma_stack_round_trip(e: EmuView, value: u16)
    requires
        e.wf(),
    ensures
        stack_pop16_spec(stack_push16_spec(e, value)).1 == value,
        stack_pop16_spec(stack_push16_spec(e, value)).0.cpu.registers.sp
            == e.cpu.registers.sp,
{
}

/// The mirroring invariant: a byte written at `0x0000` is read back
/// through each RAM mirror, and a byte written at register `0x2000` is
/// read back through the register-window mirrors.
pub proof fn lemma_memory_mirroring(e: EmuView, value: u8)
    requires
        e.wf(),
    ensures
        read8_spec(write8_spec(e, 0x0000, value), 0x0800).1 == value,
        read8_spec(write8_spec(e, 0x0000, value), 0x1000).1 == value,
        read8_spec(write8_spec(e, 0x0000, value), 0x1800).1 == value,
        read8_spec(write8_spec(e, 0x2000, value), 0x2008).1 == value,
        read8_spec(write8_spec(e, 0x2000, value), 0x2010).1 == value,
{
}

// ---------------------------------------------------------------------
// Reset and interrupts.

/// The addresses that a reset zeroes: the sound and I/O register block.
pub open spec fn reset_zeroed_spec(a: int) -> bool {
    ||| a == 0x4017
    ||| a == 0x4015
    ||| 0x4000 <= a < 0x400f
    ||| 0x4010 <= a < 0x4013
}

/// Returns the CPU to its power-on register state.
///
/// The program counter loads from the reset vector at `0xFFFC`; the stack
/// pointer becomes `0xFD`; `A`, `X` and `Y` clear; the sound and I/O
/// register block zeroes; a fixed eight-cycle cost is charged.  The
/// status flags and the rest of memory stay as they were.
pub fn reset(emulator: &mut Emulator)
    requires
        old(emulator)@.wf(),
        old(emulator)@.cpu.cycle + 8 <= u32::MAX,
    ensures
        final(emulator)@.cpu.registers == (Registers {
            a: 0,
            x: 0,
            y: 0,
            sp: 0xfd,
            pc: ram::read_u16_spec(AddressMap::Cpu, old(emulator)@.cpu.memory, 0xfffc),
            status: old(emulator)@.cpu.registers.status,
        }),
        final(emulator)@.cpu.cycle == old(emulator)@.cpu.cycle + 8,
        final(emulator)@.cpu.memory.len() == 0x10000,
        forall|j: int| 0 <= j < 0x10000 ==> final(emulator)@.cpu.memory[j] ==
            (if reset_zeroed_spec(j) { 0u8 } else { old(emulator)@.cpu.memory[j] }),
        final(emulator)@.ppu == old(emulator)@.ppu,
        final(emulator).rom == old(emulator).rom,
        final(emulator)@.wf(),
{
    let pc = ram::read_u16(AddressMap::Cpu, &emulator.cpu.memory, 0xfffc);
    emulator.cpu.registers.pc = pc;
    emulator.cpu.registers.sp = 0xfd;
    emulator.cpu.registers.a = 0;
    emulator.cpu.registers.x = 0;
    emulator.cpu.registers.y = 0;

    ram::write_u8(AddressMap::Cpu, &mut emulator.cpu.memory, 0x4017, 0);
    ram::write_u8(AddressMap::Cpu, &mut emulator.cpu.memory, 0x4015, 0);
    let ghost mem_before_blocks = emulator.cpu.memory@;
    let zeros_apu = ppu::zero_vec(0xf);
    ram::write_block(AddressMap::Cpu, &mut emulator.cpu.memory, 0x4000, &zeros_apu);
    let ghost mem_mid = emulator.cpu.memory@;
    let zeros_dmc = ppu::zero_vec(0x3);
    ram::write_block(AddressMap::Cpu, &mut emulator.cpu.memory, 0x4010, &zeros_dmc);

    emulator.cpu.cycle = emulator.cpu.cycle + 8;
    proof {
        ram::lemma_write_block_identity(AddressMap::Cpu, mem_before_blocks, 0x4000, zeros_apu@);
        ram::lemma_write_block_identity(AddressMap::Cpu, mem_mid, 0x4010, zeros_dmc@);
    }
}

/// What entering an interrupt does: the program counter and the status
/// byte (break flag clear, interrupt-disable set) push onto the stack,
/// the handler address loads from `vector`, and `cycles` is charged.
pub open spec fn interrupt_spec(e: EmuView, vector: u16, cycles: u32) -> EmuView {
    let e1 = stack_push16_spec(e, e.cpu.registers.pc);
    let s = Status { b: false, i: true, ..e1.cpu.registers.status };
    let e2 = with_registers(e1, Registers { status: s, ..e1.cpu.registers });
    let e3 = stack_push8_spec(e2, s.bits_spec());
    let e4 = with_pc(e3, ram::read_u16_spec(AddressMap::Cpu, e3.cpu.memory, vector));
    with_cycle(e4, (e4.cpu.cycle + cycles) as u32)
}

/// Services a maskable interrupt request: suppressed while the
/// interrupt-disable flag is set, otherwise enters the handler at the
/// vector `0xFFFE` and charges seven cycles.
pub fn irq(emulator: &mut Emulator)
    requires
        old(emulator)@.wf(),
        old(emulator)@.cpu.cycle + 8 <= u32::MAX,
    ensures
        old(emulator)@.cpu.registers.status.i ==> *final(emulator) == *old(emulator),
        !old(emulator)@.cpu.registers.status.i ==>
            final(emulator)@ == interrupt_spec(old(emulator)@, 0xfffe, 7),
        final(emulator).rom == old(emulator).rom,
        final(emulator)@.wf(),
{
    if !emulator.cpu.registers.status.i {
        let pc = emulator.cpu.registers.pc;
        write_stack_u16(emulator, pc);
        emulator.cpu.registers.status.b = false;
        emulator.cpu.registers.status.i = true;
        let bits = emulator.cpu.registers.status.bits();
        write_stack_u8(emulator, bits);
        emulator.cpu.registers.pc =
            ram::read_u16(AddressMap::Cpu, &emulator.cpu.memory, 0xfffe);
        emulator.cpu.cycle = emulator.cpu.cycle + 7;
    }
}

/// Services a non-maskable interrupt: unconditionally enters the handler
/// at the vector `0xFFFA` and charges eight cycles.
pub fn nmi(emulator: &mut Emulator)
    requires
        old(emulator)@.wf(),
        old(emulator)@.cpu.cycle + 8 <= u32::MAX,
    ensures
        final(emulator)@ == interrupt_spec(old(emulator)@, 0xfffa, 8),
        final(emulator).rom == old(emulator).rom,
        final(emulator)@.wf(),
{
    let pc = emulator.cpu.registers.pc;
    write_stack_u16(emulator, pc);
    emulator.cpu.registers.status.b = false;
    emulator.cpu.registers.status.i = true;
    let bits = emulator.cpu.registers.status.bits();
    write_stack_u8(emulator, bits);
    emulator.cpu.registers.pc = ram::read_u16(AddressMap::Cpu, &emulator.cpu.memory, 0xfffa);
    emulator.cpu.cycle = emulator.cpu.cycle + 8;
}

} // verus!
