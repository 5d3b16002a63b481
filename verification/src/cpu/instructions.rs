//! The per-instruction semantics: arithmetic, logic, shifts, compares,
//! branches and jumps, each with flags recomputed from the result by the
//! documented formulas.

use crate::config::Emulator;
use crate::cpu;
use crate::cpu::register::{Registers, Status};
use crate::ram;
use vstd::prelude::*;

verus! {

/// The status with zero and negative recomputed from `result`; the other
/// flags do not move.
pub open spec fn nz_spec(s: Status, result: u8) -> Status {
    Status { z: result == 0, n: result & 0x80 == 0x80, ..s }
}

/// ADC: `total = A + M + C`; `C' = total > 0xFF`; `Z'` from the low byte;
/// `V'` from the signed-overflow bit formula; `N'` from bit 7;
/// `A' = total & 0xFF`.
pub open spec fn adc_spec(r: Registers, value: u8) -> Registers {
    let total = (r.a + value + (if r.status.c { 1int } else { 0int })) as u16;
    Registers {
        a: (total & 0xff) as u8,
        status: Status {
            c: total > 0xff,
            z: total & 0xff == 0,
            v: (((r.a as u16) ^ total) & ((value as u16) ^ total)) & 0x80 == 0x80,
            n: total & 0x80 == 0x80,
            ..r.status
        },
        ..r
    }
}

/// SBC is ADC with the operand complemented (the one's-complement trick).
pub open spec fn sbc_spec(r: Registers, value: u8) -> Registers {
    adc_spec(r, value ^ 0xff)
}

/// Adds the operand and the carry into the accumulator.
pub fn adc(emulator: &mut Emulator, value: u8)
    requires
        old(emulator)@.wf(),
    ensures
        final(emulator)@ == cpu::with_registers(
            old(emulator)@,
            adc_spec(old(emulator)@.cpu.registers, value),
        ),
        final(emulator).rom == old(emulator).rom,
        final(emulator)@.wf(),
{
    let a = emulator.cpu.registers.a;
    let total: u16 = a as u16 + value as u16
        + (if emulator.cpu.registers.status.c { 1 } else { 0 });
    emulator.cpu.registers.status.c = total > 0xff;
    emulator.cpu.registers.status.z = total & 0xff == 0;
    emulator.cpu.registers.status.v =
        (((a as u16) ^ total) & ((value as u16) ^ total)) & 0x80 == 0x80;
    emulator.cpu.registers.status.n = total & 0x80 == 0x80;
    emulator.cpu.registers.a = (total & 0xff) as u8;
}

/// Subtracts the operand with borrow from the accumulator.
pub fn sbc(emulator: &mut Emulator, value: u8)
    requires
        old(emulator)@.wf(),
    ensures
        final(emulator)@ == cpu::with_registers(
            old(emulator)@,
            sbc_spec(old(emulator)@.cpu.registers, value),
        ),
        final(emulator).rom == old(emulator).rom,
        final(emulator)@.wf(),
{
    adc(emulator, value ^ 0xff);
}

/// AND: bitwise and into the accumulator, `Z'`/`N'` from the result.
pub open spec fn and_spec(r: Registers, value: u8) -> Registers {
    Registers { a: r.a & value, status: nz_spec(r.status, r.a & value), ..r }
}

/// Bitwise-ands the operand into the accumulator.
pub fn and(emulator: &mut Emulator, value: u8)
    requires
        old(emulator)@.wf(),
    ensures
        final(emulator)@ == cpu::with_registers(
            old(emulator)@,
            and_spec(old(emulator)@.cpu.registers, value),
        ),
        final(emulator).rom == old(emulator).rom,
        final(emulator)@.wf(),
{
    let result = emulator.cpu.registers.a & value;
    emulator.cpu.registers.status.z = result == 0;
    emulator.cpu.registers.status.n = result & 0x80 == 0x80;
    emulator.cpu.registers.a = result;
}

/// ORA: bitwise or into the accumulator, `Z'`/`N'` from the result.
pub open spec fn ora_spec(r: Registers, value: u8) -> Registers {
    Registers { a: r.a | value, status: nz_spec(r.status, r.a | value), ..r }
}

/// Bitwise-ors the operand into the accumulator.
pub fn ora(emulator: &mut Emulator, value: u8)
    requires
        old(emulator)@.wf(),
    ensures
        final(emulator)@ == cpu::with_registers(
            old(emulator)@,
            ora_spec(old(emulator)@.cpu.registers, value),
        ),
        final(emulator).rom == old(emulator).rom,
        final(emulator)@.wf(),
{
    let result = emulator.cpu.registers.a | value;
    emulator.cpu.registers.status.z = result == 0;
    emulator.cpu.registers.status.n = result & 0x80 == 0x80;
    emulator.cpu.registers.a = result;
}

/// EOR: bitwise exclusive-or into the accumulator, `Z'`/`N'` from the
/// result.
pub open spec fn eor_spec(r: Registers, value: u8) -> Registers {
    Registers { a: r.a ^ value, status: nz_spec(r.status, r.a ^ value), ..r }
}

/// Bitwise-exclusive-ors the operand into the accumulator.
pub fn eor(emulator: &mut Emulator, value: u8)
    requires
        old(emulator)@.wf(),
    ensures
        final(emulator)@ == cpu::with_registers(
            old(emulator)@,
            eor_spec(old(emulator)@.cpu.registers, value),
        ),
        final(emulator).rom == old(emulator).rom,
        final(emulator)@.wf(),
{
    let result = emulator.cpu.registers.a ^ value;
    emulator.cpu.registers.status.z = result == 0;
    emulator.cpu.registers.status.n = result & 0x80 == 0x80;
    emulator.cpu.registers.a = result;
}

/// ASL: shift left by one; `C'` takes the bit shifted out, `Z'`/`N'`
/// come from the result.  Returns the flags and the shifted value.
pub open spec fn asl_spec(r: Registers, value: u8) -> (Registers, u8) {
    let result = value << 1;
    (
        Registers {
            status: Status {
                c: value & 0x80 == 0x80,
                z: result == 0,
                n: result & 0x80 == 0x80,
                ..r.status
            },
            ..r
        },
        result,
    )
}

/// Shifts the value left by one, returning the result.
pub fn asl(emulator: &mut Emulator, value: u8) -> (r: u8)
    requires
        old(emulator)@.wf(),
    ensures
        final(emulator)@ == cpu::with_registers(
            old(emulator)@,
            asl_spec(old(emulator)@.cpu.registers, value).0,
        ),
        r == asl_spec(old(emulator)@.cpu.registers, value).1,
        final(emulator).rom == old(emulator).rom,
        final(emulator)@.wf(),
{
    let result = value << 1u8;
    emulator.cpu.registers.status.c = value & 0x80 == 0x80;
    emulator.cpu.registers.status.z = result == 0;
    emulator.cpu.registers.status.n = result & 0x80 == 0x80;
    result
}

/// LSR: shift right by one; `C'` takes the bit shifted out, `Z'`/`N'`
/// come from the result.
pub open spec fn lsr_spec(r: Registers, value: u8) -> (Registers, u8) {
    let result = value >> 1;
    (
        Registers {
            status: Status {
                c: value & 0x01 == 0x01,
                z: result == 0,
                n: result & 0x80 == 0x80,
                ..r.status
            },
            ..r
        },
        result,
    )
}

/// Shifts the value right by one, returning the result.
pub fn lsr(emulator: &mut Emulator, value: u8) -> (r: u8)
    requires
        old(emulator)@.wf(),
    ensures
        final(emulator)@ == cpu::with_registers(
            old(emulator)@,
            lsr_spec(old(emulator)@.cpu.registers, value).0,
        ),
        r == lsr_spec(old(emulator)@.cpu.registers, value).1,
        final(emulator).rom == old(emulator).rom,
        final(emulator)@.wf(),
{
    let result = value >> 1u8;
    emulator.cpu.registers.status.c = value & 0x01 == 0x01;
    emulator.cpu.registers.status.z = result == 0;
    emulator.cpu.registers.status.n = result & 0x80 == 0x80;
    result
}

/// ROL: rotate left through carry; the old carry fills bit 0 and `C'`
/// takes the bit rotated out.
pub open spec fn rol_spec(r: Registers, value: u8) -> (Registers, u8) {
    let result = (value << 1) | (if r.status.c { 1u8 } else { 0u8 });
    (
        Registers {
            status: Status {
                c: value & 0x80 == 0x80,
                z: result == 0,
                n: result & 0x80 == 0x80,
                ..r.status
            },
            ..r
        },
        result,
    )
}

/// Rotates the value left through the carry, returning the result.
pub fn rol(emulator: &mut Emulator, value: u8) -> (r: u8)
    requires
        old(emulator)@.wf(),
    ensures
        final(emulator)@ == cpu::with_registers(
            old(emulator)@,
            rol_spec(old(emulator)@.cpu.registers, value).0,
        ),
        r == rol_spec(old(emulator)@.cpu.registers, value).1,
        final(emulator).rom == old(emulator).rom,
        final(emulator)@.wf(),
{
    let result = (value << 1u8) | (if emulator.cpu.registers.status.c { 1u8 } else { 0u8 });
    emulator.cpu.registers.status.c = value & 0x80 == 0x80;
    emulator.cpu.registers.status.z = result == 0;
    emulator.cpu.registers.status.n = result & 0x80 == 0x80;
    result
}

/// ROR: rotate right through carry; the old carry fills bit 7 and `C'`
/// takes the bit rotated out.
pub open spec fn ror_spec(r: Registers, value: u8) -> (Registers, u8) {
    let result = (value >> 1) | (if r.status.c { 0x80u8 } else { 0u8 });
    (
        Registers {
            status: Status {
                c: value & 0x01 == 0x01,
                z: result == 0,
                n: result & 0x80 == 0x80,
                ..r.status
            },
            ..r
        },
        result,
    )
}

/// Rotates the value right through the carry, returning the result.
pub fn ror(emulator: &mut Emulator, value: u8) -> (r: u8)
    requires
        old(emulator)@.wf(),
    ensures
        final(emulator)@ == cpu::with_registers(
            old(emulator)@,
            ror_spec(old(emulator)@.cpu.registers, value).0,
        ),
        r == ror_spec(old(emulator)@.cpu.registers, value).1,
        final(emulator).rom == old(emulator).rom,
        final(emulator)@.wf(),
{
    let result = (value >> 1u8) | (if emulator.cpu.registers.status.c { 0x80u8 } else { 0u8 });
    emulator.cpu.registers.status.c = value & 0x01 == 0x01;
    emulator.cpu.registers.status.z = result == 0;
    emulator.cpu.registers.status.n = result & 0x80 == 0x80;
    result
}

/// BIT: `Z'`, `V'` and `N'` from bits of `A & M`; nothing else moves.
pub open spec fn bit_test_spec(r: Registers, value: u8) -> Registers {
    let result = r.a & value;
    Registers {
        status: Status {
            z: result == 0,
            v: result & 0x40 == 0x40,
            n: result & 0x80 == 0x80,
            ..r.status
        },
        ..r
    }
}

/// Tests bits of the operand against the accumulator.
pub fn bit_test(emulator: &mut Emulator, value: u8)
    requires
        old(emulator)@.wf(),
    ensures
        final(emulator)@ == cpu::with_registers(
            old(emulator)@,
            bit_test_spec(old(emulator)@.cpu.registers, value),
        ),
        final(emulator).rom == old(emulator).rom,
        final(emulator)@.wf(),
{
    let result = emulator.cpu.registers.a & value;
    emulator.cpu.registers.status.z = result == 0;
    emulator.cpu.registers.status.v = result & 0x40 == 0x40;
    emulator.cpu.registers.status.n = result & 0x80 == 0x80;
}

/// A compare: `C' = reg >= M`, `Z' = reg == M`, `N' = reg < M`, as a
/// signed 16-bit subtraction would set them.
pub open spec fn compare_spec(s: Status, reg: u8, value: u8) -> Status {
    Status { c: reg >= value, z: reg == value, n: reg < value, ..s }
}

/// Compares the accumulator with the operand.
pub fn cmp(emulator: &mut Emulator, value: u8)
    requires
        old(emulator)@.wf(),
    ensures
        final(emulator)@ == cpu::with_registers(
            old(emulator)@,
            (Registers {
                status: compare_spec(
                    old(emulator)@.cpu.registers.status,
                    old(emulator)@.cpu.registers.a,
                    value,
                ),
                ..old(emulator)@.cpu.registers
            }),
        ),
        final(emulator).rom == old(emulator).rom,
        final(emulator)@.wf(),
{
    let result: i16 = emulator.cpu.registers.a as i16 - value as i16;
    emulator.cpu.registers.status.c = result >= 0;
    emulator.cpu.registers.status.z = result == 0;
    emulator.cpu.registers.status.n = result < 0;
}

/// Compares the X register with the operand.
pub fn cpx(emulator: &mut Emulator, value: u8)
    requires
        old(emulator)@.wf(),
    ensures
        final(emulator)@ == cpu::with_registers(
            old(emulator)@,
            (Registers {
                status: compare_spec(
                    old(emulator)@.cpu.registers.status,
                    old(emulator)@.cpu.registers.x,
                    value,
                ),
                ..old(emulator)@.cpu.registers
            }),
        ),
        final(emulator).rom == old(emulator).rom,
        final(emulator)@.wf(),
{
    let result: i16 = emulator.cpu.registers.x as i16 - value as i16;
    emulator.cpu.registers.status.c = result >= 0;
    emulator.cpu.registers.status.z = result == 0;
    emulator.cpu.registers.status.n = result < 0;
}

/// Compares the Y register with the operand.
pub fn cpy(emulator: &mut Emulator, value: u8)
    requires
        old(emulator)@.wf(),
    ensures
        final(emulator)@ == cpu::with_registers(
            old(emulator)@,
            (Registers {
                status: compare_spec(
                    old(emulator)@.cpu.registers.status,
                    old(emulator)@.cpu.registers.y,
                    value,
                ),
                ..old(emulator)@.cpu.registers
            }),
        ),
        final(emulator).rom == old(emulator).rom,
        final(emulator)@.wf(),
{
    let result: i16 = emulator.cpu.registers.y as i16 - value as i16;
    emulator.cpu.registers.status.c = result >= 0;
    emulator.cpu.registers.status.z = result == 0;
    emulator.cpu.registers.status.n = result < 0;
}

/// DEC: the value minus one, wrapping; `Z'`/`N'` from the result.
pub open spec fn dec_spec(r: Registers, value: u8) -> (Registers, u8) {
    let result = value.wrapping_sub(1);
    (Registers { status: nz_spec(r.status, result), ..r }, result)
}

/// Decrements the value by one, wrapping, returning the result.
pub fn dec(emulator: &mut Emulator, value: u8) -> (r: u8)
    requires
        old(emulator)@.wf(),
    ensures
        final(emulator)@ == cpu::with_registers(
            old(emulator)@,
            dec_spec(old(emulator)@.cpu.registers, value).0,
        ),
        r == dec_spec(old(emulator)@.cpu.registers, value).1,
        final(emulator).rom == old(emulator).rom,
        final(emulator)@.wf(),
{
    let result = value.wrapping_sub(1);
    emulator.cpu.registers.status.z = result == 0;
    emulator.cpu.registers.status.n = result & 0x80 == 0x80;
    result
}

/// INC: the value plus one, wrapping; `Z'`/`N'` from the result.
pub open spec fn inc_spec(r: Registers, value: u8) -> (Registers, u8) {
    let result = value.wrapping_add(1);
    (Registers { status: nz_spec(r.status, result), ..r }, result)
}

/// Increments the value by one, wrapping, returning the result.
pub fn inc(emulator: &mut Emulator, value: u8) -> (r: u8)
    requires
        old(emulator)@.wf(),
    ensures
        final(emulator)@ == cpu::with_registers(
            old(emulator)@,
            inc_spec(old(emulator)@.cpu.registers, value).0,
        ),
        r == inc_spec(old(emulator)@.cpu.registers, value).1,
        final(emulator).rom == old(emulator).rom,
        final(emulator)@.wf(),
{
    let result = value.wrapping_add(1);
    emulator.cpu.registers.status.z = result == 0;
    emulator.cpu.registers.status.n = result & 0x80 == 0x80;
    result
}

/// What a conditional branch does: the offset byte is always fetched;
/// when the branch is taken the program counter moves by the signed
/// offset and the cost is 3 cycles, plus one more when the target lies in
/// another page; a branch not taken costs 2.
pub open spec fn branch_spec(e: crate::config::EmuView, should_branch: bool)
    -> (crate::config::EmuView, u32) {
    let fetched = cpu::fetch_byte_spec(e);
    let offset = fetched.1 as i8;
    if should_branch {
        let pc = fetched.0.cpu.registers.pc;
        let target = ram::relative_target_spec(pc, offset);
        let crossed = ram::relative_page_change_spec(pc, offset);
        (cpu::with_pc(fetched.0, target), if crossed { 4u32 } else { 3u32 })
    } else {
        (fetched.0, 2)
    }
}

/// Fetches the branch offset and, when `should_branch` holds, moves the
/// program counter by it; returns the cycles consumed.
pub fn relative_branch(emulator: &mut Emulator, should_branch: bool) -> (r: u32)
    requires
        old(emulator)@.wf(),
    ensures
        final(emulator)@ == branch_spec(old(emulator)@, should_branch).0,
        r == branch_spec(old(emulator)@, should_branch).1,
        final(emulator).rom == old(emulator).rom,
        final(emulator)@.wf(),
{
    let offset_byte = cpu::read_program_byte(emulator);
    if should_branch {
        let offset = offset_byte as i8;
        let (address, page_change) =
            ram::relative_offset_page_change(emulator.cpu.registers.pc, offset);
        emulator.cpu.registers.pc = address;
        if page_change { 4 } else { 3 }
    } else {
        2
    }
}

/// A branch not taken always costs 2 cycles; a branch taken costs 3,
/// plus exactly 1 more when the target lies in a different page than the
/// instruction that follows the offset byte.
pub proof fn lemma_branch_cycles(e: crate::config::EmuView)
    ensures
        branch_spec(e, false).1 == 2,
        ({
            let fetched = cpu::fetch_byte_spec(e);
            let crossed = ram::relative_page_change_spec(
                fetched.0.cpu.registers.pc,
                fetched.1 as i8,
            );
            branch_spec(e, true).1 == 3 + (if crossed { 1int } else { 0int })
        }),
{
}

/// Loads the program counter.
pub fn jmp(emulator: &mut Emulator, address: u16)
    ensures
        final(emulator)@ == cpu::with_pc(old(emulator)@, address),
        final(emulator).rom == old(emulator).rom,
{
    emulator.cpu.registers.pc = address;
}

/// What JSR does: the return address (the address of the last operand
/// byte, that is `PC - 1`) pushes onto the stack and the program counter
/// loads the target.
pub open spec fn jsr_spec(e: crate::config::EmuView, address: u16) -> crate::config::EmuView {
    let ret = e.cpu.registers.pc.wrapping_sub(1);
    cpu::with_pc(cpu::stack_push16_spec(cpu::with_pc(e, ret), ret), address)
}

/// Jumps to a subroutine, saving the return address on the stack.
pub fn jsr(emulator: &mut Emulator, address: u16)
    requires
        old(emulator)@.wf(),
    ensures
        final(emulator)@ == jsr_spec(old(emulator)@, address),
        final(emulator).rom == old(emulator).rom,
        final(emulator)@.wf(),
{
    let ret = emulator.cpu.registers.pc.wrapping_sub(1);
    emulator.cpu.registers.pc = ret;
    cpu::write_stack_u16(emulator, ret);
    jmp(emulator, address);
}

} // verus!
