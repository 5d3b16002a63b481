//! The opcode table, cycle accounting, the scheduler, reset and the
//! interrupts.

use rusty_nes::config::Emulator;
use rusty_nes::cpu;
use rusty_nes::cpu::opcodes::{self, Instruction, Mode, Op};
use rusty_nes::ram::AddressingMode;

fn fresh() -> Emulator {
    Emulator::default()
}

fn decoded(opcode: u8) -> Instruction {
    opcodes::decode(opcode).expect("opcode should be in the table")
}

#[test]
fn decode_covers_the_official_set() {
    assert_eq!(decoded(0x69), Instruction { op: Op::Adc, mode: Mode::Immediate });
    assert_eq!(decoded(0x7d), Instruction { op: Op::Adc, mode: Mode::AbsoluteX });
    assert_eq!(decoded(0x00), Instruction { op: Op::Brk, mode: Mode::Implied });
    assert_eq!(decoded(0x6c), Instruction { op: Op::Jmp, mode: Mode::Indirect });
    assert_eq!(decoded(0x91), Instruction { op: Op::Sta, mode: Mode::IndirectY });
    assert_eq!(decoded(0xb6), Instruction { op: Op::Ldx, mode: Mode::ZeroPageY });
    assert_eq!(decoded(0xea), Instruction { op: Op::Nop, mode: Mode::Implied });
    assert_eq!(decoded(0xf0), Instruction { op: Op::Beq, mode: Mode::Relative });
    // A byte outside the official set decodes to nothing.
    assert!(opcodes::decode(0x02).is_none());
    assert!(opcodes::decode(0xff).is_none());
    let mut official = 0;
    for b in 0..=255u8 {
        if opcodes::decode(b).is_some() {
            official += 1;
        }
    }
    assert_eq!(official, 151);
}

#[test]
fn instruction_lengths_follow_the_mode() {
    assert_eq!(opcodes::instruction_length(Mode::Implied), 1);
    assert_eq!(opcodes::instruction_length(Mode::Immediate), 2);
    assert_eq!(opcodes::instruction_length(Mode::Absolute), 3);
    assert_eq!(opcodes::instruction_length(Mode::IndirectY), 2);
}

#[test]
fn absolute_x_read_pays_for_page_cross() {
    // LDA $02F0,X with X = 0x20 crosses into page 3: 5 cycles.
    let mut emu = fresh();
    emu.cpu.registers.pc = 0x0600;
    emu.cpu.memory[0x0600] = 0xf0;
    emu.cpu.memory[0x0601] = 0x02;
    emu.cpu.registers.x = 0x20;
    emu.cpu.memory[0x0310] = 0x42;
    let cycles = cpu::execute_instruction(&mut emu, decoded(0xbd));
    assert_eq!(cycles, 5);
    assert_eq!(emu.cpu.registers.a, 0x42);

    // The same read without the crossing: 4 cycles, one less.
    let mut emu = fresh();
    emu.cpu.registers.pc = 0x0600;
    emu.cpu.memory[0x0600] = 0xf0;
    emu.cpu.memory[0x0601] = 0x02;
    emu.cpu.registers.x = 0x01;
    emu.cpu.memory[0x02f1] = 0x43;
    let cycles = cpu::execute_instruction(&mut emu, decoded(0xbd));
    assert_eq!(cycles, 4);
    assert_eq!(emu.cpu.registers.a, 0x43);
}

#[test]
fn absolute_x_store_never_pays_the_bonus() {
    // STA $02F0,X crossing a page still costs its flat 5 cycles.
    let mut emu = fresh();
    emu.cpu.registers.pc = 0x0600;
    emu.cpu.memory[0x0600] = 0xf0;
    emu.cpu.memory[0x0601] = 0x02;
    emu.cpu.registers.x = 0x20;
    emu.cpu.registers.a = 0x99;
    let cycles = cpu::execute_instruction(&mut emu, decoded(0x9d));
    assert_eq!(cycles, 5);
    assert_eq!(emu.cpu.memory[0x0310], 0x99);

    // And without the crossing.
    let mut emu = fresh();
    emu.cpu.registers.pc = 0x0600;
    emu.cpu.memory[0x0600] = 0xf0;
    emu.cpu.memory[0x0601] = 0x02;
    emu.cpu.registers.x = 0x01;
    emu.cpu.registers.a = 0x98;
    let cycles = cpu::execute_instruction(&mut emu, decoded(0x9d));
    assert_eq!(cycles, 5);
    assert_eq!(emu.cpu.memory[0x02f1], 0x98);
}

#[test]
fn branch_cycle_accounting() {
    // Not taken: 2 cycles, program counter skips the offset byte.
    let mut emu = fresh();
    emu.cpu.registers.pc = 0x06f1;
    emu.cpu.memory[0x06f1] = 0x7f;
    emu.cpu.registers.status.z = false;
    let cycles = cpu::execute_instruction(&mut emu, decoded(0xf0));
    assert_eq!(cycles, 2);
    assert_eq!(emu.cpu.registers.pc, 0x06f2);

    // Taken within the page: 3 cycles.
    let mut emu = fresh();
    emu.cpu.registers.pc = 0x0610;
    emu.cpu.memory[0x0610] = 0x05;
    emu.cpu.registers.status.z = true;
    let cycles = cpu::execute_instruction(&mut emu, decoded(0xf0));
    assert_eq!(cycles, 3);
    assert_eq!(emu.cpu.registers.pc, 0x0616);

    // Taken across a page boundary: one more cycle.
    let mut emu = fresh();
    emu.cpu.registers.pc = 0x06f1;
    emu.cpu.memory[0x06f1] = 0x7f;
    emu.cpu.registers.status.z = true;
    let cycles = cpu::execute_instruction(&mut emu, decoded(0xf0));
    assert_eq!(cycles, 4);
    assert_eq!(emu.cpu.registers.pc, 0x0771);
}

#[test]
fn jmp_indirect_reproduces_the_page_wrap_quirk() {
    // A pointer whose low byte is 0xFF fetches its high byte from the
    // start of the same page.
    let mut emu = fresh();
    emu.cpu.registers.pc = 0x0600;
    emu.cpu.memory[0x0600] = 0xff;
    emu.cpu.memory[0x0601] = 0x02;
    emu.cpu.memory[0x02ff] = 0x34;
    emu.cpu.memory[0x0200] = 0x12;
    emu.cpu.memory[0x0300] = 0x56;
    let cycles = cpu::execute_instruction(&mut emu, decoded(0x6c));
    assert_eq!(cycles, 5);
    assert_eq!(emu.cpu.registers.pc, 0x1234);

    // An ordinary pointer reads the next byte.
    let mut emu = fresh();
    emu.cpu.registers.pc = 0x0600;
    emu.cpu.memory[0x0600] = 0xfe;
    emu.cpu.memory[0x0601] = 0x02;
    emu.cpu.memory[0x02fe] = 0x34;
    emu.cpu.memory[0x02ff] = 0x12;
    let _ = cpu::execute_instruction(&mut emu, decoded(0x6c));
    assert_eq!(emu.cpu.registers.pc, 0x1234);
}

#[test]
fn jsr_and_rts_pair_through_the_stack() {
    let mut emu = fresh();
    emu.cpu.registers.sp = 0xfd;
    emu.cpu.registers.pc = 0x0600;
    emu.cpu.memory[0x0600] = 0x00;
    emu.cpu.memory[0x0601] = 0x07;
    let cycles = cpu::execute_instruction(&mut emu, decoded(0x20));
    assert_eq!(cycles, 6);
    assert_eq!(emu.cpu.registers.pc, 0x0700);
    // The pushed return address is the last operand byte.
    assert_eq!(emu.cpu.memory[0x01fd], 0x06);
    assert_eq!(emu.cpu.memory[0x01fc], 0x01);

    let cycles = cpu::execute_instruction(&mut emu, decoded(0x60));
    assert_eq!(cycles, 6);
    assert_eq!(emu.cpu.registers.pc, 0x0602);
    assert_eq!(emu.cpu.registers.sp, 0xfd);
}

#[test]
fn stack_and_flag_instructions() {
    let mut emu = fresh();
    emu.cpu.registers.sp = 0xfd;
    emu.cpu.registers.a = 0x3c;
    let cycles = cpu::execute_instruction(&mut emu, decoded(0x48));
    assert_eq!(cycles, 3);
    emu.cpu.registers.a = 0;
    let cycles = cpu::execute_instruction(&mut emu, decoded(0x68));
    assert_eq!(cycles, 4);
    assert_eq!(emu.cpu.registers.a, 0x3c);
    assert!(!emu.cpu.registers.status.z);

    let _ = cpu::execute_instruction(&mut emu, decoded(0x38));
    assert!(emu.cpu.registers.status.c);
    let _ = cpu::execute_instruction(&mut emu, decoded(0x18));
    assert!(!emu.cpu.registers.status.c);

    // PHP then PLP round-trips the status byte.
    emu.cpu.registers.status.n = true;
    emu.cpu.registers.status.c = true;
    let saved = emu.cpu.registers.status;
    let _ = cpu::execute_instruction(&mut emu, decoded(0x08));
    emu.cpu.registers.status.n = false;
    emu.cpu.registers.status.c = false;
    let _ = cpu::execute_instruction(&mut emu, decoded(0x28));
    assert_eq!(emu.cpu.registers.status, saved);
}

#[test]
fn transfers_and_register_steps() {
    let mut emu = fresh();
    emu.cpu.registers.a = 0x80;
    let _ = cpu::execute_instruction(&mut emu, decoded(0xaa));
    assert_eq!(emu.cpu.registers.x, 0x80);
    assert!(emu.cpu.registers.status.n);

    let _ = cpu::execute_instruction(&mut emu, decoded(0xe8));
    assert_eq!(emu.cpu.registers.x, 0x81);

    // TXS moves the pointer and no flags.
    emu.cpu.registers.x = 0x00;
    emu.cpu.registers.status.z = false;
    let _ = cpu::execute_instruction(&mut emu, decoded(0x9a));
    assert_eq!(emu.cpu.registers.sp, 0x00);
    assert!(!emu.cpu.registers.status.z);
}

#[test]
fn rmw_on_memory_writes_back_through_the_mode() {
    // ASL $10 shifts the zero-page byte in place.
    let mut emu = fresh();
    emu.cpu.registers.pc = 0x0600;
    emu.cpu.memory[0x0600] = 0x10;
    emu.cpu.memory[0x0010] = 0b0100_0001;
    let cycles = cpu::execute_instruction(&mut emu, decoded(0x06));
    assert_eq!(cycles, 5);
    assert_eq!(emu.cpu.memory[0x0010], 0b1000_0010);
    assert!(!emu.cpu.registers.status.c);
    assert!(emu.cpu.registers.status.n);

    // INC $0300,X with the 7-cycle flat cost.
    let mut emu = fresh();
    emu.cpu.registers.pc = 0x0600;
    emu.cpu.memory[0x0600] = 0x00;
    emu.cpu.memory[0x0601] = 0x03;
    emu.cpu.registers.x = 2;
    emu.cpu.memory[0x0302] = 0xff;
    let cycles = cpu::execute_instruction(&mut emu, decoded(0xfe));
    assert_eq!(cycles, 7);
    assert_eq!(emu.cpu.memory[0x0302], 0x00);
    assert!(emu.cpu.registers.status.z);
}

#[test]
fn indexed_indirect_modes_resolve_zero_page_pointers() {
    // LDA ($20,X) with X = 4: pointer at $24.
    let mut emu = fresh();
    emu.cpu.registers.pc = 0x0600;
    emu.cpu.memory[0x0600] = 0x20;
    emu.cpu.registers.x = 4;
    emu.cpu.memory[0x0024] = 0x00;
    emu.cpu.memory[0x0025] = 0x03;
    emu.cpu.memory[0x0300] = 0x7b;
    let cycles = cpu::execute_instruction(&mut emu, decoded(0xa1));
    assert_eq!(cycles, 6);
    assert_eq!(emu.cpu.registers.a, 0x7b);

    // LDA ($20),Y crossing a page pays the bonus: 6 cycles.
    let mut emu = fresh();
    emu.cpu.registers.pc = 0x0600;
    emu.cpu.memory[0x0600] = 0x20;
    emu.cpu.registers.y = 0x30;
    emu.cpu.memory[0x0020] = 0xf0;
    emu.cpu.memory[0x0021] = 0x02;
    emu.cpu.memory[0x0320] = 0x7c;
    let cycles = cpu::execute_instruction(&mut emu, decoded(0xb1));
    assert_eq!(cycles, 6);
    assert_eq!(emu.cpu.registers.a, 0x7c);
}

#[test]
fn run_cycle_steps_one_tick_at_a_time() {
    let mut emu = fresh();
    emu.cpu.registers.pc = 0x0600;
    emu.cpu.memory[0x0600] = 0xa9;  // LDA #$42
    emu.cpu.memory[0x0601] = 0x42;
    emu.cpu.memory[0x0602] = 0xea;  // NOP
    assert_eq!(cpu::run_cycle(&mut emu), Ok(()));
    assert_eq!(emu.cpu.registers.a, 0x42);
    assert_eq!(emu.cpu.cycle, 1);
    assert_eq!(emu.cpu.registers.pc, 0x0602);
    // The second tick only counts the wait down.
    assert_eq!(cpu::run_cycle(&mut emu), Ok(()));
    assert_eq!(emu.cpu.cycle, 0);
    assert_eq!(emu.cpu.registers.pc, 0x0602);
    // The third tick fetches the NOP.
    assert_eq!(cpu::run_cycle(&mut emu), Ok(()));
    assert_eq!(emu.cpu.registers.pc, 0x0603);
}

#[test]
fn unknown_opcode_halts_with_a_fault() {
    let mut emu = fresh();
    emu.cpu.registers.pc = 0x0600;
    emu.cpu.memory[0x0600] = 0x02;
    let fault = cpu::run_cycle(&mut emu).unwrap_err();
    assert_eq!(fault.opcode, 0x02);
    assert_eq!(fault.pc, 0x0600);
    // The machine did not move.
    assert_eq!(emu.cpu.registers.pc, 0x0600);
    assert_eq!(emu.cpu.cycle, 0);
}

#[test]
fn reset_loads_the_reset_vector() {
    let mut emu = fresh();
    emu.cpu.memory[0xfffc] = 0x00;
    emu.cpu.memory[0xfffd] = 0xc0;
    emu.cpu.registers.a = 9;
    emu.cpu.registers.x = 9;
    emu.cpu.registers.y = 9;
    cpu::reset(&mut emu);
    assert_eq!(emu.cpu.registers.pc, 0xc000);
    assert_eq!(emu.cpu.registers.sp, 0xfd);
    assert_eq!(emu.cpu.registers.a, 0);
    assert_eq!(emu.cpu.registers.x, 0);
    assert_eq!(emu.cpu.registers.y, 0);
    assert_eq!(emu.cpu.cycle, 8);
    // The sound and I/O register block is zeroed.
    assert_eq!(emu.cpu.memory[0x4015], 0);
    assert_eq!(emu.cpu.memory[0x4017], 0);
}

#[test]
fn brk_and_rti_travel_through_the_vector() {
    let mut emu = fresh();
    emu.cpu.registers.sp = 0xfd;
    emu.cpu.registers.pc = 0x0600;
    emu.cpu.memory[0xfffe] = 0x00;
    emu.cpu.memory[0xffff] = 0x07;
    let cycles = cpu::execute_instruction(&mut emu, decoded(0x00));
    assert_eq!(cycles, 7);
    assert_eq!(emu.cpu.registers.pc, 0x0700);
    assert!(emu.cpu.registers.status.i);
    assert!(emu.cpu.registers.status.b);

    let cycles = cpu::execute_instruction(&mut emu, decoded(0x40));
    assert_eq!(cycles, 6);
    // RTI returns to the byte after the break operand.
    assert_eq!(emu.cpu.registers.pc, 0x0601);
    assert_eq!(emu.cpu.registers.sp, 0xfd);
}

#[test]
fn irq_respects_the_interrupt_disable_flag() {
    let mut emu = fresh();
    emu.cpu.registers.sp = 0xfd;
    emu.cpu.registers.pc = 0x1234;
    emu.cpu.memory[0xfffe] = 0x00;
    emu.cpu.memory[0xffff] = 0x80;
    cpu::irq(&mut emu);
    assert_eq!(emu.cpu.registers.pc, 0x8000);
    assert!(emu.cpu.registers.status.i);
    assert_eq!(emu.cpu.cycle, 7);
    assert_eq!(emu.cpu.memory[0x01fd], 0x12);
    assert_eq!(emu.cpu.memory[0x01fc], 0x34);

    // With the flag already set, nothing happens.
    let mut emu = fresh();
    emu.cpu.registers.status.i = true;
    emu.cpu.registers.pc = 0x1234;
    cpu::irq(&mut emu);
    assert_eq!(emu.cpu.registers.pc, 0x1234);
    assert_eq!(emu.cpu.cycle, 0);
}

#[test]
fn nmi_is_unconditional() {
    let mut emu = fresh();
    emu.cpu.registers.sp = 0xfd;
    emu.cpu.registers.status.i = true;
    emu.cpu.registers.pc = 0x1234;
    emu.cpu.memory[0xfffa] = 0x00;
    emu.cpu.memory[0xfffb] = 0x90;
    cpu::nmi(&mut emu);
    assert_eq!(emu.cpu.registers.pc, 0x9000);
    assert_eq!(emu.cpu.cycle, 8);
}

#[test]
fn program_fetch_advances_the_counter() {
    let mut emu = fresh();
    emu.cpu.registers.pc = 0x0600;
    emu.cpu.memory[0x0600] = 0xab;
    emu.cpu.memory[0x0601] = 0x34;
    emu.cpu.memory[0x0602] = 0x12;
    assert_eq!(cpu::read_program_byte(&mut emu), 0xab);
    assert_eq!(cpu::read_program_word(&mut emu), 0x1234);
    assert_eq!(emu.cpu.registers.pc, 0x0603);
}

#[test]
fn read_with_addressing_mode_reports_crossings() {
    let mut emu = fresh();
    emu.cpu.memory[0x0010] = 0xaa;
    let (v, crossed) = cpu::read_with_addressing_mode(
        &mut emu,
        AddressingMode::ZeroPage { address: 0x10 },
    );
    assert_eq!((v, crossed), (0xaa, false));

    // Zero-page indexing wraps inside page zero.
    emu.cpu.memory[0x0004] = 0xbb;
    let (v, crossed) = cpu::read_with_addressing_mode(
        &mut emu,
        AddressingMode::ZeroPageX { address: 0xf0, x: 0x14 },
    );
    assert_eq!((v, crossed), (0xbb, false));

    emu.cpu.memory[0x0310] = 0xcc;
    let (v, crossed) = cpu::read_with_addressing_mode(
        &mut emu,
        AddressingMode::AbsoluteX { address: 0x02f0, x: 0x20 },
    );
    assert_eq!((v, crossed), (0xcc, true));
}

#[test]
fn write_with_addressing_mode_stores_through_the_mode() {
    let mut emu = fresh();
    cpu::write_with_addressing_mode(
        &mut emu,
        0x5e,
        AddressingMode::AbsoluteY { address: 0x0400, y: 3 },
    );
    assert_eq!(emu.cpu.memory[0x0403], 0x5e);
}

#[test]
fn absolute_y_read_pays_for_page_cross() {
    let mut emu = fresh();
    emu.cpu.registers.pc = 0x0600;
    emu.cpu.memory[0x0600] = 0xf0;
    emu.cpu.memory[0x0601] = 0x02;
    emu.cpu.registers.y = 0x20;
    emu.cpu.memory[0x0310] = 0x21;
    let cycles = cpu::execute_instruction(&mut emu, decoded(0xb9));
    assert_eq!(cycles, 5);
    assert_eq!(emu.cpu.registers.a, 0x21);
}

#[test]
fn loads_and_stores_cover_every_register() {
    let mut emu = fresh();
    emu.cpu.registers.pc = 0x0600;
    emu.cpu.memory[0x0600] = 0x80;  // LDX #$80
    let _ = cpu::execute_instruction(&mut emu, decoded(0xa2));
    assert_eq!(emu.cpu.registers.x, 0x80);
    assert!(emu.cpu.registers.status.n);

    emu.cpu.memory[0x0601] = 0x00;  // LDY #$00
    let _ = cpu::execute_instruction(&mut emu, decoded(0xa0));
    assert_eq!(emu.cpu.registers.y, 0x00);
    assert!(emu.cpu.registers.status.z);

    // STX $30,Y stores through the indexed zero page.
    emu.cpu.registers.y = 0x02;
    emu.cpu.memory[0x0602] = 0x30;
    let cycles = cpu::execute_instruction(&mut emu, decoded(0x96));
    assert_eq!(cycles, 4);
    assert_eq!(emu.cpu.memory[0x0032], 0x80);

    // STY $40 stores the Y register.
    emu.cpu.memory[0x0603] = 0x40;
    let _ = cpu::execute_instruction(&mut emu, decoded(0x84));
    assert_eq!(emu.cpu.memory[0x0040], 0x02);
}

#[test]
fn accumulator_shifts_stay_in_the_register() {
    let mut emu = fresh();
    emu.cpu.registers.a = 0b1000_0000;
    let cycles = cpu::execute_instruction(&mut emu, decoded(0x0a));
    assert_eq!(cycles, 2);
    assert_eq!(emu.cpu.registers.a, 0);
    assert!(emu.cpu.registers.status.c);
    assert!(emu.cpu.registers.status.z);
}
