//! The opcode dispatch table: each opcode byte decodes to an operation
//! kind and an addressing mode, a closed pair of enums, so that both the
//! executor and its specification can match on them exhaustively.
//!
//! The table covers the official instruction set.  Lookup is a direct
//! match on the byte; a byte outside the table decodes to `None` and the
//! scheduler reports it as an unknown-opcode fault.

use vstd::prelude::*;

verus! {

/// The operation an opcode selects.
#[derive(Clone, Copy, Debug, PartialEq, Eq, Structural)]
pub enum Op {
    Adc, And, Asl, Bcc, Bcs, Beq, Bit, Bmi, Bne, Bpl, Brk, Bvc, Bvs,
    Clc, Cld, Cli, Clv, Cmp, Cpx, Cpy, Dec, Dex, Dey, Eor, Inc, Inx,
    Iny, Jmp, Jsr, Lda, Ldx, Ldy, Lsr, Nop, Ora, Pha, Php, Pla, Plp,
    Rol, Ror, Rti, Rts, Sbc, Sec, Sed, Sei, Sta, Stx, Sty, Tax, Tay,
    Tsx, Txa, Txs, Tya,
}

/// The addressing mode an opcode selects.
#[derive(Clone, Copy, Debug, PartialEq, Eq, Structural)]
pub enum Mode {
    Implied,
    Accumulator,
    Immediate,
    ZeroPage,
    ZeroPageX,
    ZeroPageY,
    Absolute,
    AbsoluteX,
    AbsoluteY,
    Indirect,
    IndirectX,
    IndirectY,
    Relative,
}

/// A decoded instruction: the tagged pair an opcode byte stands for.
#[derive(Clone, Copy, Debug, PartialEq, Eq, Structural)]
pub struct Instruction {
    /// Operation kind.
    pub op: Op,
    /// Addressing mode.
    pub mode: Mode,
}

/// Instruction length in bytes, the opcode byte included.
pub open spec fn instruction_length_spec(mode: Mode) -> u16 {
    match mode {
        Mode::Implied => 1,
        Mode::Accumulator => 1,
        Mode::Immediate => 2,
        Mode::ZeroPage => 2,
        Mode::ZeroPageX => 2,
        Mode::ZeroPageY => 2,
        Mode::Absolute => 3,
        Mode::AbsoluteX => 3,
        Mode::AbsoluteY => 3,
        Mode::Indirect => 3,
        Mode::IndirectX => 2,
        Mode::IndirectY => 2,
        Mode::Relative => 2,
    }
}

/// Instruction length in bytes, the opcode byte included.
pub fn instruction_length(mode: Mode) -> (r: u16)
    ensures
        r == instruction_length_spec(mode),
{
    match mode {
        Mode::Implied => 1,
        Mode::Accumulator => 1,
        Mode::Immediate => 2,
        Mode::ZeroPage => 2,
        Mode::ZeroPageX => 2,
        Mode::ZeroPageY => 2,
        Mode::Absolute => 3,
        Mode::AbsoluteX => 3,
        Mode::AbsoluteY => 3,
        Mode::Indirect => 3,
        Mode::IndirectX => 2,
        Mode::IndirectY => 2,
        Mode::Relative => 2,
    }
}

/// Base cycle cost of an instruction, before any page-cross or
/// branch-taken bonus.
pub open spec fn base_cycles_spec(op: Op, mode: Mode) -> u32 {
    match op {
        Op::Adc | Op::And | Op::Cmp | Op::Eor | Op::Lda | Op::Ora | Op::Sbc
            | Op::Ldx | Op::Ldy => match mode {
            Mode::Immediate => 2,
            Mode::ZeroPage => 3,
            Mode::ZeroPageX | Mode::ZeroPageY => 4,
            Mode::Absolute | Mode::AbsoluteX | Mode::AbsoluteY => 4,
            Mode::IndirectX => 6,
            Mode::IndirectY => 5,
            _ => 2,
        },
        Op::Asl | Op::Lsr | Op::Rol | Op::Ror => match mode {
            Mode::Accumulator => 2,
            Mode::ZeroPage => 5,
            Mode::ZeroPageX => 6,
            Mode::Absolute => 6,
            Mode::AbsoluteX => 7,
            _ => 2,
        },
        Op::Inc | Op::Dec => match mode {
            Mode::ZeroPage => 5,
            Mode::ZeroPageX => 6,
            Mode::Absolute => 6,
            Mode::AbsoluteX => 7,
            _ => 2,
        },
        Op::Bit | Op::Cpx | Op::Cpy => match mode {
            Mode::Immediate => 2,
            Mode::ZeroPage => 3,
            Mode::Absolute => 4,
            _ => 2,
        },
        Op::Sta => match mode {
            Mode::ZeroPage => 3,
            Mode::ZeroPageX => 4,
            Mode::Absolute => 4,
            Mode::AbsoluteX | Mode::AbsoluteY => 5,
            Mode::IndirectX | Mode::IndirectY => 6,
            _ => 2,
        },
        Op::Stx | Op::Sty => match mode {
            Mode::ZeroPage => 3,
            Mode::ZeroPageX | Mode::ZeroPageY => 4,
            Mode::Absolute => 4,
            _ => 2,
        },
        Op::Jmp => match mode {
            Mode::Absolute => 3,
            Mode::Indirect => 5,
            _ => 2,
        },
        Op::Jsr => 6,
        Op::Rts => 6,
        Op::Rti => 6,
        Op::Brk => 7,
        Op::Pha | Op::Php => 3,
        Op::Pla | Op::Plp => 4,
        _ => 2,
    }
}

/// Base cycle cost of an instruction, before any page-cross or
/// branch-taken bonus.
pub fn base_cycles(op: Op, mode: Mode) -> (r: u32)
    ensures
        r == base_cycles_spec(op, mode),
{
    match op {
        Op::Adc | Op::And | Op::Cmp | Op::Eor | Op::Lda | Op::Ora | Op::Sbc
            | Op::Ldx | Op::Ldy => match mode {
            Mode::Immediate => 2,
            Mode::ZeroPage => 3,
            Mode::ZeroPageX | Mode::ZeroPageY => 4,
            Mode::Absolute | Mode::AbsoluteX | Mode::AbsoluteY => 4,
            Mode::IndirectX => 6,
            Mode::IndirectY => 5,
            _ => 2,
        },
        Op::Asl | Op::Lsr | Op::Rol | Op::Ror => match mode {
            Mode::Accumulator => 2,
            Mode::ZeroPage => 5,
            Mode::ZeroPageX => 6,
            Mode::Absolute => 6,
            Mode::AbsoluteX => 7,
            _ => 2,
        },
        Op::Inc | Op::Dec => match mode {
            Mode::ZeroPage => 5,
            Mode::ZeroPageX => 6,
            Mode::Absolute => 6,
            Mode::AbsoluteX => 7,
            _ => 2,
        },
        Op::Bit | Op::Cpx | Op::Cpy => match mode {
            Mode::Immediate => 2,
            Mode::ZeroPage => 3,
            Mode::Absolute => 4,
            _ => 2,
        },
        Op::Sta => match mode {
            Mode::ZeroPage => 3,
            Mode::ZeroPageX => 4,
            Mode::Absolute => 4,
            Mode::AbsoluteX | Mode::AbsoluteY => 5,
            Mode::IndirectX | Mode::IndirectY => 6,
            _ => 2,
        },
        Op::Stx | Op::Sty => match mode {
            Mode::ZeroPage => 3,
            Mode::ZeroPageX | Mode::ZeroPageY => 4,
            Mode::Absolute => 4,
            _ => 2,
        },
        Op::Jmp => match mode {
            Mode::Absolute => 3,
            Mode::Indirect => 5,
            _ => 2,
        },
        Op::Jsr => 6,
        Op::Rts => 6,
        Op::Rti => 6,
        Op::Brk => 7,
        Op::Pha | Op::Php => 3,
        Op::Pla | Op::Plp => 4,
        _ => 2,
    }
}

/// The dispatch table: what an opcode byte decodes to, or `None` for a
/// byte outside the official set.
pub open spec fn decode_spec(opcode: u8) -> Option<Instruction> {
    match opcode {
            0x00 => Some(Instruction { op: Op::Brk, mode: Mode::Implied }),
            0x01 => Some(Instruction { op: Op::Ora, mode: Mode::IndirectX }),
            0x05 => Some(Instruction { op: Op::Ora, mode: Mode::ZeroPage }),
            0x06 => Some(Instruction { op: Op::Asl, mode: Mode::ZeroPage }),
            0x08 => Some(Instruction { op: Op::Php, mode: Mode::Implied }),
            0x09 => Some(Instruction { op: Op::Ora, mode: Mode::Immediate }),
            0x0a => Some(Instruction { op: Op::Asl, mode: Mode::Accumulator }),
            0x0d => Some(Instruction { op: Op::Ora, mode: Mode::Absolute }),
            0x0e => Some(Instruction { op: Op::Asl, mode: Mode::Absolute }),
            0x10 => Some(Instruction { op: Op::Bpl, mode: Mode::Relative }),
            0x11 => Some(Instruction { op: Op::Ora, mode: Mode::IndirectY }),
            0x15 => Some(Instruction { op: Op::Ora, mode: Mode::ZeroPageX }),
            0x16 => Some(Instruction { op: Op::Asl, mode: Mode::ZeroPageX }),
            0x18 => Some(Instruction { op: Op::Clc, mode: Mode::Implied }),
            0x19 => Some(Instruction { op: Op::Ora, mode: Mode::AbsoluteY }),
            0x1d => Some(Instruction { op: Op::Ora, mode: Mode::AbsoluteX }),
            0x1e => Some(Instruction { op: Op::Asl, mode: Mode::AbsoluteX }),
            0x20 => Some(Instruction { op: Op::Jsr, mode: Mode::Absolute }),
            0x21 => Some(Instruction { op: Op::And, mode: Mode::IndirectX }),
            0x24 => Some(Instruction { op: Op::Bit, mode: Mode::ZeroPage }),
            0x25 => Some(Instruction { op: Op::And, mode: Mode::ZeroPage }),
            0x26 => Some(Instruction { op: Op::Rol, mode: Mode::ZeroPage }),
            0x28 => Some(Instruction { op: Op::Plp, mode: Mode::Implied }),
            0x29 => Some(Instruction { op: Op::And, mode: Mode::Immediate }),
            0x2a => Some(Instruction { op: Op::Rol, mode: Mode::Accumulator }),
            0x2c => Some(Instruction { op: Op::Bit, mode: Mode::Absolute }),
            0x2d => Some(Instruction { op: Op::And, mode: Mode::Absolute }),
            0x2e => Some(Instruction { op: Op::Rol, mode: Mode::Absolute }),
            0x30 => Some(Instruction { op: Op::Bmi, mode: Mode::Relative }),
            0x31 => Some(Instruction { op: Op::And, mode: Mode::IndirectY }),
            0x35 => Some(Instruction { op: Op::And, mode: Mode::ZeroPageX }),
            0x36 => Some(Instruction { op: Op::Rol, mode: Mode::ZeroPageX }),
            0x38 => Some(Instruction { op: Op::Sec, mode: Mode::Implied }),
            0x39 => Some(Instruction { op: Op::And, mode: Mode::AbsoluteY }),
            0x3d => Some(Instruction { op: Op::And, mode: Mode::AbsoluteX }),
            0x3e => Some(Instruction { op: Op::Rol, mode: Mode::AbsoluteX }),
            0x40 => Some(Instruction { op: Op::Rti, mode: Mode::Implied }),
            0x41 => Some(Instruction { op: Op::Eor, mode: Mode::IndirectX }),
            0x45 => Some(Instruction { op: Op::Eor, mode: Mode::ZeroPage }),
            0x46 => Some(Instruction { op: Op::Lsr, mode: Mode::ZeroPage }),
            0x48 => Some(Instruction { op: Op::Pha, mode: Mode::Implied }),
            0x49 => Some(Instruction { op: Op::Eor, mode: Mode::Immediate }),
            0x4a => Some(Instruction { op: Op::Lsr, mode: Mode::Accumulator }),
            0x4c => Some(Instruction { op: Op::Jmp, mode: Mode::Absolute }),
            0x4d => Some(Instruction { op: Op::Eor, mode: Mode::Absolute }),
            0x4e => Some(Instruction { op: Op::Lsr, mode: Mode::Absolute }),
            0x50 => Some(Instruction { op: Op::Bvc, mode: Mode::Relative }),
            0x51 => Some(Instruction { op: Op::Eor, mode: Mode::IndirectY }),
            0x55 => Some(Instruction { op: Op::Eor, mode: Mode::ZeroPageX }),
            0x56 => Some(Instruction { op: Op::Lsr, mode: Mode::ZeroPageX }),
            0x58 => Some(Instruction { op: Op::Cli, mode: Mode::Implied }),
            0x59 => Some(Instruction { op: Op::Eor, mode: Mode::AbsoluteY }),
            0x5d => Some(Instruction { op: Op::Eor, mode: Mode::AbsoluteX }),
            0x5e => Some(Instruction { op: Op::Lsr, mode: Mode::AbsoluteX }),
            0x60 => Some(Instruction { op: Op::Rts, mode: Mode::Implied }),
            0x61 => Some(Instruction { op: Op::Adc, mode: Mode::IndirectX }),
            0x65 => Some(Instruction { op: Op::Adc, mode: Mode::ZeroPage }),
            0x66 => Some(Instruction { op: Op::Ror, mode: Mode::ZeroPage }),
            0x68 => Some(Instruction { op: Op::Pla, mode: Mode::Implied }),
            0x69 => Some(Instruction { op: Op::Adc, mode: Mode::Immediate }),
            0x6a => Some(Instruction { op: Op::Ror, mode: Mode::Accumulator }),
            0x6c => Some(Instruction { op: Op::Jmp, mode: Mode::Indirect }),
            0x6d => Some(Instruction { op: Op::Adc, mode: Mode::Absolute }),
            0x6e => Some(Instruction { op: Op::Ror, mode: Mode::Absolute }),
            0x70 => Some(Instruction { op: Op::Bvs, mode: Mode::Relative }),
            0x71 => Some(Instruction { op: Op::Adc, mode: Mode::IndirectY }),
            0x75 => Some(Instruction { op: Op::Adc, mode: Mode::ZeroPageX }),
            0x76 => Some(Instruction { op: Op::Ror, mode: Mode::ZeroPageX }),
            0x78 => Some(Instruction { op: Op::Sei, mode: Mode::Implied }),
            0x79 => Some(Instruction { op: Op::Adc, mode: Mode::AbsoluteY }),
            0x7d => Some(Instruction { op: Op::Adc, mode: Mode::AbsoluteX }),
            0x7e => Some(Instruction { op: Op::Ror, mode: Mode::AbsoluteX }),
            0x81 => Some(Instruction { op: Op::Sta, mode: Mode::IndirectX }),
            0x84 => Some(Instruction { op: Op::Sty, mode: Mode::ZeroPage }),
            0x85 => Some(Instruction { op: Op::Sta, mode: Mode::ZeroPage }),
            0x86 => Some(Instruction { op: Op::Stx, mode: Mode::ZeroPage }),
            0x88 => Some(Instruction { op: Op::Dey, mode: Mode::Implied }),
            0x8a => Some(Instruction { op: Op::Txa, mode: Mode::Implied }),
            0x8c => Some(Instruction { op: Op::Sty, mode: Mode::Absolute }),
            0x8d => Some(Instruction { op: Op::Sta, mode: Mode::Absolute }),
            0x8e => Some(Instruction { op: Op::Stx, mode: Mode::Absolute }),
            0x90 => Some(Instruction { op: Op::Bcc, mode: Mode::Relative }),
            0x91 => Some(Instruction { op: Op::Sta, mode: Mode::IndirectY }),
            0x94 => Some(Instruction { op: Op::Sty, mode: Mode::ZeroPageX }),
            0x95 => Some(Instruction { op: Op::Sta, mode: Mode::ZeroPageX }),
            0x96 => Some(Instruction { op: Op::Stx, mode: Mode::ZeroPageY }),
            0x98 => Some(Instruction { op: Op::Tya, mode: Mode::Implied }),
            0x99 => Some(Instruction { op: Op::Sta, mode: Mode::AbsoluteY }),
            0x9a => Some(Instruction { op: Op::Txs, mode: Mode::Implied }),
            0x9d => Some(Instruction { op: Op::Sta, mode: Mode::AbsoluteX }),
            0xa0 => Some(Instruction { op: Op::Ldy, mode: Mode::Immediate }),
            0xa1 => Some(Instruction { op: Op::Lda, mode: Mode::IndirectX }),
            0xa2 => Some(Instruction { op: Op::Ldx, mode: Mode::Immediate }),
            0xa4 => Some(Instruction { op: Op::Ldy, mode: Mode::ZeroPage }),
            0xa5 => Some(Instruction { op: Op::Lda, mode: Mode::ZeroPage }),
            0xa6 => Some(Instruction { op: Op::Ldx, mode: Mode::ZeroPage }),
            0xa8 => Some(Instruction { op: Op::Tay, mode: Mode::Implied }),
            0xa9 => Some(Instruction { op: Op::Lda, mode: Mode::Immediate }),
            0xaa => Some(Instruction { op: Op::Tax, mode: Mode::Implied }),
            0xac => Some(Instruction { op: Op::Ldy, mode: Mode::Absolute }),
            0xad => Some(Instruction { op: Op::Lda, mode: Mode::Absolute }),
            0xae => Some(Instruction { op: Op::Ldx, mode: Mode::Absolute }),
            0xb0 => Some(Instruction { op: Op::Bcs, mode: Mode::Relative }),
            0xb1 => Some(Instruction { op: Op::Lda, mode: Mode::IndirectY }),
            0xb4 => Some(Instruction { op: Op::Ldy, mode: Mode::ZeroPageX }),
            0xb5 => Some(Instruction { op: Op::Lda, mode: Mode::ZeroPageX }),
            0xb6 => Some(Instruction { op: Op::Ldx, mode: Mode::ZeroPageY }),
            0xb8 => Some(Instruction { op: Op::Clv, mode: Mode::Implied }),
            0xb9 => Some(Instruction { op: Op::Lda, mode: Mode::AbsoluteY }),
            0xba => Some(Instruction { op: Op::Tsx, mode: Mode::Implied }),
            0xbc => Some(Instruction { op: Op::Ldy, mode: Mode::AbsoluteX }),
            0xbd => Some(Instruction { op: Op::Lda, mode: Mode::AbsoluteX }),
            0xbe => Some(Instruction { op: Op::Ldx, mode: Mode::AbsoluteY }),
            0xc0 => Some(Instruction { op: Op::Cpy, mode: Mode::Immediate }),
            0xc1 => Some(Instruction { op: Op::Cmp, mode: Mode::IndirectX }),
            0xc4 => Some(Instruction { op: Op::Cpy, mode: Mode::ZeroPage }),
            0xc5 => Some(Instruction { op: Op::Cmp, mode: Mode::ZeroPage }),
            0xc6 => Some(Instruction { op: Op::Dec, mode: Mode::ZeroPage }),
            0xc8 => Some(Instruction { op: Op::Iny, mode: Mode::Implied }),
            0xc9 => Some(Instruction { op: Op::Cmp, mode: Mode::Immediate }),
            0xca => Some(Instruction { op: Op::Dex, mode: Mode::Implied }),
            0xcc => Some(Instruction { op: Op::Cpy, mode: Mode::Absolute }),
            0xcd => Some(Instruction { op: Op::Cmp, mode: Mode::Absolute }),
            0xce => Some(Instruction { op: Op::Dec, mode: Mode::Absolute }),
            0xd0 => Some(Instruction { op: Op::Bne, mode: Mode::Relative }),
            0xd1 => Some(Instruction { op: Op::Cmp, mode: Mode::IndirectY }),
            0xd5 => Some(Instruction { op: Op::Cmp, mode: Mode::ZeroPageX }),
            0xd6 => Some(Instruction { op: Op::Dec, mode: Mode::ZeroPageX }),
            0xd8 => Some(Instruction { op: Op::Cld, mode: Mode::Implied }),
            0xd9 => Some(Instruction { op: Op::Cmp, mode: Mode::AbsoluteY }),
            0xdd => Some(Instruction { op: Op::Cmp, mode: Mode::AbsoluteX }),
            0xde => Some(Instruction { op: Op::Dec, mode: Mode::AbsoluteX }),
            0xe0 => Some(Instruction { op: Op::Cpx, mode: Mode::Immediate }),
            0xe1 => Some(Instruction { op: Op::Sbc, mode: Mode::IndirectX }),
            0xe4 => Some(Instruction { op: Op::Cpx, mode: Mode::ZeroPage }),
            0xe5 => Some(Instruction { op: Op::Sbc, mode: Mode::ZeroPage }),
            0xe6 => Some(Instruction { op: Op::Inc, mode: Mode::ZeroPage }),
            0xe8 => Some(Instruction { op: Op::Inx, mode: Mode::Implied }),
            0xe9 => Some(Instruction { op: Op::Sbc, mode: Mode::Immediate }),
            0xea => Some(Instruction { op: Op::Nop, mode: Mode::Implied }),
            0xec => Some(Instruction { op: Op::Cpx, mode: Mode::Absolute }),
            0xed => Some(Instruction { op: Op::Sbc, mode: Mode::Absolute }),
            0xee => Some(Instruction { op: Op::Inc, mode: Mode::Absolute }),
            0xf0 => Some(Instruction { op: Op::Beq, mode: Mode::Relative }),
            0xf1 => Some(Instruction { op: Op::Sbc, mode: Mode::IndirectY }),
            0xf5 => Some(Instruction { op: Op::Sbc, mode: Mode::ZeroPageX }),
            0xf6 => Some(Instruction { op: Op::Inc, mode: Mode::ZeroPageX }),
            0xf8 => Some(Instruction { op: Op::Sed, mode: Mode::Implied }),
            0xf9 => Some(Instruction { op: Op::Sbc, mode: Mode::AbsoluteY }),
            0xfd => Some(Instruction { op: Op::Sbc, mode: Mode::AbsoluteX }),
            0xfe => Some(Instruction { op: Op::Inc, mode: Mode::AbsoluteX }),
            _ => None,
    }
}

/// Looks an opcode byte up in the dispatch table.
#[verifier::rlimit(30)]
pub fn decode(opcode: u8) -> (r: Option<Instruction>)
    ensures
        r == decode_spec(opcode),
{
    match opcode {
            0x00 => Some(Instruction { op: Op::Brk, mode: Mode::Implied }),
            0x01 => Some(Instruction { op: Op::Ora, mode: Mode::IndirectX }),
            0x05 => Some(Instruction { op: Op::Ora, mode: Mode::ZeroPage }),
            0x06 => Some(Instruction { op: Op::Asl, mode: Mode::ZeroPage }),
            0x08 => Some(Instruction { op: Op::Php, mode: Mode::Implied }),
            0x09 => Some(Instruction { op: Op::Ora, mode: Mode::Immediate }),
            0x0a => Some(Instruction { op: Op::Asl, mode: Mode::Accumulator }),
            0x0d => Some(Instruction { op: Op::Ora, mode: Mode::Absolute }),
            0x0e => Some(Instruction { op: Op::Asl, mode: Mode::Absolute }),
            0x10 => Some(Instruction { op: Op::Bpl, mode: Mode::Relative }),
            0x11 => Some(Instruction { op: Op::Ora, mode: Mode::IndirectY }),
            0x15 => Some(Instruction { op: Op::Ora, mode: Mode::ZeroPageX }),
            0x16 => Some(Instruction { op: Op::Asl, mode: Mode::ZeroPageX }),
            0x18 => Some(Instruction { op: Op::Clc, mode: Mode::Implied }),
            0x19 => Some(Instruction { op: Op::Ora, mode: Mode::AbsoluteY }),
            0x1d => Some(Instruction { op: Op::Ora, mode: Mode::AbsoluteX }),
            0x1e => Some(Instruction { op: Op::Asl, mode: Mode::AbsoluteX }),
            0x20 => Some(Instruction { op: Op::Jsr, mode: Mode::Absolute }),
            0x21 => Some(Instruction { op: Op::And, mode: Mode::IndirectX }),
            0x24 => Some(Instruction { op: Op::Bit, mode: Mode::ZeroPage }),
            0x25 => Some(Instruction { op: Op::And, mode: Mode::ZeroPage }),
            0x26 => Some(Instruction { op: Op::Rol, mode: Mode::ZeroPage }),
            0x28 => Some(Instruction { op: Op::Plp, mode: Mode::Implied }),
            0x29 => Some(Instruction { op: Op::And, mode: Mode::Immediate }),
            0x2a => Some(Instruction { op: Op::Rol, mode: Mode::Accumulator }),
            0x2c => Some(Instruction { op: Op::Bit, mode: Mode::Absolute }),
            0x2d => Some(Instruction { op: Op::And, mode: Mode::Absolute }),
            0x2e => Some(Instruction { op: Op::Rol, mode: Mode::Absolute }),
            0x30 => Some(Instruction { op: Op::Bmi, mode: Mode::Relative }),
            0x31 => Some(Instruction { op: Op::And, mode: Mode::IndirectY }),
            0x35 => Some(Instruction { op: Op::And, mode: Mode::ZeroPageX }),
            0x36 => Some(Instruction { op: Op::Rol, mode: Mode::ZeroPageX }),
            0x38 => Some(Instruction { op: Op::Sec, mode: Mode::Implied }),
            0x39 => Some(Instruction { op: Op::And, mode: Mode::AbsoluteY }),
            0x3d => Some(Instruction { op: Op::And, mode: Mode::AbsoluteX }),
            0x3e => Some(Instruction { op: Op::Rol, mode: Mode::AbsoluteX }),
            0x40 => Some(Instruction { op: Op::Rti, mode: Mode::Implied }),
            0x41 => Some(Instruction { op: Op::Eor, mode: Mode::IndirectX }),
            0x45 => Some(Instruction { op: Op::Eor, mode: Mode::ZeroPage }),
            0x46 => Some(Instruction { op: Op::Lsr, mode: Mode::ZeroPage }),
            0x48 => Some(Instruction { op: Op::Pha, mode: Mode::Implied }),
            0x49 => Some(Instruction { op: Op::Eor, mode: Mode::Immediate }),
            0x4a => Some(Instruction { op: Op::Lsr, mode: Mode::Accumulator }),
            0x4c => Some(Instruction { op: Op::Jmp, mode: Mode::Absolute }),
            0x4d => Some(Instruction { op: Op::Eor, mode: Mode::Absolute }),
            0x4e => Some(Instruction { op: Op::Lsr, mode: Mode::Absolute }),
            0x50 => Some(Instruction { op: Op::Bvc, mode: Mode::Relative }),
            0x51 => Some(Instruction { op: Op::Eor, mode: Mode::IndirectY }),
            0x55 => Some(Instruction { op: Op::Eor, mode: Mode::ZeroPageX }),
            0x56 => Some(Instruction { op: Op::Lsr, mode: Mode::ZeroPageX }),
            0x58 => Some(Instruction { op: Op::Cli, mode: Mode::Implied }),
            0x59 => Some(Instruction { op: Op::Eor, mode: Mode::AbsoluteY }),
            0x5d => Some(Instruction { op: Op::Eor, mode: Mode::AbsoluteX }),
            0x5e => Some(Instruction { op: Op::Lsr, mode: Mode::AbsoluteX }),
            0x60 => Some(Instruction { op: Op::Rts, mode: Mode::Implied }),
            0x61 => Some(Instruction { op: Op::Adc, mode: Mode::IndirectX }),
            0x65 => Some(Instruction { op: Op::Adc, mode: Mode::ZeroPage }),
            0x66 => Some(Instruction { op: Op::Ror, mode: Mode::ZeroPage }),
            0x68 => Some(Instruction { op: Op::Pla, mode: Mode::Implied }),
            0x69 => Some(Instruction { op: Op::Adc, mode: Mode::Immediate }),
            0x6a => Some(Instruction { op: Op::Ror, mode: Mode::Accumulator }),
            0x6c => Some(Instruction { op: Op::Jmp, mode: Mode::Indirect }),
            0x6d => Some(Instruction { op: Op::Adc, mode: Mode::Absolute }),
            0x6e => Some(Instruction { op: Op::Ror, mode: Mode::Absolute }),
            0x70 => Some(Instruction { op: Op::Bvs, mode: Mode::Relative }),
            0x71 => Some(Instruction { op: Op::Adc, mode: Mode::IndirectY }),
            0x75 => Some(Instruction { op: Op::Adc, mode: Mode::ZeroPageX }),
            0x76 => Some(Instruction { op: Op::Ror, mode: Mode::ZeroPageX }),
            0x78 => Some(Instruction { op: Op::Sei, mode: Mode::Implied }),
            0x79 => Some(Instruction { op: Op::Adc, mode: Mode::AbsoluteY }),
            0x7d => Some(Instruction { op: Op::Adc, mode: Mode::AbsoluteX }),
            0x7e => Some(Instruction { op: Op::Ror, mode: Mode::AbsoluteX }),
            0x81 => Some(Instruction { op: Op::Sta, mode: Mode::IndirectX }),
            0x84 => Some(Instruction { op: Op::Sty, mode: Mode::ZeroPage }),
            0x85 => Some(Instruction { op: Op::Sta, mode: Mode::ZeroPage }),
            0x86 => Some(Instruction { op: Op::Stx, mode: Mode::ZeroPage }),
            0x88 => Some(Instruction { op: Op::Dey, mode: Mode::Implied }),
            0x8a => Some(Instruction { op: Op::Txa, mode: Mode::Implied }),
            0x8c => Some(Instruction { op: Op::Sty, mode: Mode::Absolute }),
            0x8d => Some(Instruction { op: Op::Sta, mode: Mode::Absolute }),
            0x8e => Some(Instruction { op: Op::Stx, mode: Mode::Absolute }),
            0x90 => Some(Instruction { op: Op::Bcc, mode: Mode::Relative }),
            0x91 => Some(Instruction { op: Op::Sta, mode: Mode::IndirectY }),
            0x94 => Some(Instruction { op: Op::Sty, mode: Mode::ZeroPageX }),
            0x95 => Some(Instruction { op: Op::Sta, mode: Mode::ZeroPageX }),
            0x96 => Some(Instruction { op: Op::Stx, mode: Mode::ZeroPageY }),
            0x98 => Some(Instruction { op: Op::Tya, mode: Mode::Implied }),
            0x99 => Some(Instruction { op: Op::Sta, mode: Mode::AbsoluteY }),
            0x9a => Some(Instruction { op: Op::Txs, mode: Mode::Implied }),
            0x9d => Some(Instruction { op: Op::Sta, mode: Mode::AbsoluteX }),
            0xa0 => Some(Instruction { op: Op::Ldy, mode: Mode::Immediate }),
            0xa1 => Some(Instruction { op: Op::Lda, mode: Mode::IndirectX }),
            0xa2 => Some(Instruction { op: Op::Ldx, mode: Mode::Immediate }),
            0xa4 => Some(Instruction { op: Op::Ldy, mode: Mode::ZeroPage }),
            0xa5 => Some(Instruction { op: Op::Lda, mode: Mode::ZeroPage }),
            0xa6 => Some(Instruction { op: Op::Ldx, mode: Mode::ZeroPage }),
            0xa8 => Some(Instruction { op: Op::Tay, mode: Mode::Implied }),
            0xa9 => Some(Instruction { op: Op::Lda, mode: Mode::Immediate }),
            0xaa => Some(Instruction { op: Op::Tax, mode: Mode::Implied }),
            0xac => Some(Instruction { op: Op::Ldy, mode: Mode::Absolute }),
            0xad => Some(Instruction { op: Op::Lda, mode: Mode::Absolute }),
            0xae => Some(Instruction { op: Op::Ldx, mode: Mode::Absolute }),
            0xb0 => Some(Instruction { op: Op::Bcs, mode: Mode::Relative }),
            0xb1 => Some(Instruction { op: Op::Lda, mode: Mode::IndirectY }),
            0xb4 => Some(Instruction { op: Op::Ldy, mode: Mode::ZeroPageX }),
            0xb5 => Some(Instruction { op: Op::Lda, mode: Mode::ZeroPageX }),
            0xb6 => Some(Instruction { op: Op::Ldx, mode: Mode::ZeroPageY }),
            0xb8 => Some(Instruction { op: Op::Clv, mode: Mode::Implied }),
            0xb9 => Some(Instruction { op: Op::Lda, mode: Mode::AbsoluteY }),
            0xba => Some(Instruction { op: Op::Tsx, mode: Mode::Implied }),
            0xbc => Some(Instruction { op: Op::Ldy, mode: Mode::AbsoluteX }),
            0xbd => Some(Instruction { op: Op::Lda, mode: Mode::AbsoluteX }),
            0xbe => Some(Instruction { op: Op::Ldx, mode: Mode::AbsoluteY }),
            0xc0 => Some(Instruction { op: Op::Cpy, mode: Mode::Immediate }),
            0xc1 => Some(Instruction { op: Op::Cmp, mode: Mode::IndirectX }),
            0xc4 => Some(Instruction { op: Op::Cpy, mode: Mode::ZeroPage }),
            0xc5 => Some(Instruction { op: Op::Cmp, mode: Mode::ZeroPage }),
            0xc6 => Some(Instruction { op: Op::Dec, mode: Mode::ZeroPage }),
            0xc8 => Some(Instruction { op: Op::Iny, mode: Mode::Implied }),
            0xc9 => Some(Instruction { op: Op::Cmp, mode: Mode::Immediate }),
            0xca => Some(Instruction { op: Op::Dex, mode: Mode::Implied }),
            0xcc => Some(Instruction { op: Op::Cpy, mode: Mode::Absolute }),
            0xcd => Some(Instruction { op: Op::Cmp, mode: Mode::Absolute }),
            0xce => Some(Instruction { op: Op::Dec, mode: Mode::Absolute }),
            0xd0 => Some(Instruction { op: Op::Bne, mode: Mode::Relative }),
            0xd1 => Some(Instruction { op: Op::Cmp, mode: Mode::IndirectY }),
            0xd5 => Some(Instruction { op: Op::Cmp, mode: Mode::ZeroPageX }),
            0xd6 => Some(Instruction { op: Op::Dec, mode: Mode::ZeroPageX }),
            0xd8 => Some(Instruction { op: Op::Cld, mode: Mode::Implied }),
            0xd9 => Some(Instruction { op: Op::Cmp, mode: Mode::AbsoluteY }),
            0xdd => Some(Instruction { op: Op::Cmp, mode: Mode::AbsoluteX }),
            0xde => Some(Instruction { op: Op::Dec, mode: Mode::AbsoluteX }),
            0xe0 => Some(Instruction { op: Op::Cpx, mode: Mode::Immediate }),
            0xe1 => Some(Instruction { op: Op::Sbc, mode: Mode::IndirectX }),
            0xe4 => Some(Instruction { op: Op::Cpx, mode: Mode::ZeroPage }),
            0xe5 => Some(Instruction { op: Op::Sbc, mode: Mode::ZeroPage }),
            0xe6 => Some(Instruction { op: Op::Inc, mode: Mode::ZeroPage }),
            0xe8 => Some(Instruction { op: Op::Inx, mode: Mode::Implied }),
            0xe9 => Some(Instruction { op: Op::Sbc, mode: Mode::Immediate }),
            0xea => Some(Instruction { op: Op::Nop, mode: Mode::Implied }),
            0xec => Some(Instruction { op: Op::Cpx, mode: Mode::Absolute }),
            0xed => Some(Instruction { op: Op::Sbc, mode: Mode::Absolute }),
            0xee => Some(Instruction { op: Op::Inc, mode: Mode::Absolute }),
            0xf0 => Some(Instruction { op: Op::Beq, mode: Mode::Relative }),
            0xf1 => Some(Instruction { op: Op::Sbc, mode: Mode::IndirectY }),
            0xf5 => Some(Instruction { op: Op::Sbc, mode: Mode::ZeroPageX }),
            0xf6 => Some(Instruction { op: Op::Inc, mode: Mode::ZeroPageX }),
            0xf8 => Some(Instruction { op: Op::Sed, mode: Mode::Implied }),
            0xf9 => Some(Instruction { op: Op::Sbc, mode: Mode::AbsoluteY }),
            0xfd => Some(Instruction { op: Op::Sbc, mode: Mode::AbsoluteX }),
            0xfe => Some(Instruction { op: Op::Inc, mode: Mode::AbsoluteX }),
            _ => None,
    }
}

} // verus!
