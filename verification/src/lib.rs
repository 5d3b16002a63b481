//! A cycle-stepped emulation core for the 6502-family CPU of a classic
//! 8-bit home computer, together with the memory-mapped bridge to its
//! graphics timing unit.
//!
//! The crate models the mirrored 64KB address space, the register file and
//! status flags, the eight addressing modes with their page-cross cycle
//! penalties, the official opcode set, and the scanline/cycle counters of
//! the timing unit.  Every state change is specified and verified down to
//! the exact bytes written and cycles charged.

pub mod config;
pub mod cpu;
pub mod ppu;
pub mod ram;
pub mod rom;
