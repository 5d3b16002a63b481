//! The CPU register file: accumulator, index registers, stack pointer,
//! program counter, and the 8-bit status register.
//!
//! The status register is a typed wrapper over the eight flag bits.  Each
//! flag is a named boolean; `bits` and `from_bits` convert to and from the
//! packed byte with the exact hardware bit positions
//! (`C = 0x01` up to `N = 0x80`).

use vstd::prelude::*;

verus! {

/// The processor status flags.
#[derive(Clone, Copy, Debug, PartialEq, Eq, Structural)]
pub struct Status {
    /// Carry, bit 0.
    pub c: bool,
    /// Zero, bit 1.
    pub z: bool,
    /// Interrupt disable, bit 2.
    pub i: bool,
    /// Decimal mode, bit 3.
    pub d: bool,
    /// Break command, bit 4.
    pub b: bool,
    /// Unused, bit 5.
    pub u: bool,
    /// Overflow, bit 6.
    pub v: bool,
    /// Negative, bit 7.
    pub n: bool,
}

impl Status {
    /// The packed status byte, flag `C` in bit 0 through flag `N` in bit 7.
    pub open spec fn bits_spec(self) -> u8 {
        ((if self.c { 1int } else { 0 }) + (if self.z { 2int } else { 0 })
            + (if self.i { 4int } else { 0 }) + (if self.d { 8int } else { 0 })
            + (if self.b { 16int } else { 0 }) + (if self.u { 32int } else { 0 })
            + (if self.v { 64int } else { 0 }) + (if self.n { 128int } else { 0 })) as u8
    }

    /// Packs the flags into one byte.
    pub fn bits(&self) -> (r: u8)
        ensures
            r == self.bits_spec(),
    {
        (if self.c { 1u8 } else { 0 }) + (if self.z { 2u8 } else { 0 })
            + (if self.i { 4u8 } else { 0 }) + (if self.d { 8u8 } else { 0 })
            + (if self.b { 16u8 } else { 0 }) + (if self.u { 32u8 } else { 0 })
            + (if self.v { 64u8 } else { 0 }) + (if self.n { 128u8 } else { 0 })
    }

    /// The flags encoded by a packed status byte.
    pub open spec fn from_bits_spec(bits: u8) -> Status {
        Status {
            c: bits as int % 2 == 1,
            z: bits as int / 2 % 2 == 1,
            i: bits as int / 4 % 2 == 1,
            d: bits as int / 8 % 2 == 1,
            b: bits as int / 16 % 2 == 1,
            u: bits as int / 32 % 2 == 1,
            v: bits as int / 64 % 2 == 1,
            n: bits as int / 128 % 2 == 1,
        }
    }

    /// Unpacks a status byte into flags.
    pub fn from_bits(bits: u8) -> (r: Status)
        ensures
            r == Status::from_bits_spec(bits),
    {
        Status {
            c: bits % 2 == 1,
            z: bits / 2 % 2 == 1,
            i: bits / 4 % 2 == 1,
            d: bits / 8 % 2 == 1,
            b: bits / 16 % 2 == 1,
            u: bits / 32 % 2 == 1,
            v: bits / 64 % 2 == 1,
            n: bits / 128 % 2 == 1,
        }
    }
}

impl Default for Status {
    /// All flags clear.
    fn default() -> (r: Status)
        ensures
            r == (Status {
                c: false, z: false, i: false, d: false,
                b: false, u: false, v: false, n: false,
            }),
    {
        Status { c: false, z: false, i: false, d: false, b: false, u: false, v: false, n: false }
    }
}

/// Packing the flags and unpacking the byte again yields the same flags.
pub proof fn lemma_status_bits_round_trip(s: Status)
    ensures
        Status::from_bits_spec(s.bits_spec()) == s,
{
}

/// The CPU register file.
#[derive(Clone, Copy, Debug, PartialEq, Eq, Structural)]
pub struct Registers {
    /// Accumulator.
    pub a: u8,
    /// X index register.
    pub x: u8,
    /// Y index register.
    pub y: u8,
    /// Stack pointer; indexes page `0x0100..0x01FF` and wraps modulo 256.
    pub sp: u8,
    /// Program counter, always taken modulo the address-space size.
    pub pc: u16,
    /// Status flags.
    pub status: Status,
}

impl Default for Registers {
    /// All registers zero, all flags clear.
    fn default() -> (r: Registers)
        ensures
            r == (Registers {
                a: 0, x: 0, y: 0, sp: 0, pc: 0,
                status: Status {
                    c: false, z: false, i: false, d: false,
                    b: false, u: false, v: false, n: false,
                },
            }),
    {
        Registers {
            a: 0,
            x: 0,
            y: 0,
            sp: 0,
            pc: 0,
            status: Status {
                c: false, z: false, i: false, d: false,
                b: false, u: false, v: false, n: false,
            },
        }
    }
}

} // verus!
