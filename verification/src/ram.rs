//! The two mirrored address spaces of the machine.
//!
//! The CPU sees a 64KB space in which `0x0800..0x1FFF` mirrors the 2KB of
//! internal RAM at `0x0000..0x07FF` every `0x800` bytes, and
//! `0x2008..0x3FFF` mirrors the eight graphics-unit registers at
//! `0x2000..0x2007` every 8 bytes.  The graphics unit sees a 16KB space in
//! which `0x3000..0x3EFF` mirrors the name tables at `0x2000..0x2EFF` and
//! everything above `0x3F1F` folds into the 32-byte palette at `0x3F00`.
//!
//! Every read and every write goes through the fold first, so no code path
//! can index a backing array with a raw, unmapped address.

use vstd::arithmetic::div_mod::{lemma_add_mod_noop, lemma_mod_multiples_vanish, lemma_small_mod};
use vstd::prelude::*;

verus! {

/// Number of bytes in the CPU's address space.
pub const CPU_SPACE: usize = 0x10000;

/// Number of bytes in the graphics unit's address space.
pub const PPU_SPACE: usize = 0x4000;

/// An addressing-mode descriptor: the tagged variant an instruction
/// resolves its operand through, carrying the operand bytes and the index
/// register value it was formed with.
#[derive(Clone, Copy, Debug, PartialEq, Eq, Structural)]
pub enum AddressingMode {
    /// Operand is the byte at a zero-page address.
    ZeroPage { address: u8 },
    /// Zero-page address plus X, wrapping within page zero.
    ZeroPageX { address: u8, x: u8 },
    /// Zero-page address plus Y, wrapping within page zero.
    ZeroPageY { address: u8, y: u8 },
    /// A full 16-bit address.
    Absolute { address: u16 },
    /// 16-bit address plus X; crossing a page costs penalised
    /// instructions one extra cycle.
    AbsoluteX { address: u16, x: u8 },
    /// 16-bit address plus Y; crossing a page costs penalised
    /// instructions one extra cycle.
    AbsoluteY { address: u16, y: u8 },
    /// Indexed indirect: the zero-page pointer at `address + X` names the
    /// target.
    IndirectX { address: u8, x: u8 },
    /// Indirect indexed: the zero-page pointer at `address`, plus Y,
    /// names the target.
    IndirectY { address: u8, y: u8 },
}

/// Selects which of the two address spaces a fold applies to.
#[derive(Clone, Copy, Debug, PartialEq, Eq, Structural)]
pub enum AddressMap {
    Cpu,
    Ppu,
}

impl AddressMap {
    /// Size of the backing array this fold targets.
    pub open spec fn size_spec(self) -> int {
        match self {
            AddressMap::Cpu => 0x10000,
            AddressMap::Ppu => 0x4000,
        }
    }

    /// The canonical address that a raw 16-bit address folds to.
    pub open spec fn apply_spec(self, addr: int) -> int {
        match self {
            AddressMap::Cpu => {
                if 0x7ff < addr && addr < 0x2000 {
                    addr % 0x800
                } else if 0x2007 < addr && addr < 0x4000 {
                    0x2000 + addr % 8
                } else {
                    addr
                }
            },
            AddressMap::Ppu => {
                if 0x2fff < addr && addr < 0x3f00 {
                    addr - 0x1000
                } else if addr > 0x3f1f {
                    0x3f00 + addr % 0x20
                } else {
                    addr
                }
            },
        }
    }

    /// Folds a raw address to its canonical mirrored address.  Total over
    /// the 16-bit domain; the result always indexes into the backing array.
    pub fn apply(self, addr: u16) -> (r: usize)
        ensures
            r == self.apply_spec(addr as int),
            0 <= r < self.size_spec(),
    {
        let a = addr as usize;
        match self {
            AddressMap::Cpu => {
                if 0x7ff < a && a < 0x2000 {
                    a % 0x800
                } else if 0x2007 < a && a < 0x4000 {
                    0x2000 + a % 8
                } else {
                    a
                }
            },
            AddressMap::Ppu => {
                if 0x2fff < a && a < 0x3f00 {
                    a - 0x1000
                } else if a > 0x3f1f {
                    0x3f00 + a % 0x20
                } else {
                    a
                }
            },
        }
    }
}

/// What a single byte read yields: the byte at the folded address.
pub open spec fn read_u8_spec(mapper: AddressMap, memory: Seq<u8>, address: u16) -> u8 {
    memory[mapper.apply_spec(address as int)]
}

/// Reads one byte through the fold.
pub fn read_u8(mapper: AddressMap, memory: &Vec<u8>, address: u16) -> (r: u8)
    requires
        memory.len() == mapper.size_spec(),
    ensures
        r == read_u8_spec(mapper, memory@, address),
{
    memory[mapper.apply(address)]
}

/// The 16-bit address that follows `address`, wrapping at the end of the
/// 64KB space.
pub open spec fn next_address_spec(address: u16) -> u16 {
    ((address + 1) % 0x10000) as u16
}

/// What a little-endian word read yields: each of the two bytes is folded
/// on its own, and the high byte wraps around the end of the space.
pub open spec fn read_u16_spec(mapper: AddressMap, memory: Seq<u8>, address: u16) -> u16 {
    (read_u8_spec(mapper, memory, address) +
        256 * read_u8_spec(mapper, memory, next_address_spec(address))) as u16
}

/// Reads a little-endian 16-bit word through the fold.
pub fn read_u16(mapper: AddressMap, memory: &Vec<u8>, address: u16) -> (r: u16)
    requires
        memory.len() == mapper.size_spec(),
    ensures
        r == read_u16_spec(mapper, memory@, address),
{
    let lo = read_u8(mapper, memory, address);
    let hi = read_u8(mapper, memory, address.wrapping_add(1));
    lo as u16 + 256 * (hi as u16)
}

/// Writes one byte through the fold.
pub fn write_u8(mapper: AddressMap, memory: &mut Vec<u8>, address: u16, value: u8)
    requires
        old(memory).len() == mapper.size_spec(),
    ensures
        final(memory)@ == old(memory)@.update(mapper.apply_spec(address as int), value),
{
    let i = mapper.apply(address);
    memory[i] = value;
}

/// The memory that results from writing `data` byte by byte starting at
/// `address`, each byte going through the fold, the address wrapping at the
/// end of the 16-bit space.  Later bytes win where mirrors collide.
pub open spec fn write_block_spec(
    mapper: AddressMap,
    memory: Seq<u8>,
    address: u16,
    data: Seq<u8>,
) -> Seq<u8>
    decreases data.len(),
{
    if data.len() == 0 {
        memory
    } else {
        write_block_spec(
            mapper,
            memory.update(mapper.apply_spec(address as int), data[0]),
            next_address_spec(address),
            data.subrange(1, data.len() as int),
        )
    }
}

/// Writing a block and then one more byte is the same as writing the block
/// extended by that byte.
proof fn lemma_write_block_snoc(
    mapper: AddressMap,
    memory: Seq<u8>,
    address: u16,
    data: Seq<u8>,
    value: u8,
)
    requires
        data.len() < 0x10000,
    ensures
        write_block_spec(mapper, memory, address, data.push(value)) ==
            write_block_spec(mapper, memory, address, data).update(
                mapper.apply_spec((address + data.len()) % 0x10000),
                value,
            ),
    decreases data.len(),
{
    if data.len() == 0 {
        let m1 = memory.update(mapper.apply_spec(address as int), value);
        assert(data.push(value)[0] == value);
        assert(data.push(value).subrange(1, 1) =~= Seq::<u8>::empty());
        assert(write_block_spec(mapper, memory, address, data.push(value)) ==
            write_block_spec(mapper, m1, next_address_spec(address),
                data.push(value).subrange(1, 1)));
        assert(write_block_spec(mapper, m1, next_address_spec(address),
            Seq::<u8>::empty()) == m1);
        assert(write_block_spec(mapper, memory, address, data) == memory);
        lemma_small_mod(address as nat, 0x10000);
    } else {
        let tail = data.subrange(1, data.len() as int);
        assert(data.push(value).subrange(1, data.len() as int + 1) =~= tail.push(value));
        lemma_write_block_snoc(
            mapper,
            memory.update(mapper.apply_spec(address as int), data[0]),
            next_address_spec(address),
            tail,
            value,
        );
        lemma_add_mod_noop(address + 1, tail.len() as int, 0x10000);
        lemma_small_mod(tail.len(), 0x10000);
        assert((next_address_spec(address) + tail.len()) % 0x10000 ==
            (address + data.len()) % 0x10000);
    }
}

/// Inside a region that the fold leaves alone, a block write is plain:
/// the written range holds the data and everything else is untouched.
pub proof fn lemma_write_block_identity(
    mapper: AddressMap,
    memory: Seq<u8>,
    address: u16,
    data: Seq<u8>,
)
    requires
        memory.len() == mapper.size_spec(),
        address + data.len() <= 0x10000,
        forall|j: int| address <= j < address + data.len() ==> mapper.apply_spec(j) == j,
    ensures
        write_block_spec(mapper, memory, address, data).len() == memory.len(),
        forall|j: int| 0 <= j < memory.len() ==>
            write_block_spec(mapper, memory, address, data)[j] ==
                (if address <= j < address + data.len() {
                    data[j - address]
                } else {
                    memory[j]
                }),
    decreases data.len(),
{
    if data.len() == 0 {
    } else {
        let tail = data.subrange(1, data.len() as int);
        assert(mapper.apply_spec(address as int) == address);
        let m1 = memory.update(address as int, data[0]);
        if tail.len() == 0 {
            assert(write_block_spec(mapper, m1, next_address_spec(address), tail) == m1);
        } else {
            lemma_small_mod((address + 1) as nat, 0x10000);
            assert(next_address_spec(address) == address + 1);
            lemma_write_block_identity(mapper, m1, (address + 1) as u16, tail);
        }
    }
}

/// Writes a block of bytes through the fold, starting at `address` and
/// wrapping at the end of the 16-bit space.
pub fn write_block(mapper: AddressMap, memory: &mut Vec<u8>, address: u16, data: &Vec<u8>)
    requires
        old(memory).len() == mapper.size_spec(),
        data.len() <= 0x10000,
    ensures
        final(memory)@ == write_block_spec(mapper, old(memory)@, address, data@),
        final(memory).len() == old(memory).len(),
{
    let ghost orig = memory@;
    let mut i: usize = 0;
    while i < data.len()
        invariant
            i <= data.len(),
            data.len() <= 0x10000,
            memory.len() == mapper.size_spec(),
            memory@ == write_block_spec(mapper, orig, address, data@.subrange(0, i as int)),
        decreases data.len() - i,
    {
        let a = address.wrapping_add(i as u16);
        proof {
            assert(data@.subrange(0, i + 1) =~=
                data@.subrange(0, i as int).push(data@[i as int]));
            lemma_write_block_snoc(mapper, orig, address, data@.subrange(0, i as int),
                data@[i as int]);
            if address + i <= 0xffff {
                lemma_small_mod((address + i) as nat, 0x10000);
            } else {
                lemma_mod_multiples_vanish(1, address + i - 0x10000, 0x10000);
                lemma_small_mod((address + i - 0x10000) as nat, 0x10000);
            }
            assert(a as int == (address + i) % 0x10000);
        }
        write_u8(mapper, memory, a, data[i]);
        i = i + 1;
    }
    proof {
        assert(data@.subrange(0, data.len() as int) =~= data@);
    }
}

/// Reads a block of bytes through the fold, starting at `address` and
/// wrapping at the end of the 16-bit space, into a fresh vector.
pub fn read(mapper: AddressMap, memory: &Vec<u8>, address: u16, number_of_bytes: usize)
    -> (r: Vec<u8>)
    requires
        memory.len() == mapper.size_spec(),
        number_of_bytes <= 0x10000,
    ensures
        r.len() == number_of_bytes,
        forall|k: int| 0 <= k < number_of_bytes ==>
            r@[k] == read_u8_spec(mapper, memory@, ((address + k) % 0x10000) as u16),
{
    let mut r: Vec<u8> = Vec::new();
    let mut i: usize = 0;
    while i < number_of_bytes
        invariant
            i <= number_of_bytes,
            number_of_bytes <= 0x10000,
            memory.len() == mapper.size_spec(),
            r.len() == i,
            forall|k: int| 0 <= k < i ==>
                r@[k] == read_u8_spec(mapper, memory@, ((address + k) % 0x10000) as u16),
        decreases number_of_bytes - i,
    {
        let a = address.wrapping_add(i as u16);
        proof {
            if address + i <= 0xffff {
                lemma_small_mod((address + i) as nat, 0x10000);
            } else {
                lemma_mod_multiples_vanish(1, address + i - 0x10000, 0x10000);
                lemma_small_mod((address + i - 0x10000) as nat, 0x10000);
            }
            assert(a as int == (address + i) % 0x10000);
        }
        let b = read_u8(mapper, memory, a);
        r.push(b);
        i = i + 1;
    }
    r
}

/// The address a signed branch offset leads to, modulo the 64KB space.
pub open spec fn relative_target_spec(address: u16, offset: i8) -> u16 {
    if address + offset < 0 {
        (address + offset + 0x10000) as u16
    } else if address + offset > 0xffff {
        (address + offset - 0x10000) as u16
    } else {
        (address + offset) as u16
    }
}

/// Whether stepping by the offset leaves the 256-byte page of `address`,
/// by the low-byte arithmetic: a non-negative offset overflows past the
/// top of the page, a negative one underflows past its bottom.
pub open spec fn relative_page_change_spec(address: u16, offset: i8) -> bool {
    if offset >= 0 {
        address % 256 + offset > 0xff
    } else {
        -(offset as int) > address % 256
    }
}

/// Adds a signed branch offset to an address, wrapping at the ends of the
/// 64KB space, and reports whether a page boundary was crossed.
pub fn relative_offset_page_change(address: u16, offset: i8) -> (r: (u16, bool))
    ensures
        r.0 == relative_target_spec(address, offset),
        r.1 == relative_page_change_spec(address, offset),
{
    let sum: i32 = address as i32 + offset as i32;
    let target: u16 = if sum < 0 {
        (sum + 0x10000) as u16
    } else if sum > 0xffff {
        (sum - 0x10000) as u16
    } else {
        sum as u16
    };
    let low: u16 = address % 256;
    let page_change: bool = if offset >= 0 {
        low + offset as u16 > 0xff
    } else {
        let magnitude: i32 = -(offset as i32);
        magnitude > low as i32
    };
    (target, page_change)
}

} // verus!
