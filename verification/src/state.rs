//! The mathematical image of the machine: registers, status, program counter
//! and the 64 KiB memory as a sequence of bytes, with the address arithmetic
//! that the memory accessors and the addressing modes share.

use vstd::prelude::*;

verus! {

/// Size of the flat byte-addressable memory.
pub const MEM_SIZE: usize = 0x10000;

/// Where a program blob is placed by the loader.
pub const PRG_START: u16 = 0x8000;

/// The little-endian word here is loaded into PC by reset.
pub const RESET_VECTOR: u16 = 0xFFFC;

/// A snapshot of the whole machine, used by every contract in this crate.
pub struct CpuState {
    pub a: u8,
    pub x: u8,
    pub y: u8,
    pub p: u8,
    pub pc: u16,
    pub mem: Seq<u8>,
}

impl CpuState {
    /// The one structural invariant: memory covers the full 16-bit space.
    pub open spec fn wf(self) -> bool {
        self.mem.len() == MEM_SIZE
    }
}

/// 16-bit address arithmetic wraps modulo 65536.
pub open spec fn wrap_add16(a: u16, b: u16) -> u16 {
    ((a + b) % 0x10000) as u16
}

/// Zero-page pointer arithmetic wraps modulo 256.
pub open spec fn wrap_add8(a: u8, b: u8) -> u8 {
    ((a + b) % 0x100) as u8
}

/// 8-bit subtraction wrapping modulo 256, as the compares use it.
pub open spec fn wrap_sub8(a: u8, b: u8) -> u8 {
    if a >= b {
        (a - b) as u8
    } else {
        (a - b + 0x100) as u8
    }
}

/// The byte stored at a 16-bit address.
pub open spec fn read8(m: Seq<u8>, addr: u16) -> u8 {
    m[addr as int]
}

/// The memory with one byte replaced.
pub open spec fn write8(m: Seq<u8>, addr: u16, v: u8) -> Seq<u8> {
    m.update(addr as int, v)
}

/// The low byte of a 16-bit word.
pub open spec fn lo_byte(w: u16) -> u8 {
    (w % 0x100) as u8
}

/// The high byte of a 16-bit word.
pub open spec fn hi_byte(w: u16) -> u8 {
    (w / 0x100) as u8
}

/// Little-endian 16-bit read: low byte at `addr`, high byte at `addr + 1`,
/// the address wrapping within 16 bits.
pub open spec fn read16(m: Seq<u8>, addr: u16) -> u16 {
    (read8(m, addr) + 0x100 * read8(m, wrap_add16(addr, 1))) as u16
}

/// Little-endian 16-bit write: low byte to `addr`, high byte to `addr + 1`.
pub open spec fn write16(m: Seq<u8>, addr: u16, w: u16) -> Seq<u8> {
    write8(write8(m, addr, lo_byte(w)), wrap_add16(addr, 1), hi_byte(w))
}

/// A relative branch displacement byte read as a signed number.
pub open spec fn signed_of(d: u8) -> int {
    if d < 0x80 {
        d as int
    } else {
        d - 0x100
    }
}

/// Branch target: the program counter plus the sign-extended displacement,
/// wrapped to 16 bits.
pub open spec fn rel_target(pc: u16, d: u8) -> u16 {
    ((pc + signed_of(d) + 0x10000) % 0x10000) as u16
}

} // verus!
