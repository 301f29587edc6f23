//! The processor status byte P and the flag updater's specification.

use vstd::prelude::*;

verus! {

/// Bit 0 of P: carry out of ADC, "no borrow" of SBC and the compares.
pub const FLAG_CARRY: u8 = 0x01;

/// Bit 1 of P: the last written value was zero.
pub const FLAG_ZERO: u8 = 0x02;

/// Bit 2 of P: interrupt disable.
pub const FLAG_INTERRUPT: u8 = 0x04;

/// Bit 3 of P: decimal mode (toggled by SED/CLD, ignored by the ALU here).
pub const FLAG_DECIMAL: u8 = 0x08;

/// Bit 4 of P: break mark; never written by this core.
pub const FLAG_BREAK: u8 = 0x10;

/// Bit 5 of P: reserved, never written by any instruction.
pub const FLAG_BREAK2: u8 = 0x20;

/// Bit 6 of P: signed overflow of ADC/SBC, bit 6 of the operand for BIT.
pub const FLAG_OVERFLOW: u8 = 0x40;

/// Bit 7 of P: bit 7 of the last written value.
pub const FLAG_NEGATIVE: u8 = 0x80;

/// The sign bit of an 8-bit value.
pub const SIGN_BIT: u8 = 0x80;

/// True when the status byte has the given flag bit set.
pub open spec fn flag_set(p: u8, mask: u8) -> bool {
    p & mask != 0
}

/// The status byte with one flag forced on or off; all other bits kept.
pub open spec fn with_flag(p: u8, mask: u8, on: bool) -> u8 {
    if on {
        p | mask
    } else {
        p & !mask
    }
}

/// The carry bit as the number 0 or 1, as ADC and SBC consume it.
pub open spec fn carry_in(p: u8) -> u8 {
    p & FLAG_CARRY
}

/// The status byte after the flag updater ran on `result`: Zero tracks
/// `result == 0`, Negative tracks bit 7 of `result`, the rest is kept.
pub open spec fn set_nz(p: u8, result: u8) -> u8 {
    let p1 = if result == 0 {
        p | FLAG_ZERO
    } else {
        p & !FLAG_ZERO
    };
    if result & 0x80 != 0 {
        p1 | FLAG_NEGATIVE
    } else {
        p1 & !FLAG_NEGATIVE
    }
}

} // verus!
