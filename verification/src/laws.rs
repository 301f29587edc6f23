//! The universal laws of the core, each proved against the model in
//! `semantics`: the flag updater's behaviour on every byte, the ADC and SBC
//! arithmetic identities, the memory round trips and the displacement of a
//! taken branch.

use vstd::prelude::*;

use vstd::arithmetic::div_mod::{
    lemma_add_mod_noop_right, lemma_mod_add_multiples_vanish, lemma_mod_multiples_vanish,
};

use crate::cpu::AddressingMode;
use crate::flags::{
    carry_in, flag_set, set_nz, with_flag, FLAG_BREAK, FLAG_BREAK2, FLAG_CARRY, FLAG_DECIMAL,
    FLAG_INTERRUPT, FLAG_NEGATIVE, FLAG_OVERFLOW, FLAG_ZERO,
};
use crate::semantics::{
    adc_spec, and_spec, apply_instr, asl_spec, decode_spec, eor_spec, fetch, inx_spec, lda_spec,
    lsr_spec, operand, operand_addr, ora_spec, rol_spec, ror_spec, sbc_spec, step_spec, tax_spec,
};
use crate::state::{
    read16, read8, signed_of, wrap_add16, write16, write8, CpuState,
};

verus! {

/// Zero and Negative in a status byte track a written value.
pub open spec fn nz_tracks(p: u8, v: u8) -> bool {
    flag_set(p, FLAG_ZERO) == (v == 0) && flag_set(p, FLAG_NEGATIVE) == (v >= 0x80)
}

/// After the flag updater runs, Zero and Negative track the value it was
/// handed, whatever the status byte held before.
pub proof fn lemma_set_nz_tracks()
    by (bit_vector)
    ensures
        forall|p: u8, v: u8| #[trigger] nz_tracks(set_nz(p, v), v),
{
}

/// The flag updater's law: for every 8-bit value, Zero is set exactly for
/// zero, Negative exactly for values with bit 7 set, and no other status
/// bit moves.
pub proof fn lemma_flag_updater(p: u8, v: u8)
    ensures
        flag_set(set_nz(p, v), FLAG_ZERO) == (v == 0),
        flag_set(set_nz(p, v), FLAG_NEGATIVE) == (v >= 0x80),
        flag_set(set_nz(p, v), FLAG_CARRY) == flag_set(p, FLAG_CARRY),
        flag_set(set_nz(p, v), FLAG_OVERFLOW) == flag_set(p, FLAG_OVERFLOW),
        flag_set(set_nz(p, v), FLAG_INTERRUPT) == flag_set(p, FLAG_INTERRUPT),
        flag_set(set_nz(p, v), FLAG_DECIMAL) == flag_set(p, FLAG_DECIMAL),
        flag_set(set_nz(p, v), FLAG_BREAK) == flag_set(p, FLAG_BREAK),
        flag_set(set_nz(p, v), FLAG_BREAK2) == flag_set(p, FLAG_BREAK2),
        carry_in(set_nz(p, v)) == carry_in(p),
{
    assert(flag_set(set_nz(p, v), FLAG_ZERO) == (v == 0) && flag_set(set_nz(p, v), FLAG_NEGATIVE)
        == (v >= 0x80) && flag_set(set_nz(p, v), FLAG_CARRY) == flag_set(p, FLAG_CARRY)
        && flag_set(set_nz(p, v), FLAG_OVERFLOW) == flag_set(p, FLAG_OVERFLOW) && flag_set(
        set_nz(p, v),
        FLAG_INTERRUPT,
    ) == flag_set(p, FLAG_INTERRUPT) && flag_set(set_nz(p, v), FLAG_DECIMAL) == flag_set(
        p,
        FLAG_DECIMAL,
    ) && flag_set(set_nz(p, v), FLAG_BREAK) == flag_set(p, FLAG_BREAK) && flag_set(
        set_nz(p, v),
        FLAG_BREAK2,
    ) == flag_set(p, FLAG_BREAK2) && carry_in(set_nz(p, v)) == carry_in(p)) by (bit_vector);
}

/// Arithmetic status write, as ADC and SBC do it: Carry and Overflow take
/// the given truth values and then Zero and Negative track the result.
pub proof fn lemma_arith_flags(p: u8, c: bool, o: bool, r: u8)
    ensures
        ({
            let q = set_nz(with_flag(with_flag(p, FLAG_CARRY, c), FLAG_OVERFLOW, o), r);
            flag_set(q, FLAG_CARRY) == c && flag_set(q, FLAG_OVERFLOW) == o && flag_set(
                q,
                FLAG_ZERO,
            ) == (r == 0) && flag_set(q, FLAG_NEGATIVE) == (r >= 0x80)
        }),
{
    assert(({
        let q = set_nz(with_flag(with_flag(p, FLAG_CARRY, c), FLAG_OVERFLOW, o), r);
        flag_set(q, FLAG_CARRY) == c && flag_set(q, FLAG_OVERFLOW) == o && flag_set(q, FLAG_ZERO)
            == (r == 0) && flag_set(q, FLAG_NEGATIVE) == (r >= 0x80)
    })) by (bit_vector);
}

/// Every instruction routine that writes a register leaves Zero and
/// Negative tracking the written value: the loads, the bitwise ops, the
/// adder and subtractor, and the transfers and increments.  (STA writes no
/// flags; BIT and the flag setters/clearers have bespoke rules.)
pub proof fn lemma_register_writes_update_nz(s: CpuState, mode: AddressingMode)
    requires
        s.wf(),
        mode.resolvable(),
    ensures
        nz_tracks(lda_spec(s, mode).p, lda_spec(s, mode).a),
        nz_tracks(and_spec(s, mode).p, and_spec(s, mode).a),
        nz_tracks(eor_spec(s, mode).p, eor_spec(s, mode).a),
        nz_tracks(ora_spec(s, mode).p, ora_spec(s, mode).a),
        nz_tracks(adc_spec(s, mode).p, adc_spec(s, mode).a),
        nz_tracks(sbc_spec(s, mode).p, sbc_spec(s, mode).a),
        nz_tracks(tax_spec(s).p, tax_spec(s).x),
        nz_tracks(inx_spec(s).p, inx_spec(s).x),
{
    lemma_set_nz_tracks();
}

/// The shifts and rotates leave Zero and Negative tracking the byte they
/// wrote, whether it went to the accumulator or back to memory.
pub proof fn lemma_shift_writes_update_nz(s: CpuState, mode: AddressingMode)
    requires
        s.wf(),
        mode == AddressingMode::Accumulator || mode.resolvable(),
    ensures
        mode == AddressingMode::Accumulator ==> nz_tracks(asl_spec(s, mode).p, asl_spec(s, mode).a)
            && nz_tracks(lsr_spec(s, mode).p, lsr_spec(s, mode).a) && nz_tracks(
            rol_spec(s, mode).p,
            rol_spec(s, mode).a,
        ) && nz_tracks(ror_spec(s, mode).p, ror_spec(s, mode).a),
        mode != AddressingMode::Accumulator ==> nz_tracks(
            asl_spec(s, mode).p,
            read8(asl_spec(s, mode).mem, operand_addr(s, mode)),
        ) && nz_tracks(lsr_spec(s, mode).p, read8(lsr_spec(s, mode).mem, operand_addr(s, mode)))
            && nz_tracks(rol_spec(s, mode).p, read8(rol_spec(s, mode).mem, operand_addr(s, mode)))
            && nz_tracks(ror_spec(s, mode).p, read8(ror_spec(s, mode).mem, operand_addr(s, mode))),
{
    lemma_set_nz_tracks();
}

/// ADC arithmetic law: for all A, M and incoming carry bit c, the new
/// accumulator is (A + M + c) mod 256, the new Carry is the ninth bit of
/// the sum, and Zero and Negative track the result.
pub proof fn lemma_adc_arithmetic(s: CpuState, mode: AddressingMode)
    requires
        s.wf(),
        mode.resolvable(),
    ensures
        ({
            let m = operand(s, mode);
            let c = carry_in(s.p);
            let t = adc_spec(s, mode);
            t.a == (s.a + m + c) % 0x100 && (if flag_set(t.p, FLAG_CARRY) {
                1int
            } else {
                0int
            }) == (s.a + m + c) / 0x100 && flag_set(t.p, FLAG_ZERO) == (t.a == 0) && flag_set(
                t.p,
                FLAG_NEGATIVE,
            ) == (t.a >= 0x80)
        }),
{
    let m = operand(s, mode);
    let c = carry_in(s.p);
    let p = s.p;
    assert(p & 1 < 2) by (bit_vector);
    let total = s.a + m + c;
    let r = (total % 0x100) as u8;
    let overflow = (s.a & 0x80) == (m & 0x80) && (m & 0x80) != (r & 0x80);
    lemma_arith_flags(s.p, total >= 0x100, overflow, r);
    assert(0 <= total < 0x200);
    assert(total >= 0x100 ==> total / 0x100 == 1);
    assert(total < 0x100 ==> total / 0x100 == 0);
}

/// SBC arithmetic law: for all A, M and incoming carry bit c, the new
/// accumulator is (A - M - (1 - c)) mod 256, and Carry is set again exactly
/// when that subtraction never went below zero.
pub proof fn lemma_sbc_arithmetic(s: CpuState, mode: AddressingMode)
    requires
        s.wf(),
        mode.resolvable(),
    ensures
        ({
            let m = operand(s, mode);
            let c = carry_in(s.p);
            let d = s.a - m - (1 - c);
            let t = sbc_spec(s, mode);
            t.a == d % 0x100 && flag_set(t.p, FLAG_CARRY) == (d >= 0) && flag_set(t.p, FLAG_ZERO)
                == (t.a == 0) && flag_set(t.p, FLAG_NEGATIVE) == (t.a >= 0x80)
        }),
{
    let m = operand(s, mode);
    let c = carry_in(s.p);
    let p = s.p;
    assert(p & 1 < 2) by (bit_vector);
    let d = s.a - m - (1 - c);
    let r = ((d + 0x200) % 0x100) as u8;
    let overflow = (s.a & 0x80) != (m & 0x80) && (s.a & 0x80) != (r & 0x80);
    lemma_arith_flags(s.p, d >= 0, overflow, r);
    lemma_mod_multiples_vanish(2, d, 0x100);
}

/// Byte round trip: writing b at addr and reading addr back yields b.
pub proof fn lemma_mem_round_trip(m: Seq<u8>, addr: u16, b: u8)
    requires
        m.len() == 0x10000,
    ensures
        read8(write8(m, addr, b), addr) == b,
{
}

/// Word round trip: writing a 16-bit w at addr and reading 16 bits back
/// yields w, the low byte living at addr and the high byte at addr + 1.
pub proof fn lemma_mem16_round_trip(m: Seq<u8>, addr: u16, w: u16)
    requires
        m.len() == 0x10000,
    ensures
        read16(write16(m, addr, w), addr) == w,
{
    assert(wrap_add16(addr, 1) != addr);
    assert(w % 0x100 + 0x100 * (w / 0x100) == w);
}

/// The branch opcodes of the decode table.
pub open spec fn is_branch_opcode(code: u8) -> bool {
    code == 0x10 || code == 0x30 || code == 0x50 || code == 0x70 || code == 0x90 || code == 0xB0
        || code == 0xD0 || code == 0xF0
}

/// The status bit a branch opcode tests.
pub open spec fn branch_mask(code: u8) -> u8 {
    if code == 0x10 || code == 0x30 {
        FLAG_NEGATIVE
    } else if code == 0x50 || code == 0x70 {
        FLAG_OVERFLOW
    } else if code == 0x90 || code == 0xB0 {
        FLAG_CARRY
    } else {
        FLAG_ZERO
    }
}

/// Whether the branch asks for its bit set (BMI, BVS, BCS, BEQ) or clear
/// (BPL, BVC, BCC, BNE).
pub open spec fn branch_polarity(code: u8) -> bool {
    code == 0x30 || code == 0x70 || code == 0xB0 || code == 0xF0
}

/// Branch displacement law: after a taken branch with displacement byte d,
/// PC equals (address of the operand byte) + sign-extended d + 1, modulo
/// 65536.  The + 1 is the interpreter's unconditional advance past the
/// operand byte, which happens whether or not the branch was taken.
pub proof fn lemma_branch_displacement(s: CpuState)
    requires
        s.wf(),
        is_branch_opcode(fetch(s)),
        flag_set(s.p, branch_mask(fetch(s))) == branch_polarity(fetch(s)),
    ensures
        ({
            let operand_pc = wrap_add16(s.pc, 1);
            let d = read8(s.mem, operand_pc);
            step_spec(s).pc == (operand_pc + signed_of(d) + 1) % 0x10000
        }),
{
    reveal(decode_spec);
    reveal(apply_instr);
    let operand_pc = wrap_add16(s.pc, 1);
    let d = read8(s.mem, operand_pc);
    let shifted = operand_pc + signed_of(d) + 0x10000;
    let target = shifted % 0x10000;
    assert(step_spec(s).pc == wrap_add16((target as u16), 1));
    lemma_add_mod_noop_right(1, shifted, 0x10000);
    assert((1 + target) % 0x10000 == (1 + shifted) % 0x10000);
    lemma_mod_add_multiples_vanish(operand_pc + signed_of(d) + 1, 0x10000);
}

} // verus!
