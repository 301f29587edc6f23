//! The machine semantics as mathematics: operand resolution, one transition
//! function per instruction, the decode table, and the small-step interpreter
//! that `CPU::run` is proved against.

use vstd::prelude::*;

use crate::cpu::AddressingMode;
use crate::flags::{
    carry_in, flag_set, set_nz, with_flag, FLAG_CARRY, FLAG_DECIMAL, FLAG_INTERRUPT, FLAG_NEGATIVE,
    FLAG_OVERFLOW, FLAG_ZERO, SIGN_BIT,
};
use crate::state::{
    read16, read8, rel_target, wrap_add16, wrap_add8, wrap_sub8, write8, write16, CpuState,
    PRG_START, RESET_VECTOR,
};

verus! {

/// The instruction set: one name per routine of the core.
#[derive(Debug, Clone, Copy, PartialEq, Eq, Structural)]
pub enum Mnemonic {
    LDA,
    STA,
    ADC,
    SBC,
    AND,
    EOR,
    ORA,
    ASL,
    LSR,
    ROL,
    ROR,
    BIT,
    BCC,
    BCS,
    BEQ,
    BNE,
    BMI,
    BPL,
    BVC,
    BVS,
    CMP,
    CPX,
    CPY,
    CLC,
    SEC,
    CLI,
    SEI,
    CLV,
    CLD,
    SED,
    TAX,
    INX,
    BRK,
}

/// The effective address an instruction operates on, for a resolvable mode,
/// with PC pointing at the first operand byte.  Zero-page pointer arithmetic
/// wraps within 8 bits; the final 16-bit sums wrap within 16 bits.
pub open spec fn operand_addr(s: CpuState, mode: AddressingMode) -> u16 {
    match mode {
        AddressingMode::Immediate => s.pc,
        AddressingMode::ZeroPage => read8(s.mem, s.pc) as u16,
        AddressingMode::ZeroPage_X => wrap_add8(read8(s.mem, s.pc), s.x) as u16,
        AddressingMode::ZeroPage_Y => wrap_add8(read8(s.mem, s.pc), s.y) as u16,
        AddressingMode::Absolute => read16(s.mem, s.pc),
        AddressingMode::Absolute_X => wrap_add16(read16(s.mem, s.pc), s.x as u16),
        AddressingMode::Absolute_Y => wrap_add16(read16(s.mem, s.pc), s.y as u16),
        AddressingMode::Indirect_X => {
            let ptr = wrap_add8(read8(s.mem, s.pc), s.x);
            (read8(s.mem, ptr as u16) + 0x100 * read8(s.mem, wrap_add8(ptr, 1) as u16)) as u16
        },
        AddressingMode::Indirect_Y => {
            let base = read8(s.mem, s.pc);
            let lo = read8(s.mem, base as u16);
            let hi = read8(s.mem, wrap_add8(base, 1) as u16);
            wrap_add16((lo + 0x100 * hi) as u16, s.y as u16)
        },
        AddressingMode::Relative => rel_target(s.pc, read8(s.mem, s.pc)),
        _ => 0,
    }
}

/// The byte an instruction operates on: the one at its effective address.
pub open spec fn operand(s: CpuState, mode: AddressingMode) -> u8 {
    read8(s.mem, operand_addr(s, mode))
}

/// LDA: A takes the operand; Zero and Negative track it.
pub open spec fn lda_spec(s: CpuState, mode: AddressingMode) -> CpuState {
    let v = operand(s, mode);
    CpuState { a: v, p: set_nz(s.p, v), ..s }
}

/// STA: A is stored at the effective address; no flag changes.
pub open spec fn sta_spec(s: CpuState, mode: AddressingMode) -> CpuState {
    CpuState { mem: write8(s.mem, operand_addr(s, mode), s.a), ..s }
}

/// TAX: X takes A; Zero and Negative track it.
pub open spec fn tax_spec(s: CpuState) -> CpuState {
    CpuState { x: s.a, p: set_nz(s.p, s.a), ..s }
}

/// INX: X is incremented modulo 256; Zero and Negative track it.
pub open spec fn inx_spec(s: CpuState) -> CpuState {
    let v = wrap_add8(s.x, 1);
    CpuState { x: v, p: set_nz(s.p, v), ..s }
}

/// AND: A takes the bitwise and with the operand; Zero and Negative track it.
pub open spec fn and_spec(s: CpuState, mode: AddressingMode) -> CpuState {
    let v = s.a & operand(s, mode);
    CpuState { a: v, p: set_nz(s.p, v), ..s }
}

/// EOR: A takes the bitwise exclusive or with the operand.
pub open spec fn eor_spec(s: CpuState, mode: AddressingMode) -> CpuState {
    let v = s.a ^ operand(s, mode);
    CpuState { a: v, p: set_nz(s.p, v), ..s }
}

/// ORA: A takes the bitwise or with the operand.
pub open spec fn ora_spec(s: CpuState, mode: AddressingMode) -> CpuState {
    let v = s.a | operand(s, mode);
    CpuState { a: v, p: set_nz(s.p, v), ..s }
}

/// ADC: A takes the 9-bit sum A + M + Carry truncated to 8 bits; Carry takes
/// the ninth bit; Overflow marks a signed overflow; Zero and Negative track
/// the result.
pub open spec fn adc_spec(s: CpuState, mode: AddressingMode) -> CpuState {
    let v = operand(s, mode);
    let total = s.a + v + carry_in(s.p);
    let r = (total % 0x100) as u8;
    let overflow = (s.a & SIGN_BIT) == (v & SIGN_BIT) && (v & SIGN_BIT) != (r & SIGN_BIT);
    let p1 = with_flag(s.p, FLAG_CARRY, total >= 0x100);
    let p2 = with_flag(p1, FLAG_OVERFLOW, overflow);
    CpuState { a: r, p: set_nz(p2, r), ..s }
}

/// SBC: A takes A - M - (1 - Carry) modulo 256; Carry is set exactly when no
/// borrow occurred; Overflow marks a signed overflow; Zero and Negative track
/// the result.
pub open spec fn sbc_spec(s: CpuState, mode: AddressingMode) -> CpuState {
    let v = operand(s, mode);
    let d = s.a - v - (1 - carry_in(s.p));
    let r = ((d + 0x200) % 0x100) as u8;
    let overflow = (s.a & SIGN_BIT) != (v & SIGN_BIT) && (s.a & SIGN_BIT) != (r & SIGN_BIT);
    let p1 = with_flag(s.p, FLAG_CARRY, d >= 0);
    let p2 = with_flag(p1, FLAG_OVERFLOW, overflow);
    CpuState { a: r, p: set_nz(p2, r), ..s }
}

/// CMP/CPX/CPY against register value `target`: Carry is set exactly when
/// `target >= M`; Zero and Negative track the wrapped difference.  Registers
/// and memory are untouched.
pub open spec fn compare_spec(s: CpuState, target: u8, mode: AddressingMode) -> CpuState {
    let v = operand(s, mode);
    let p1 = with_flag(s.p, FLAG_CARRY, target >= v);
    CpuState { p: set_nz(p1, wrap_sub8(target, v)), ..s }
}

/// BIT: Zero from `A & M == 0`; Overflow and Negative copied from bits 6 and
/// 7 of the operand; A untouched.
pub open spec fn bit_spec(s: CpuState, mode: AddressingMode) -> CpuState {
    let v = operand(s, mode);
    let p1 = if s.a & v == 0 {
        s.p | FLAG_ZERO
    } else {
        s.p & !FLAG_ZERO
    };
    let p2 = (p1 & !(FLAG_NEGATIVE | FLAG_OVERFLOW)) | (v & (FLAG_NEGATIVE | FLAG_OVERFLOW));
    CpuState { p: p2, ..s }
}

/// A branch: when the tested flag matches the wanted polarity, PC takes the
/// relative target; otherwise nothing changes.  The interpreter's advance
/// past the operand byte happens afterwards in either case.
pub open spec fn branch_spec(s: CpuState, mask: u8, when_set: bool) -> CpuState {
    if flag_set(s.p, mask) == when_set {
        CpuState { pc: operand_addr(s, AddressingMode::Relative), ..s }
    } else {
        s
    }
}

/// The shifted-left byte: `2 * v` truncated to 8 bits.
pub open spec fn asl_val(v: u8) -> u8 {
    ((2 * v) % 0x100) as u8
}

/// The shifted-right byte.
pub open spec fn lsr_val(v: u8) -> u8 {
    v / 2
}

/// Rotate left: shift left, old Carry into bit 0.
pub open spec fn rol_val(v: u8, p: u8) -> u8 {
    asl_val(v) | carry_in(p)
}

/// Rotate right: shift right, old Carry into bit 7.
pub open spec fn ror_val(v: u8, p: u8) -> u8 {
    (v / 2) | ((p & FLAG_CARRY) << 7)
}

/// A shift or rotate applied to the accumulator, given the new byte and the
/// carry it shifted out.
pub open spec fn shift_acc(s: CpuState, new: u8, carry: bool) -> CpuState {
    CpuState { a: new, p: set_nz(with_flag(s.p, FLAG_CARRY, carry), new), ..s }
}

/// A shift or rotate applied to memory at the resolved address.
pub open spec fn shift_mem(s: CpuState, mode: AddressingMode, new: u8, carry: bool) -> CpuState {
    CpuState {
        mem: write8(s.mem, operand_addr(s, mode), new),
        p: set_nz(with_flag(s.p, FLAG_CARRY, carry), new),
        ..s
    }
}

/// ASL: Carry takes the old bit 7.
pub open spec fn asl_spec(s: CpuState, mode: AddressingMode) -> CpuState {
    if mode == AddressingMode::Accumulator {
        shift_acc(s, asl_val(s.a), s.a >= 0x80)
    } else {
        let v = operand(s, mode);
        shift_mem(s, mode, asl_val(v), v >= 0x80)
    }
}

/// LSR: Carry takes the old bit 0.
pub open spec fn lsr_spec(s: CpuState, mode: AddressingMode) -> CpuState {
    if mode == AddressingMode::Accumulator {
        shift_acc(s, lsr_val(s.a), s.a & 1 == 1)
    } else {
        let v = operand(s, mode);
        shift_mem(s, mode, lsr_val(v), v & 1 == 1)
    }
}

/// ROL: Carry takes the old bit 7; old Carry enters at bit 0.
pub open spec fn rol_spec(s: CpuState, mode: AddressingMode) -> CpuState {
    if mode == AddressingMode::Accumulator {
        shift_acc(s, rol_val(s.a, s.p), s.a >= 0x80)
    } else {
        let v = operand(s, mode);
        shift_mem(s, mode, rol_val(v, s.p), v >= 0x80)
    }
}

/// ROR: Carry takes the old bit 0; old Carry enters at bit 7.
pub open spec fn ror_spec(s: CpuState, mode: AddressingMode) -> CpuState {
    if mode == AddressingMode::Accumulator {
        shift_acc(s, ror_val(s.a, s.p), s.a & 1 == 1)
    } else {
        let v = operand(s, mode);
        shift_mem(s, mode, ror_val(v, s.p), v & 1 == 1)
    }
}

/// The decode table: each live opcode byte maps to its mnemonic, its
/// addressing mode and the number of operand bytes the interpreter advances
/// past after dispatch.  Opaque: proofs go through `CPU::decode`'s contract
/// and reveal the table only where a concrete opcode is inspected.
#[verifier::opaque]
pub open spec fn decode_spec(code: u8) -> Option<(Mnemonic, AddressingMode, u8)> {
    match code {
        0x00 => Some((Mnemonic::BRK, AddressingMode::Implied, 0)),
        0xC0 => Some((Mnemonic::CPY, AddressingMode::Immediate, 1)),
        0xE0 => Some((Mnemonic::CPX, AddressingMode::Immediate, 1)),
        0xC9 => Some((Mnemonic::CMP, AddressingMode::Immediate, 1)),
        0xB8 => Some((Mnemonic::CLV, AddressingMode::Implied, 0)),
        0x78 => Some((Mnemonic::SEI, AddressingMode::Implied, 0)),
        0x58 => Some((Mnemonic::CLI, AddressingMode::Implied, 0)),
        0xF8 => Some((Mnemonic::SED, AddressingMode::Implied, 0)),
        0xD8 => Some((Mnemonic::CLD, AddressingMode::Implied, 0)),
        0x38 => Some((Mnemonic::SEC, AddressingMode::Implied, 0)),
        0x18 => Some((Mnemonic::CLC, AddressingMode::Implied, 0)),
        0x70 => Some((Mnemonic::BVS, AddressingMode::Relative, 1)),
        0x50 => Some((Mnemonic::BVC, AddressingMode::Relative, 1)),
        0x10 => Some((Mnemonic::BPL, AddressingMode::Relative, 1)),
        0x30 => Some((Mnemonic::BMI, AddressingMode::Relative, 1)),
        0x24 => Some((Mnemonic::BIT, AddressingMode::ZeroPage, 1)),
        0x2C => Some((Mnemonic::BIT, AddressingMode::Absolute, 2)),
        0xF0 => Some((Mnemonic::BEQ, AddressingMode::Relative, 1)),
        0xD0 => Some((Mnemonic::BNE, AddressingMode::Relative, 1)),
        0x90 => Some((Mnemonic::BCC, AddressingMode::Relative, 1)),
        0xB0 => Some((Mnemonic::BCS, AddressingMode::Relative, 1)),
        0x6A => Some((Mnemonic::ROR, AddressingMode::Accumulator, 0)),
        0x66 => Some((Mnemonic::ROR, AddressingMode::ZeroPage, 1)),
        0x2A => Some((Mnemonic::ROL, AddressingMode::Accumulator, 0)),
        0x26 => Some((Mnemonic::ROL, AddressingMode::ZeroPage, 1)),
        0x4A => Some((Mnemonic::LSR, AddressingMode::Accumulator, 0)),
        0x46 => Some((Mnemonic::LSR, AddressingMode::ZeroPage, 1)),
        0x0A => Some((Mnemonic::ASL, AddressingMode::Accumulator, 0)),
        0x06 => Some((Mnemonic::ASL, AddressingMode::ZeroPage, 1)),
        0x69 => Some((Mnemonic::ADC, AddressingMode::Immediate, 1)),
        0x29 => Some((Mnemonic::AND, AddressingMode::Immediate, 1)),
        0x49 => Some((Mnemonic::EOR, AddressingMode::Immediate, 1)),
        0x09 => Some((Mnemonic::ORA, AddressingMode::Immediate, 1)),
        0xE9 => Some((Mnemonic::SBC, AddressingMode::Immediate, 1)),
        0xA9 => Some((Mnemonic::LDA, AddressingMode::Immediate, 1)),
        0xA5 => Some((Mnemonic::LDA, AddressingMode::ZeroPage, 1)),
        0xB5 => Some((Mnemonic::LDA, AddressingMode::ZeroPage_X, 1)),
        0xAD => Some((Mnemonic::LDA, AddressingMode::Absolute, 2)),
        0xBD => Some((Mnemonic::LDA, AddressingMode::Absolute_X, 2)),
        0xB9 => Some((Mnemonic::LDA, AddressingMode::Absolute_Y, 2)),
        0xA1 => Some((Mnemonic::LDA, AddressingMode::Indirect_X, 1)),
        0xB1 => Some((Mnemonic::LDA, AddressingMode::Indirect_Y, 1)),
        0x85 => Some((Mnemonic::STA, AddressingMode::ZeroPage, 1)),
        0x95 => Some((Mnemonic::STA, AddressingMode::ZeroPage_X, 1)),
        0x8D => Some((Mnemonic::STA, AddressingMode::Absolute, 2)),
        0x9D => Some((Mnemonic::STA, AddressingMode::Absolute_X, 2)),
        0x99 => Some((Mnemonic::STA, AddressingMode::Absolute_Y, 2)),
        0x81 => Some((Mnemonic::STA, AddressingMode::Indirect_X, 1)),
        0x91 => Some((Mnemonic::STA, AddressingMode::Indirect_Y, 1)),
        0xAA => Some((Mnemonic::TAX, AddressingMode::Implied, 0)),
        0xE8 => Some((Mnemonic::INX, AddressingMode::Implied, 0)),
        _ => None,
    }
}

/// The addressing modes each instruction accepts; the decode table only
/// produces pairs that satisfy this.
pub open spec fn instr_mode_ok(m: Mnemonic, mode: AddressingMode) -> bool {
    match m {
        Mnemonic::LDA | Mnemonic::STA | Mnemonic::ADC | Mnemonic::SBC | Mnemonic::AND
            | Mnemonic::EOR | Mnemonic::ORA | Mnemonic::BIT | Mnemonic::CMP | Mnemonic::CPX
            | Mnemonic::CPY => mode.resolvable(),
        Mnemonic::ASL | Mnemonic::LSR | Mnemonic::ROL | Mnemonic::ROR => mode
            == AddressingMode::Accumulator || mode.resolvable(),
        Mnemonic::BCC | Mnemonic::BCS | Mnemonic::BEQ | Mnemonic::BNE | Mnemonic::BMI
            | Mnemonic::BPL | Mnemonic::BVC | Mnemonic::BVS => mode == AddressingMode::Relative,
        _ => true,
    }
}

/// What one decoded instruction does to the machine, with PC already past
/// the opcode byte.  Opaque: proofs go through `CPU::execute`'s contract and
/// reveal the dispatch only where the mnemonic is known.
#[verifier::opaque]
pub open spec fn apply_instr(m: Mnemonic, mode: AddressingMode, s: CpuState) -> CpuState {
    match m {
        Mnemonic::LDA => lda_spec(s, mode),
        Mnemonic::STA => sta_spec(s, mode),
        Mnemonic::ADC => adc_spec(s, mode),
        Mnemonic::SBC => sbc_spec(s, mode),
        Mnemonic::AND => and_spec(s, mode),
        Mnemonic::EOR => eor_spec(s, mode),
        Mnemonic::ORA => ora_spec(s, mode),
        Mnemonic::ASL => asl_spec(s, mode),
        Mnemonic::LSR => lsr_spec(s, mode),
        Mnemonic::ROL => rol_spec(s, mode),
        Mnemonic::ROR => ror_spec(s, mode),
        Mnemonic::BIT => bit_spec(s, mode),
        Mnemonic::BCC => branch_spec(s, FLAG_CARRY, false),
        Mnemonic::BCS => branch_spec(s, FLAG_CARRY, true),
        Mnemonic::BEQ => branch_spec(s, FLAG_ZERO, true),
        Mnemonic::BNE => branch_spec(s, FLAG_ZERO, false),
        Mnemonic::BMI => branch_spec(s, FLAG_NEGATIVE, true),
        Mnemonic::BPL => branch_spec(s, FLAG_NEGATIVE, false),
        Mnemonic::BVC => branch_spec(s, FLAG_OVERFLOW, false),
        Mnemonic::BVS => branch_spec(s, FLAG_OVERFLOW, true),
        Mnemonic::CMP => compare_spec(s, s.a, mode),
        Mnemonic::CPX => compare_spec(s, s.x, mode),
        Mnemonic::CPY => compare_spec(s, s.y, mode),
        Mnemonic::CLC => CpuState { p: with_flag(s.p, FLAG_CARRY, false), ..s },
        Mnemonic::SEC => CpuState { p: with_flag(s.p, FLAG_CARRY, true), ..s },
        Mnemonic::CLI => CpuState { p: with_flag(s.p, FLAG_INTERRUPT, false), ..s },
        Mnemonic::SEI => CpuState { p: with_flag(s.p, FLAG_INTERRUPT, true), ..s },
        Mnemonic::CLD => CpuState { p: with_flag(s.p, FLAG_DECIMAL, false), ..s },
        Mnemonic::SED => CpuState { p: with_flag(s.p, FLAG_DECIMAL, true), ..s },
        Mnemonic::CLV => CpuState { p: with_flag(s.p, FLAG_OVERFLOW, false), ..s },
        Mnemonic::TAX => tax_spec(s),
        Mnemonic::INX => inx_spec(s),
        Mnemonic::BRK => s,
    }
}

/// The opcode byte the interpreter is about to fetch.
pub open spec fn fetch(s: CpuState) -> u8 {
    read8(s.mem, s.pc)
}

/// One full interpreter round: fetch, advance PC past the opcode, run the
/// instruction, advance PC past its operand bytes.  Undecodable opcodes
/// leave the state alone (the interpreter stops on them instead).
pub open spec fn step_spec(s: CpuState) -> CpuState {
    match decode_spec(fetch(s)) {
        Some((m, mode, len)) => {
            let s1 = CpuState { pc: wrap_add16(s.pc, 1), ..s };
            let s2 = apply_instr(m, mode, s1);
            CpuState { pc: wrap_add16(s2.pc, len as u16), ..s2 }
        },
        None => s,
    }
}

/// The interpreter stops here: either at BRK or at an opcode the decode
/// table does not know.
pub open spec fn stopped(s: CpuState) -> bool {
    fetch(s) == 0x00 || decode_spec(fetch(s)) is None
}

/// At most `n` interpreter rounds, standing still once stopped.
pub open spec fn run_n(s: CpuState, n: nat) -> CpuState
    decreases n,
{
    if n == 0 || stopped(s) {
        s
    } else {
        run_n(step_spec(s), (n - 1) as nat)
    }
}

/// The executions on which `run` returns: some number of rounds reaches a
/// stopping point.
pub open spec fn halts(s: CpuState) -> bool {
    exists|n: nat| stopped(#[trigger] run_n(s, n))
}

/// The state at which the interpreter stops, for a halting start state.
pub open spec fn stop_state(s: CpuState) -> CpuState {
    run_n(s, choose|n: nat| stopped(#[trigger] run_n(s, n)))
}

/// Two round counts that both reach a stopping point reach the same state:
/// the interpreter stands still once stopped.
pub proof fn lemma_stop_unique(s: CpuState, n1: nat, n2: nat)
    requires
        stopped(run_n(s, n1)),
        stopped(run_n(s, n2)),
    ensures
        run_n(s, n1) == run_n(s, n2),
    decreases n1,
{
    if n1 == 0 || stopped(s) {
        assert(run_n(s, n1) == s);
        assert(run_n(s, n2) == s);
    } else {
        if n2 == 0 {
            assert(run_n(s, n2) == s);
            assert(stopped(s));
        } else {
            lemma_stop_unique(step_spec(s), (n1 - 1) as nat, (n2 - 1) as nat);
        }
    }
}

/// A stopped state is its own stopping point.
pub proof fn lemma_stop_state_of_stopped(s: CpuState)
    requires
        stopped(s),
    ensures
        halts(s),
        stop_state(s) == s,
{
    assert(stopped(run_n(s, 0)));
}

/// One interpreter round neither loses the stopping point nor changes it.
pub proof fn lemma_step_keeps_stop_state(s: CpuState)
    requires
        !stopped(s),
        halts(s),
    ensures
        halts(step_spec(s)),
        stop_state(step_spec(s)) == stop_state(s),
{
    let n = choose|n: nat| stopped(#[trigger] run_n(s, n));
    assert(stopped(run_n(s, n)));
    assert(n != 0);
    assert(run_n(s, n) == run_n(step_spec(s), (n - 1) as nat));
    assert(stopped(run_n(step_spec(s), (n - 1) as nat)));
    let c2 = choose|m: nat| stopped(#[trigger] run_n(step_spec(s), m));
    lemma_stop_unique(step_spec(s), c2, (n - 1) as nat);
    let c1 = choose|m: nat| stopped(#[trigger] run_n(s, m));
    lemma_stop_unique(s, c1, n);
}

/// What `load` leaves in memory: the program blob starting at the PRG-ROM
/// region, everything else kept.
pub open spec fn prog_placed(m: Seq<u8>, prog: Seq<u8>) -> Seq<u8> {
    Seq::new(
        m.len(),
        |j: int|
            if PRG_START <= j < PRG_START + prog.len() {
                prog[j - PRG_START]
            } else {
                m[j]
            },
    )
}

/// `load`: the program blob is placed at the PRG-ROM region and the reset
/// vector takes its start address; registers are untouched.
pub open spec fn load_spec(s: CpuState, prog: Seq<u8>) -> CpuState {
    CpuState { mem: write16(prog_placed(s.mem, prog), RESET_VECTOR, PRG_START), ..s }
}

/// `reset`: registers and status cleared, PC fetched from the reset vector.
pub open spec fn reset_spec(s: CpuState) -> CpuState {
    CpuState { a: 0, x: 0, y: 0, p: 0, pc: read16(s.mem, RESET_VECTOR), ..s }
}

} // verus!
