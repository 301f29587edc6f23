//! The executable machine: the register file, the flat memory, the addressing
//! mode resolver, the instruction routines and the interpreter loop.  Each
//! routine's contract ties it to the state-transition model in `semantics`.

use vstd::prelude::*;

use vstd::pervasive::unreached;

use crate::flags::{
    set_nz, with_flag, FLAG_CARRY, FLAG_DECIMAL, FLAG_INTERRUPT, FLAG_NEGATIVE, FLAG_OVERFLOW,
    FLAG_ZERO, SIGN_BIT,
};
use crate::semantics::{
    adc_spec, and_spec, apply_instr, asl_spec, bit_spec, branch_spec, compare_spec, decode_spec,
    eor_spec, fetch, halts, instr_mode_ok, inx_spec, lda_spec, lemma_step_keeps_stop_state,
    lemma_stop_state_of_stopped, load_spec, lsr_spec, operand_addr, ora_spec, prog_placed,
    reset_spec, rol_spec, ror_spec, run_n, sbc_spec, sta_spec, step_spec, stop_state, stopped,
    tax_spec, Mnemonic,
};
use crate::state::{
    read16, read8, wrap_add16, write16, write8, CpuState, MEM_SIZE, PRG_START, RESET_VECTOR,
};

verus! {

/// How an instruction names the byte it operates on.
#[derive(Debug, Clone, PartialEq, Eq, Structural)]
#[allow(non_camel_case_types)]
pub enum AddressingMode {
    Accumulator,
    Immediate,
    ZeroPage,
    ZeroPage_X,
    ZeroPage_Y,
    Absolute,
    Absolute_X,
    Absolute_Y,
    Indirect_X,
    Indirect_Y,
    Relative,
    Implied,
    NoneAddressing,
}

impl AddressingMode {
    /// The modes that resolve to an effective address.  Implied, Accumulator
    /// and NoneAddressing never take part in address resolution.
    pub open spec fn resolvable(self) -> bool {
        match self {
            AddressingMode::Accumulator => false,
            AddressingMode::Implied => false,
            AddressingMode::NoneAddressing => false,
            _ => true,
        }
    }
}

/// The fatal outcomes the interpreter surfaces to its host instead of
/// recovering from them.
#[derive(Debug, Clone, Copy, PartialEq, Eq, Structural)]
pub enum RunError {
    /// The opcode byte at PC is not in the decode table.
    UnrecognizedOpcode(u8),
}

/// One decoded opcode: the routine to run, the addressing mode to hand it,
/// and how many operand bytes the interpreter advances past after dispatch.
pub fn decode(code: u8) -> (r: Option<(Mnemonic, AddressingMode, u8)>)
    ensures
        r == decode_spec(code),
        r matches Some(op) ==> instr_mode_ok(op.0, op.1),
{
    proof {
        reveal(decode_spec);
    }
    match code {
        0x00 => Some((Mnemonic::BRK, AddressingMode::Implied, 0)),
        0xC0 => Some((Mnemonic::CPY, AddressingMode::Immediate, 1)),
        0xE0 => Some((Mnemonic::CPX, AddressingMode::Immediate, 1)),
        0xC9 => Some((Mnemonic::CMP, AddressingMode::Immediate, 1)),
        0xB8 => Some((Mnemonic::CLV, AddressingMode::Implied, 0)),
        0x78 => Some((Mnemonic::SEI, AddressingMode::Implied, 0)),
        0x58 => Some((Mnemonic::CLI, AddressingMode::Implied, 0)),
        0xF8 => Some((Mnemonic::SED, AddressingMode::Implied, 0)),
        0xD8 => Some((Mnemonic::CLD, AddressingMode::Implied, 0)),
        0x38 => Some((Mnemonic::SEC, AddressingMode::Implied, 0)),
        0x18 => Some((Mnemonic::CLC, AddressingMode::Implied, 0)),
        0x70 => Some((Mnemonic::BVS, AddressingMode::Relative, 1)),
        0x50 => Some((Mnemonic::BVC, AddressingMode::Relative, 1)),
        0x10 => Some((Mnemonic::BPL, AddressingMode::Relative, 1)),
        0x30 => Some((Mnemonic::BMI, AddressingMode::Relative, 1)),
        0x24 => Some((Mnemonic::BIT, AddressingMode::ZeroPage, 1)),
        0x2C => Some((Mnemonic::BIT, AddressingMode::Absolute, 2)),
        0xF0 => Some((Mnemonic::BEQ, AddressingMode::Relative, 1)),
        0xD0 => Some((Mnemonic::BNE, AddressingMode::Relative, 1)),
        0x90 => Some((Mnemonic::BCC, AddressingMode::Relative, 1)),
        0xB0 => Some((Mnemonic::BCS, AddressingMode::Relative, 1)),
        0x6A => Some((Mnemonic::ROR, AddressingMode::Accumulator, 0)),
        0x66 => Some((Mnemonic::ROR, AddressingMode::ZeroPage, 1)),
        0x2A => Some((Mnemonic::ROL, AddressingMode::Accumulator, 0)),
        0x26 => Some((Mnemonic::ROL, AddressingMode::ZeroPage, 1)),
        0x4A => Some((Mnemonic::LSR, AddressingMode::Accumulator, 0)),
        0x46 => Some((Mnemonic::LSR, AddressingMode::ZeroPage, 1)),
        0x0A => Some((Mnemonic::ASL, AddressingMode::Accumulator, 0)),
        0x06 => Some((Mnemonic::ASL, AddressingMode::ZeroPage, 1)),
        0x69 => Some((Mnemonic::ADC, AddressingMode::Immediate, 1)),
        0x29 => Some((Mnemonic::AND, AddressingMode::Immediate, 1)),
        0x49 => Some((Mnemonic::EOR, AddressingMode::Immediate, 1)),
        0x09 => Some((Mnemonic::ORA, AddressingMode::Immediate, 1)),
        0xE9 => Some((Mnemonic::SBC, AddressingMode::Immediate, 1)),
        0xA9 => Some((Mnemonic::LDA, AddressingMode::Immediate, 1)),
        0xA5 => Some((Mnemonic::LDA, AddressingMode::ZeroPage, 1)),
        0xB5 => Some((Mnemonic::LDA, AddressingMode::ZeroPage_X, 1)),
        0xAD => Some((Mnemonic::LDA, AddressingMode::Absolute, 2)),
        0xBD => Some((Mnemonic::LDA, AddressingMode::Absolute_X, 2)),
        0xB9 => Some((Mnemonic::LDA, AddressingMode::Absolute_Y, 2)),
        0xA1 => Some((Mnemonic::LDA, AddressingMode::Indirect_X, 1)),
        0xB1 => Some((Mnemonic::LDA, AddressingMode::Indirect_Y, 1)),
        0x85 => Some((Mnemonic::STA, AddressingMode::ZeroPage, 1)),
        0x95 => Some((Mnemonic::STA, AddressingMode::ZeroPage_X, 1)),
        0x8D => Some((Mnemonic::STA, AddressingMode::Absolute, 2)),
        0x9D => Some((Mnemonic::STA, AddressingMode::Absolute_X, 2)),
        0x99 => Some((Mnemonic::STA, AddressingMode::Absolute_Y, 2)),
        0x81 => Some((Mnemonic::STA, AddressingMode::Indirect_X, 1)),
        0x91 => Some((Mnemonic::STA, AddressingMode::Indirect_Y, 1)),
        0xAA => Some((Mnemonic::TAX, AddressingMode::Implied, 0)),
        0xE8 => Some((Mnemonic::INX, AddressingMode::Implied, 0)),
        _ => None,
    }
}

/// The machine: accumulator, index registers, status byte, program counter
/// and the 64 KiB memory.
#[derive(Debug)]
pub struct CPU {
    pub register_a: u8,
    pub register_x: u8,
    pub register_y: u8,
    pub status: u8,
    pub program_counter: u16,
    pub memory: Vec<u8>,
}

impl View for CPU {
    type V = CpuState;

    open spec fn view(&self) -> CpuState {
        CpuState {
            a: self.register_a,
            x: self.register_x,
            y: self.register_y,
            p: self.status,
            pc: self.program_counter,
            mem: self.memory@,
        }
    }
}

impl CPU {
    /// The machine is well formed when its memory covers the 16-bit space.
    pub open spec fn wf(&self) -> bool {
        self@.wf()
    }

    /// A machine with zeroed registers and zero-filled memory.
    pub fn new() -> (cpu: CPU)
        ensures
            cpu.wf(),
            cpu@.a == 0,
            cpu@.x == 0,
            cpu@.y == 0,
            cpu@.p == 0,
            cpu@.pc == 0,
            cpu@.mem == Seq::new(MEM_SIZE as nat, |i: int| 0u8),
    {
        let mut memory: Vec<u8> = Vec::new();
        while memory.len() < MEM_SIZE
            invariant
                memory@.len() <= MEM_SIZE,
                forall|i: int| 0 <= i < memory@.len() ==> memory@[i] == 0u8,
            decreases MEM_SIZE - memory@.len(),
        {
            memory.push(0);
        }
        proof {
            assert(memory@ =~= Seq::new(MEM_SIZE as nat, |i: int| 0u8));
        }
        CPU {
            register_a: 0,
            register_x: 0,
            register_y: 0,
            status: 0,
            program_counter: 0,
            memory,
        }
    }

    /// The byte at a 16-bit address.
    pub fn mem_read(&self, addr: u16) -> (r: u8)
        requires
            self.wf(),
        ensures
            r == read8(self@.mem, addr),
    {
        self.memory[addr as usize]
    }

    /// Store one byte at a 16-bit address; nothing else changes.
    pub fn mem_write(&mut self, addr: u16, data: u8)
        requires
            old(self).wf(),
        ensures
            final(self).wf(),
            final(self)@ == (CpuState { mem: write8(old(self)@.mem, addr, data), ..old(self)@ }),
    {
        self.memory[addr as usize] = data;
    }

    /// Little-endian 16-bit read: low byte at `pos`, high byte at `pos + 1`.
    pub fn mem_read_u16(&self, pos: u16) -> (r: u16)
        requires
            self.wf(),
        ensures
            r == read16(self@.mem, pos),
    {
        let lo = self.mem_read(pos);
        let hi = self.mem_read(pos.wrapping_add(1));
        proof {
            assert(pos.wrapping_add(1) == wrap_add16(pos, 1));
            assert((hi as u16) << 8 | (lo as u16) == lo + 0x100 * hi) by (bit_vector);
        }
        (hi as u16) << 8 | (lo as u16)
    }

    /// Little-endian 16-bit write: low byte to `pos`, high byte to `pos + 1`.
    pub fn mem_write_u16(&mut self, pos: u16, data: u16)
        requires
            old(self).wf(),
        ensures
            final(self).wf(),
            final(self)@ == (CpuState { mem: write16(old(self)@.mem, pos, data), ..old(self)@ }),
    {
        let hi = (data >> 8) as u8;
        let lo = (data & 0xff) as u8;
        proof {
            assert((data >> 8) as u8 == data / 0x100 && (data & 0xff) as u8 == data % 0x100)
                by (bit_vector);
            assert(pos.wrapping_add(1) == wrap_add16(pos, 1));
        }
        self.mem_write(pos, lo);
        self.mem_write(pos.wrapping_add(1), hi);
    }

    /// The effective address for a resolvable mode, with PC pointing at the
    /// first operand byte.  PC itself is not advanced here; the interpreter
    /// loop does that after dispatch.
    #[verifier::rlimit(60)]
    pub fn get_operand_address(&self, mode: &AddressingMode) -> (r: u16)
        requires
            self.wf(),
            mode.resolvable(),
        ensures
            r == operand_addr(self@, *mode),
    {
        match mode {
            AddressingMode::Implied => unreached(),
            AddressingMode::Accumulator => unreached(),
            AddressingMode::Immediate => self.program_counter,
            AddressingMode::ZeroPage => self.mem_read(self.program_counter) as u16,
            AddressingMode::Absolute => self.mem_read_u16(self.program_counter),
            AddressingMode::ZeroPage_X => {
                let pos = self.mem_read(self.program_counter);
                pos.wrapping_add(self.register_x) as u16
            },
            AddressingMode::ZeroPage_Y => {
                let pos = self.mem_read(self.program_counter);
                pos.wrapping_add(self.register_y) as u16
            },
            AddressingMode::Absolute_X => {
                let base = self.mem_read_u16(self.program_counter);
                base.wrapping_add(self.register_x as u16)
            },
            AddressingMode::Absolute_Y => {
                let base = self.mem_read_u16(self.program_counter);
                base.wrapping_add(self.register_y as u16)
            },
            AddressingMode::Indirect_X => {
                let base = self.mem_read(self.program_counter);
                let ptr: u8 = base.wrapping_add(self.register_x);
                let lo = self.mem_read(ptr as u16);
                let hi = self.mem_read(ptr.wrapping_add(1) as u16);
                proof {
                    assert((hi as u16) << 8 | (lo as u16) == lo + 0x100 * hi) by (bit_vector);
                }
                (hi as u16) << 8 | (lo as u16)
            },
            AddressingMode::Indirect_Y => {
                let base = self.mem_read(self.program_counter);
                let lo = self.mem_read(base as u16);
                let hi = self.mem_read(base.wrapping_add(1) as u16);
                proof {
                    assert((hi as u16) << 8 | (lo as u16) == lo + 0x100 * hi) by (bit_vector);
                }
                let deref_base = (hi as u16) << 8 | (lo as u16);
                deref_base.wrapping_add(self.register_y as u16)
            },
            AddressingMode::Relative => {
                let base = self.mem_read(self.program_counter);
                if base < 0x80 {
                    self.program_counter.wrapping_add(base as u16)
                } else {
                    self.program_counter.wrapping_add(base as u16).wrapping_sub(0x100)
                }
            },
            AddressingMode::NoneAddressing => unreached(),
        }
    }

    /// The flag updater: Zero tracks `result == 0`, Negative tracks bit 7 of
    /// `result`; every other status bit is kept.
    pub fn update_zero_and_negative_flags(&mut self, result: u8)
        requires
            old(self).wf(),
        ensures
            final(self).wf(),
            final(self)@ == (CpuState { p: set_nz(old(self)@.p, result), ..old(self)@ }),
    {
        self.status = if result == 0 {
            self.status | FLAG_ZERO
        } else {
            self.status & !FLAG_ZERO
        };
        if result & 0x80 != 0 {
            self.status = self.status | FLAG_NEGATIVE;
        } else {
            self.status = self.status & !FLAG_NEGATIVE;
        }
    }

    /// CLV: clear Overflow.
    fn clv(&mut self)
        requires
            old(self).wf(),
        ensures
            final(self).wf(),
            final(self)@ == (CpuState { p: with_flag(old(self)@.p, FLAG_OVERFLOW, false), ..old(self)@ }),
    {
        self.status = self.status & !FLAG_OVERFLOW;
    }

    /// SEI: set Interrupt-disable.
    fn sei(&mut self)
        requires
            old(self).wf(),
        ensures
            final(self).wf(),
            final(self)@ == (CpuState { p: with_flag(old(self)@.p, FLAG_INTERRUPT, true), ..old(self)@ }),
    {
        self.status = self.status | FLAG_INTERRUPT;
    }

    /// CLI: clear Interrupt-disable.
    fn cli(&mut self)
        requires
            old(self).wf(),
        ensures
            final(self).wf(),
            final(self)@ == (CpuState { p: with_flag(old(self)@.p, FLAG_INTERRUPT, false), ..old(self)@ }),
    {
        self.status = self.status & !FLAG_INTERRUPT;
    }

    /// SED: set Decimal.
    fn sed(&mut self)
        requires
            old(self).wf(),
        ensures
            final(self).wf(),
            final(self)@ == (CpuState { p: with_flag(old(self)@.p, FLAG_DECIMAL, true), ..old(self)@ }),
    {
        self.status = self.status | FLAG_DECIMAL;
    }

    /// CLD: clear Decimal.
    fn cld(&mut self)
        requires
            old(self).wf(),
        ensures
            final(self).wf(),
            final(self)@ == (CpuState { p: with_flag(old(self)@.p, FLAG_DECIMAL, false), ..old(self)@ }),
    {
        self.status = self.status & !FLAG_DECIMAL;
    }

    /// SEC: set Carry.
    fn sec(&mut self)
        requires
            old(self).wf(),
        ensures
            final(self).wf(),
            final(self)@ == (CpuState { p: with_flag(old(self)@.p, FLAG_CARRY, true), ..old(self)@ }),
    {
        self.status = self.status | FLAG_CARRY;
    }

    /// CLC: clear Carry.
    fn clc(&mut self)
        requires
            old(self).wf(),
        ensures
            final(self).wf(),
            final(self)@ == (CpuState { p: with_flag(old(self)@.p, FLAG_CARRY, false), ..old(self)@ }),
    {
        self.status = self.status & !FLAG_CARRY;
    }

    /// LDA: load the operand into A.
    fn lda(&mut self, mode: &AddressingMode)
        requires
            old(self).wf(),
            mode.resolvable(),
        ensures
            final(self).wf(),
            final(self)@ == lda_spec(old(self)@, *mode),
    {
        let addr = self.get_operand_address(mode);
        let value = self.mem_read(addr);
        self.register_a = value;
        self.update_zero_and_negative_flags(self.register_a);
    }

    /// STA: store A at the effective address.
    fn sta(&mut self, mode: &AddressingMode)
        requires
            old(self).wf(),
            mode.resolvable(),
        ensures
            final(self).wf(),
            final(self)@ == sta_spec(old(self)@, *mode),
    {
        let addr = self.get_operand_address(mode);
        self.mem_write(addr, self.register_a);
    }

    /// TAX: copy A to X.
    fn tax(&mut self)
        requires
            old(self).wf(),
        ensures
            final(self).wf(),
            final(self)@ == tax_spec(old(self)@),
    {
        self.register_x = self.register_a;
        self.update_zero_and_negative_flags(self.register_x);
    }

    /// INX: increment X modulo 256.
    fn inx(&mut self)
        requires
            old(self).wf(),
        ensures
            final(self).wf(),
            final(self)@ == inx_spec(old(self)@),
    {
        self.register_x = self.register_x.wrapping_add(1);
        self.update_zero_and_negative_flags(self.register_x);
    }

    /// AND: A takes the bitwise and with the operand.
    fn and(&mut self, mode: &AddressingMode)
        requires
            old(self).wf(),
            mode.resolvable(),
        ensures
            final(self).wf(),
            final(self)@ == and_spec(old(self)@, *mode),
    {
        let addr = self.get_operand_address(mode);
        let value = self.mem_read(addr);
        self.register_a = self.register_a & value;
        self.update_zero_and_negative_flags(self.register_a);
    }

    /// EOR: A takes the bitwise exclusive or with the operand.
    fn eor(&mut self, mode: &AddressingMode)
        requires
            old(self).wf(),
            mode.resolvable(),
        ensures
            final(self).wf(),
            final(self)@ == eor_spec(old(self)@, *mode),
    {
        let addr = self.get_operand_address(mode);
        let value = self.mem_read(addr);
        self.register_a = self.register_a ^ value;
        self.update_zero_and_negative_flags(self.register_a);
    }

    /// ORA: A takes the bitwise or with the operand.
    fn ora(&mut self, mode: &AddressingMode)
        requires
            old(self).wf(),
            mode.resolvable(),
        ensures
            final(self).wf(),
            final(self)@ == ora_spec(old(self)@, *mode),
    {
        let addr = self.get_operand_address(mode);
        let value = self.mem_read(addr);
        self.register_a = self.register_a | value;
        self.update_zero_and_negative_flags(self.register_a);
    }

    /// ADC: add the operand and the carry into A.
    fn adc(&mut self, mode: &AddressingMode)
        requires
            old(self).wf(),
            mode.resolvable(),
        ensures
            final(self).wf(),
            final(self)@ == adc_spec(old(self)@, *mode),
    {
        let addr = self.get_operand_address(mode);
        let value = self.mem_read(addr);

        let carry = self.status & FLAG_CARRY;
        let total: u32 = self.register_a as u32 + value as u32 + carry as u32;
        let n: u8 = (total % 0x100) as u8;

        let overflow = (self.register_a & SIGN_BIT) == (value & SIGN_BIT) && (value & SIGN_BIT)
            != (n & SIGN_BIT);

        self.register_a = n;

        self.status = if total >= 0x100 {
            self.status | FLAG_CARRY
        } else {
            self.status & !FLAG_CARRY
        };

        self.status = if overflow {
            self.status | FLAG_OVERFLOW
        } else {
            self.status & !FLAG_OVERFLOW
        };

        self.update_zero_and_negative_flags(self.register_a);
    }

    /// SBC: subtract the operand and the borrow from A.  Carry is set again
    /// exactly when no borrow occurred.
    fn sbc(&mut self, mode: &AddressingMode)
        requires
            old(self).wf(),
            mode.resolvable(),
        ensures
            final(self).wf(),
            final(self)@ == sbc_spec(old(self)@, *mode),
    {
        let addr = self.get_operand_address(mode);
        let value = self.mem_read(addr);

        let carry = self.status & FLAG_CARRY;
        proof {
            let p = self.status;
            assert(p & 1 < 2) by (bit_vector);
        }
        let total: u32 = 0x200 + self.register_a as u32 - value as u32 - (1 - carry) as u32;
        let n: u8 = (total % 0x100) as u8;

        let overflow = (self.register_a & SIGN_BIT) != (value & SIGN_BIT)
            && (self.register_a & SIGN_BIT) != (n & SIGN_BIT);

        self.register_a = n;

        self.status = if total >= 0x200 {
            self.status | FLAG_CARRY
        } else {
            self.status & !FLAG_CARRY
        };

        self.status = if overflow {
            self.status | FLAG_OVERFLOW
        } else {
            self.status & !FLAG_OVERFLOW
        };

        self.update_zero_and_negative_flags(self.register_a);
    }

    /// CMP: compare A with the operand.
    fn cmp(&mut self, mode: &AddressingMode)
        requires
            old(self).wf(),
            mode.resolvable(),
        ensures
            final(self).wf(),
            final(self)@ == compare_spec(old(self)@, old(self)@.a, *mode),
    {
        let target = self.register_a;
        self._cmp(target, mode);
    }

    /// CPX: compare X with the operand.
    fn cpx(&mut self, mode: &AddressingMode)
        requires
            old(self).wf(),
            mode.resolvable(),
        ensures
            final(self).wf(),
            final(self)@ == compare_spec(old(self)@, old(self)@.x, *mode),
    {
        let target = self.register_x;
        self._cmp(target, mode);
    }

    /// CPY: compare Y with the operand.
    fn cpy(&mut self, mode: &AddressingMode)
        requires
            old(self).wf(),
            mode.resolvable(),
        ensures
            final(self).wf(),
            final(self)@ == compare_spec(old(self)@, old(self)@.y, *mode),
    {
        let target = self.register_y;
        self._cmp(target, mode);
    }

    /// The shared compare: Carry from `target >= M`, Zero and Negative from
    /// the wrapped difference; registers and memory untouched.
    fn _cmp(&mut self, target: u8, mode: &AddressingMode)
        requires
            old(self).wf(),
            mode.resolvable(),
        ensures
            final(self).wf(),
            final(self)@ == compare_spec(old(self)@, target, *mode),
    {
        let addr = self.get_operand_address(mode);
        let value = self.mem_read(addr);

        if target >= value {
            self.sec();
        } else {
            self.clc();
        }

        let diff = target.wrapping_sub(value);
        self.update_zero_and_negative_flags(diff);
    }

    /// BIT: Zero from `A & M`, Overflow and Negative copied from the operand.
    fn bit(&mut self, mode: &AddressingMode)
        requires
            old(self).wf(),
            mode.resolvable(),
        ensures
            final(self).wf(),
            final(self)@ == bit_spec(old(self)@, *mode),
    {
        let addr = self.get_operand_address(mode);
        let value = self.mem_read(addr);
        let masked = self.register_a & value;

        if masked == 0 {
            self.status = self.status | FLAG_ZERO;
        } else {
            self.status = self.status & !FLAG_ZERO;
        }

        let copied = FLAG_NEGATIVE | FLAG_OVERFLOW;
        self.status = (self.status & !copied) | (value & copied);
    }

    /// The shared branch: when the tested flag matches the wanted polarity,
    /// PC takes the relative target; otherwise nothing changes.
    fn _brach(&mut self, mode: &AddressingMode, flag: u8, non_zero: bool)
        requires
            old(self).wf(),
            *mode == AddressingMode::Relative,
        ensures
            final(self).wf(),
            final(self)@ == branch_spec(old(self)@, flag, non_zero),
    {
        let addr = self.get_operand_address(mode);

        if non_zero {
            if self.status & flag != 0 {
                self.program_counter = addr;
            }
        } else {
            if self.status & flag == 0 {
                self.program_counter = addr;
            }
        }
    }

    /// BVS: branch when Overflow is set.
    fn bvs(&mut self, mode: &AddressingMode)
        requires
            old(self).wf(),
            *mode == AddressingMode::Relative,
        ensures
            final(self).wf(),
            final(self)@ == branch_spec(old(self)@, FLAG_OVERFLOW, true),
    {
        self._brach(mode, FLAG_OVERFLOW, true);
    }

    /// BVC: branch when Overflow is clear.
    fn bvc(&mut self, mode: &AddressingMode)
        requires
            old(self).wf(),
            *mode == AddressingMode::Relative,
        ensures
            final(self).wf(),
            final(self)@ == branch_spec(old(self)@, FLAG_OVERFLOW, false),
    {
        self._brach(mode, FLAG_OVERFLOW, false);
    }

    /// BCC: branch when Carry is clear.
    fn bcc(&mut self, mode: &AddressingMode)
        requires
            old(self).wf(),
            *mode == AddressingMode::Relative,
        ensures
            final(self).wf(),
            final(self)@ == branch_spec(old(self)@, FLAG_CARRY, false),
    {
        self._brach(mode, FLAG_CARRY, false);
    }

    /// BCS: branch when Carry is set.
    fn bcs(&mut self, mode: &AddressingMode)
        requires
            old(self).wf(),
            *mode == AddressingMode::Relative,
        ensures
            final(self).wf(),
            final(self)@ == branch_spec(old(self)@, FLAG_CARRY, true),
    {
        self._brach(mode, FLAG_CARRY, true);
    }

    /// BEQ: branch when Zero is set.
    fn beq(&mut self, mode: &AddressingMode)
        requires
            old(self).wf(),
            *mode == AddressingMode::Relative,
        ensures
            final(self).wf(),
            final(self)@ == branch_spec(old(self)@, FLAG_ZERO, true),
    {
        self._brach(mode, FLAG_ZERO, true);
    }

    /// BNE: branch when Zero is clear.
    fn bne(&mut self, mode: &AddressingMode)
        requires
            old(self).wf(),
            *mode == AddressingMode::Relative,
        ensures
            final(self).wf(),
            final(self)@ == branch_spec(old(self)@, FLAG_ZERO, false),
    {
        self._brach(mode, FLAG_ZERO, false);
    }

    /// BMI: branch when Negative is set.
    fn bmi(&mut self, mode: &AddressingMode)
        requires
            old(self).wf(),
            *mode == AddressingMode::Relative,
        ensures
            final(self).wf(),
            final(self)@ == branch_spec(old(self)@, FLAG_NEGATIVE, true),
    {
        self._brach(mode, FLAG_NEGATIVE, true);
    }

    /// BPL: branch when Negative is clear.
    fn bpl(&mut self, mode: &AddressingMode)
        requires
            old(self).wf(),
            *mode == AddressingMode::Relative,
        ensures
            final(self).wf(),
            final(self)@ == branch_spec(old(self)@, FLAG_NEGATIVE, false),
    {
        self._brach(mode, FLAG_NEGATIVE, false);
    }

    /// ASL: shift left by one, on A or on memory; Carry takes the old bit 7.
    fn asl(&mut self, mode: &AddressingMode)
        requires
            old(self).wf(),
            *mode == AddressingMode::Accumulator || mode.resolvable(),
        ensures
            final(self).wf(),
            final(self)@ == asl_spec(old(self)@, *mode),
    {
        let (value, carry) = if mode == &AddressingMode::Accumulator {
            let old_value = self.register_a;
            let doubled: u32 = (old_value as u32) * 2;
            let value: u8 = (doubled % 0x100) as u8;
            self.register_a = value;
            (value, old_value >= 0x80)
        } else {
            let addr = self.get_operand_address(mode);
            let old_value = self.mem_read(addr);
            let doubled: u32 = (old_value as u32) * 2;
            let value: u8 = (doubled % 0x100) as u8;
            self.mem_write(addr, value);
            (value, old_value >= 0x80)
        };

        self.status = if carry {
            self.status | FLAG_CARRY
        } else {
            self.status & !FLAG_CARRY
        };

        self.update_zero_and_negative_flags(value);
    }

    /// ROL: rotate left through Carry.
    fn rol(&mut self, mode: &AddressingMode)
        requires
            old(self).wf(),
            *mode == AddressingMode::Accumulator || mode.resolvable(),
        ensures
            final(self).wf(),
            final(self)@ == rol_spec(old(self)@, *mode),
    {
        let (value, carry) = if mode == &AddressingMode::Accumulator {
            let old_value = self.register_a;
            let doubled: u32 = (old_value as u32) * 2;
            let value: u8 = ((doubled % 0x100) as u8) | (self.status & FLAG_CARRY);
            self.register_a = value;
            (value, old_value >= 0x80)
        } else {
            let addr = self.get_operand_address(mode);
            let old_value = self.mem_read(addr);
            let doubled: u32 = (old_value as u32) * 2;
            let value: u8 = ((doubled % 0x100) as u8) | (self.status & FLAG_CARRY);
            self.mem_write(addr, value);
            (value, old_value >= 0x80)
        };

        self.status = if carry {
            self.status | FLAG_CARRY
        } else {
            self.status & !FLAG_CARRY
        };

        self.update_zero_and_negative_flags(value);
    }

    /// LSR: shift right by one; Carry takes the old bit 0.
    fn lsr(&mut self, mode: &AddressingMode)
        requires
            old(self).wf(),
            *mode == AddressingMode::Accumulator || mode.resolvable(),
        ensures
            final(self).wf(),
            final(self)@ == lsr_spec(old(self)@, *mode),
    {
        let (value, carry) = if mode == &AddressingMode::Accumulator {
            let old_value = self.register_a;
            let carry = old_value & 0x01;
            self.register_a = old_value / 2;
            (self.register_a, carry)
        } else {
            let addr = self.get_operand_address(mode);
            let old_value = self.mem_read(addr);
            let carry = old_value & 0x01;
            let value = old_value / 2;
            self.mem_write(addr, value);
            (value, carry)
        };

        self.status = if carry == 1 {
            self.status | FLAG_CARRY
        } else {
            self.status & !FLAG_CARRY
        };

        self.update_zero_and_negative_flags(value);
    }

    /// ROR: rotate right through Carry.
    fn ror(&mut self, mode: &AddressingMode)
        requires
            old(self).wf(),
            *mode == AddressingMode::Accumulator || mode.resolvable(),
        ensures
            final(self).wf(),
            final(self)@ == ror_spec(old(self)@, *mode),
    {
        let (value, carry) = if mode == &AddressingMode::Accumulator {
            let old_value = self.register_a;
            let carry = old_value & 0x01;
            proof {
                let p = self.status;
                assert(p & 1 < 2) by (bit_vector);
            }
            let value = (old_value / 2) | ((self.status & FLAG_CARRY) << 7);
            self.register_a = value;
            (value, carry)
        } else {
            let addr = self.get_operand_address(mode);
            let old_value = self.mem_read(addr);
            let carry = old_value & 0x01;
            proof {
                let p = self.status;
                assert(p & 1 < 2) by (bit_vector);
            }
            let value = (old_value / 2) | ((self.status & FLAG_CARRY) << 7);
            self.mem_write(addr, value);
            (value, carry)
        };

        self.status = if carry == 1 {
            self.status | FLAG_CARRY
        } else {
            self.status & !FLAG_CARRY
        };

        self.update_zero_and_negative_flags(value);
    }

    /// Dispatch one decoded instruction to its routine.  BRK changes nothing
    /// here; the interpreter loop terminates on it.
    fn execute(&mut self, m: Mnemonic, mode: &AddressingMode)
        requires
            old(self).wf(),
            instr_mode_ok(m, *mode),
        ensures
            final(self).wf(),
            final(self)@ == apply_instr(m, *mode, old(self)@),
    {
        proof {
            reveal(apply_instr);
        }
        match m {
            Mnemonic::LDA => self.lda(mode),
            Mnemonic::STA => self.sta(mode),
            Mnemonic::ADC => self.adc(mode),
            Mnemonic::SBC => self.sbc(mode),
            Mnemonic::AND => self.and(mode),
            Mnemonic::EOR => self.eor(mode),
            Mnemonic::ORA => self.ora(mode),
            Mnemonic::ASL => self.asl(mode),
            Mnemonic::LSR => self.lsr(mode),
            Mnemonic::ROL => self.rol(mode),
            Mnemonic::ROR => self.ror(mode),
            Mnemonic::BIT => self.bit(mode),
            Mnemonic::BCC => self.bcc(mode),
            Mnemonic::BCS => self.bcs(mode),
            Mnemonic::BEQ => self.beq(mode),
            Mnemonic::BNE => self.bne(mode),
            Mnemonic::BMI => self.bmi(mode),
            Mnemonic::BPL => self.bpl(mode),
            Mnemonic::BVC => self.bvc(mode),
            Mnemonic::BVS => self.bvs(mode),
            Mnemonic::CMP => self.cmp(mode),
            Mnemonic::CPX => self.cpx(mode),
            Mnemonic::CPY => self.cpy(mode),
            Mnemonic::CLC => self.clc(),
            Mnemonic::SEC => self.sec(),
            Mnemonic::CLI => self.cli(),
            Mnemonic::SEI => self.sei(),
            Mnemonic::CLD => self.cld(),
            Mnemonic::SED => self.sed(),
            Mnemonic::CLV => self.clv(),
            Mnemonic::TAX => self.tax(),
            Mnemonic::INX => self.inx(),
            Mnemonic::BRK => {},
        }
    }

    /// The interpreter loop: fetch the opcode at PC, advance PC past it,
    /// dispatch, advance PC past the operand bytes, until BRK cleanly ends
    /// the run or an opcode outside the decode table is surfaced as an
    /// error.  The final machine is exactly the model's stopping state.
    pub fn run(&mut self) -> (r: Result<(), RunError>)
        requires
            old(self).wf(),
            halts(old(self)@),
        ensures
            final(self).wf(),
            ({
                let stp = stop_state(old(self)@);
                if decode_spec(fetch(stp)) is Some {
                    r == Ok::<(), RunError>(()) && fetch(stp) == 0x00 && final(self)@
                        == step_spec(stp)
                } else {
                    r == Err::<(), RunError>(RunError::UnrecognizedOpcode(fetch(stp)))
                        && final(self)@ == stp
                }
            }),
    {
        let ghost init = old(self)@;
        let ghost mut fuel: nat = choose|n: nat| stopped(#[trigger] run_n(init, n));
        proof {
            assert(stopped(run_n(init, fuel)));
        }
        loop
            invariant
                self.wf(),
                init == old(self)@,
                halts(init),
                halts(self@),
                stop_state(self@) == stop_state(init),
                stopped(run_n(self@, fuel)),
            decreases fuel,
        {
            let ghost prev = self@;
            let code = self.mem_read(self.program_counter);
            match decode(code) {
                None => {
                    proof {
                        lemma_stop_state_of_stopped(prev);
                    }
                    return Err(RunError::UnrecognizedOpcode(code));
                },
                Some((m, mode, len)) => {
                    self.program_counter = self.program_counter.wrapping_add(1);
                    if code == 0x00 {
                        proof {
                            reveal(decode_spec);
                            reveal(apply_instr);
                            lemma_stop_state_of_stopped(prev);
                            assert(self@ == step_spec(prev));
                        }
                        return Ok(());
                    }
                    self.execute(m, &mode);
                    self.program_counter = self.program_counter.wrapping_add(len as u16);
                    proof {
                        assert(self@ == step_spec(prev));
                        assert(!stopped(prev));
                        lemma_step_keeps_stop_state(prev);
                        assert(fuel != 0);
                        fuel = (fuel - 1) as nat;
                        assert(stopped(run_n(self@, fuel)));
                    }
                },
            }
        }
    }

    /// Clear the registers and the status byte, then fetch PC from the
    /// reset vector.
    pub fn reset(&mut self)
        requires
            old(self).wf(),
        ensures
            final(self).wf(),
            final(self)@ == reset_spec(old(self)@),
    {
        self.register_a = 0;
        self.register_x = 0;
        self.register_y = 0;
        self.status = 0;

        self.program_counter = self.mem_read_u16(RESET_VECTOR);
    }

    /// Copy the program blob to the PRG-ROM region at 0x8000 and write that
    /// start address to the reset vector.
    pub fn load(&mut self, program: Vec<u8>)
        requires
            old(self).wf(),
            program@.len() <= 0x8000,
        ensures
            final(self).wf(),
            final(self)@ == load_spec(old(self)@, program@),
    {
        let mut i: usize = 0;
        while i < program.len()
            invariant
                self.wf(),
                program@.len() <= 0x8000,
                i <= program@.len(),
                self@.a == old(self)@.a,
                self@.x == old(self)@.x,
                self@.y == old(self)@.y,
                self@.p == old(self)@.p,
                self@.pc == old(self)@.pc,
                self@.mem.len() == old(self)@.mem.len(),
                forall|j: int|
                    0 <= j < 0x10000 && !(0x8000 <= j < 0x8000 + i) ==> self@.mem[j] == old(
                        self,
                    )@.mem[j],
                forall|j: int| 0x8000 <= j < 0x8000 + i ==> self@.mem[j] == program@[j - 0x8000],
            decreases program@.len() - i,
        {
            let b = program[i];
            self.mem_write((PRG_START as usize + i) as u16, b);
            i += 1;
        }
        proof {
            assert(self@.mem =~= prog_placed(old(self)@.mem, program@));
        }
        self.mem_write_u16(RESET_VECTOR, PRG_START);
    }

    /// Load the program, reset, and run until BRK.
    pub fn load_and_run(&mut self, program: Vec<u8>) -> (r: Result<(), RunError>)
        requires
            old(self).wf(),
            program@.len() <= 0x8000,
            halts(reset_spec(load_spec(old(self)@, program@))),
        ensures
            final(self).wf(),
            ({
                let stp = stop_state(reset_spec(load_spec(old(self)@, program@)));
                if decode_spec(fetch(stp)) is Some {
                    r == Ok::<(), RunError>(()) && fetch(stp) == 0x00 && final(self)@
                        == step_spec(stp)
                } else {
                    r == Err::<(), RunError>(RunError::UnrecognizedOpcode(fetch(stp)))
                        && final(self)@ == stp
                }
            }),
    {
        self.load(program);
        self.reset();
        self.run()
    }
}

} // verus!
