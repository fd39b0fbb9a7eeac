//! The processor as a mathematical state machine: what the resolver returns
//! for each addressing mode and what each instruction does to the state.

use vstd::prelude::*;
use crate::flags::{Flag, flag_is_set, with_flag, with_result_flags};
use crate::memory::{MEM_SIZE, BUS_MASK, PERIPHERAL_MASK};
use crate::decode::{Instruction, decode_spec};

verus! {

/// How an instruction's operand bytes become an effective address.
#[derive(Clone, Copy, Debug, PartialEq, Eq, Structural)]
pub enum Mode {
    Immediate,
    ZeroPage,
    ZeroPageX,
    ZeroPageY,
    Absolute,
    AbsoluteX,
    AbsoluteY,
    IndirectX,
    IndirectY,
    Indirect,
}

/// The registers that instructions copy between.
#[derive(Clone, Copy, Debug, PartialEq, Eq, Structural)]
pub enum Reg {
    A,
    X,
    Y,
    Sp,
}

/// Why a step stopped. Every error is fatal and leaves the state as it was.
#[derive(Clone, Copy, Debug, PartialEq, Eq, Structural)]
pub enum CpuError {
    /// The byte at the program counter is no known instruction.
    UnimplementedOpcode(u8),
    /// The instruction does not take this addressing mode.
    InvalidAddressingMode(Mode),
    /// A computed address lies outside memory.
    OutOfBounds(i64),
}

/// A resolved operand: its effective address, the length in bytes of the
/// instruction, and whether indexing crossed into the next page.
#[derive(Clone, Copy, Debug, PartialEq, Eq, Structural)]
pub struct Operand {
    pub addr: usize,
    pub len: usize,
    pub page_crossed: bool,
}

/// The whole state of the processor.
pub struct CpuState {
    pub mem: Seq<u8>,
    pub status: u8,
    pub pc: usize,
    pub x: u8,
    pub y: u8,
    pub a: u8,
    pub sp: u8,
    pub cycles: nat,
}

/// Outcome of one instruction: the new state (program counter untouched)
/// and the address of the next instruction.
pub type Effect = Result<(CpuState, usize), CpuError>;

impl CpuState {
    /// Memory has its full size.
    pub open spec fn wf(self) -> bool {
        self.mem.len() == MEM_SIZE
    }

    pub open spec fn flag(self, f: Flag) -> bool {
        flag_is_set(self.status, f)
    }

    pub open spec fn set_flag(self, f: Flag, v: bool) -> CpuState {
        CpuState { status: with_flag(self.status, f, v), ..self }
    }

    pub open spec fn set_result_flags(self, v: u8) -> CpuState {
        CpuState { status: with_result_flags(self.status, v), ..self }
    }

    pub open spec fn charge(self, n: nat) -> CpuState {
        CpuState { cycles: self.cycles + n, ..self }
    }

    pub open spec fn reg(self, r: Reg) -> u8 {
        match r {
            Reg::A => self.a,
            Reg::X => self.x,
            Reg::Y => self.y,
            Reg::Sp => self.sp,
        }
    }

    pub open spec fn set_reg(self, r: Reg, v: u8) -> CpuState {
        match r {
            Reg::A => CpuState { a: v, ..self },
            Reg::X => CpuState { x: v, ..self },
            Reg::Y => CpuState { y: v, ..self },
            Reg::Sp => CpuState { sp: v, ..self },
        }
    }

    /// A write through the bus: the cell itself and its peripheral alias
    /// both take the value.
    pub open spec fn store(self, addr: int, v: u8) -> CpuState {
        CpuState { mem: self.mem.update(addr, v).update(peripheral_addr(addr), v), ..self }
    }
}

/// The peripheral register that a write to `addr` also reaches.
pub open spec fn peripheral_addr(addr: int) -> int {
    ((addr as u16) & PERIPHERAL_MASK) as int
}

/// The 16-bit little-endian word of two bytes.
pub open spec fn le_word(lo: u8, hi: u8) -> u16 {
    (lo as int + 256 * hi as int) as u16
}

/// The bus-translated absolute address held in the two bytes after `pc`.
pub open spec fn absolute_base(mem: Seq<u8>, pc: int) -> u16 {
    le_word(mem[pc + 1], mem[pc + 2]) & BUS_MASK
}

/// An absolute address plus an index register; the page is crossed when the
/// low byte overflows.
pub open spec fn indexed(base: u16, idx: u8) -> Operand {
    Operand {
        addr: (base as int + idx as int) as usize,
        len: 3,
        page_crossed: base as int % 256 + idx as int >= 256,
    }
}

/// The eight-bit sum of two bytes.
pub open spec fn wrap_add(a: u8, b: int) -> u8 {
    ((a as int + b) % 256) as u8
}

/// Length in bytes of an instruction in `mode`.
pub open spec fn mode_len(mode: Mode) -> nat {
    match mode {
        Mode::Absolute | Mode::AbsoluteX | Mode::AbsoluteY | Mode::Indirect => 3,
        _ => 2,
    }
}

/// The modes that the resolver computes; the indirect ones it does not.
pub open spec fn resolvable(mode: Mode) -> bool {
    !(mode is IndirectX || mode is IndirectY || mode is Indirect)
}

/// The operand of the instruction at `pc` in `mode`.
pub open spec fn operand_spec(s: CpuState, mode: Mode, pc: int) -> Result<Operand, CpuError> {
    if !resolvable(mode) {
        Err(CpuError::InvalidAddressingMode(mode))
    } else if pc + mode_len(mode) >= MEM_SIZE {
        Err(CpuError::OutOfBounds((pc + mode_len(mode)) as i64))
    } else {
        let lo = s.mem[pc + 1];
        match mode {
            Mode::Immediate => Ok(Operand { addr: (pc + 1) as usize, len: 2, page_crossed: false }),
            Mode::ZeroPage => Ok(Operand { addr: lo as usize, len: 2, page_crossed: false }),
            Mode::ZeroPageX => Ok(
                Operand { addr: wrap_add(lo, s.x as int) as usize, len: 2, page_crossed: false },
            ),
            Mode::ZeroPageY => Ok(
                Operand { addr: wrap_add(lo, s.y as int) as usize, len: 2, page_crossed: false },
            ),
            Mode::Absolute => Ok(
                Operand { addr: absolute_base(s.mem, pc) as usize, len: 3, page_crossed: false },
            ),
            Mode::AbsoluteX => Ok(indexed(absolute_base(s.mem, pc), s.x)),
            _ => Ok(indexed(absolute_base(s.mem, pc), s.y)),
        }
    }
}

/// Cycles that a load costs in `mode`.
pub open spec fn load_cycles(mode: Mode, page_crossed: bool) -> nat {
    match mode {
        Mode::Immediate => 2,
        Mode::ZeroPage => 3,
        Mode::AbsoluteX | Mode::AbsoluteY => if page_crossed {
            5
        } else {
            4
        },
        _ => 4,
    }
}

/// Cycles that a store costs in `mode`.
pub open spec fn store_cycles(mode: Mode) -> nat {
    match mode {
        Mode::ZeroPage => 3,
        Mode::ZeroPageX | Mode::Absolute => 4,
        _ => 5,
    }
}

pub open spec fn ldx_accepts(mode: Mode) -> bool {
    mode is Immediate || mode is ZeroPage || mode is ZeroPageY || mode is Absolute
        || mode is AbsoluteY
}

pub open spec fn ldy_accepts(mode: Mode) -> bool {
    mode is Immediate || mode is ZeroPage || mode is ZeroPageX || mode is Absolute
        || mode is AbsoluteX
}

pub open spec fn lda_accepts(mode: Mode) -> bool {
    mode is Immediate || mode is ZeroPage || mode is ZeroPageX || mode is Absolute
        || mode is AbsoluteX || mode is AbsoluteY
}

pub open spec fn sta_accepts(mode: Mode) -> bool {
    mode is ZeroPage || mode is ZeroPageX || mode is Absolute || mode is AbsoluteX
        || mode is AbsoluteY
}

/// A load into `reg` whose instruction accepts `mode` when `accepts` holds.
pub open spec fn load_spec(s: CpuState, reg: Reg, accepts: bool, mode: Mode, pc: int) -> Effect {
    if !accepts {
        Err(CpuError::InvalidAddressingMode(mode))
    } else {
        match operand_spec(s, mode, pc) {
            Err(e) => Err(e),
            Ok(op) => if op.addr >= MEM_SIZE {
                Err(CpuError::OutOfBounds(op.addr as i64))
            } else {
                let v = s.mem[op.addr as int];
                Ok(
                    (
                        s.set_reg(reg, v).set_result_flags(v).charge(
                            load_cycles(mode, op.page_crossed),
                        ),
                        (pc + op.len) as usize,
                    ),
                )
            },
        }
    }
}

/// STA: the accumulator written through the bus; flags untouched.
pub open spec fn sta_spec(s: CpuState, mode: Mode, pc: int) -> Effect {
    if !sta_accepts(mode) {
        Err(CpuError::InvalidAddressingMode(mode))
    } else {
        match operand_spec(s, mode, pc) {
            Err(e) => Err(e),
            Ok(op) => if op.addr >= MEM_SIZE {
                Err(CpuError::OutOfBounds(op.addr as i64))
            } else {
                Ok((s.store(op.addr as int, s.a).charge(store_cycles(mode)), (pc + op.len) as usize))
            },
        }
    }
}

/// A one-byte instruction at `pc` with effect `e`, which needs the next
/// instruction to lie in memory too.
pub open spec fn one_byte(pc: int, e: (CpuState, usize)) -> Effect {
    if pc + 1 >= MEM_SIZE {
        Err(CpuError::OutOfBounds((pc + 1) as i64))
    } else {
        Ok(e)
    }
}

/// A status-flag instruction: one flag takes a fixed value.
pub open spec fn flag_op_spec(s: CpuState, f: Flag, v: bool, pc: int) -> (CpuState, usize) {
    (s.set_flag(f, v).charge(2), (pc + 1) as usize)
}

/// A register transfer; the stack pointer transfers leave the flags alone.
pub open spec fn transfer_spec(s: CpuState, from: Reg, to: Reg, pc: int) -> (CpuState, usize) {
    let v = s.reg(from);
    let t = s.set_reg(to, v);
    (
        if from is Sp || to is Sp {
            t
        } else {
            t.set_result_flags(v)
        }.charge(2),
        (pc + 1) as usize,
    )
}

/// INX/INY (`delta` 1) and DEX/DEY (`delta` -1), wrapping in eight bits.
pub open spec fn increment_spec(s: CpuState, reg: Reg, delta: int, pc: int) -> (CpuState, usize) {
    let v = wrap_add(s.reg(reg), delta);
    (s.set_reg(reg, v).set_result_flags(v).charge(2), (pc + 1) as usize)
}

/// PHA: the accumulator written at 0x100 + sp, then sp decremented.
pub open spec fn pha_spec(s: CpuState, pc: int) -> (CpuState, usize) {
    (
        s.store(0x100 + s.sp as int, s.a).set_reg(Reg::Sp, wrap_add(s.sp, -1)).charge(3),
        (pc + 1) as usize,
    )
}

/// A byte read as a two's complement offset.
pub open spec fn signed_offset(b: u8) -> int {
    if b < 128 {
        b as int
    } else {
        b as int - 256
    }
}

/// BNE: taken when Zero is clear, to pc + 2 + the signed offset; otherwise
/// on to pc + 2. Either way the next address must lie in memory.
pub open spec fn bne_spec(s: CpuState, pc: int) -> Effect {
    if pc + 1 >= MEM_SIZE {
        Err(CpuError::OutOfBounds((pc + 1) as i64))
    } else if s.flag(Flag::Zero) {
        if pc + 2 >= MEM_SIZE {
            Err(CpuError::OutOfBounds((pc + 2) as i64))
        } else {
            Ok((s.charge(2), (pc + 2) as usize))
        }
    } else {
        let target = pc + 2 + signed_offset(s.mem[pc + 1]);
        if target < 0 || target >= MEM_SIZE {
            Err(CpuError::OutOfBounds(target as i64))
        } else {
            Ok((s.charge(3), target as usize))
        }
    }
}

/// JMP: only the absolute form is implemented.
pub open spec fn jmp_spec(s: CpuState, mode: Mode, pc: int) -> Effect {
    if !(mode is Absolute) {
        Err(CpuError::InvalidAddressingMode(mode))
    } else if pc + 3 > MEM_SIZE {
        Err(CpuError::OutOfBounds(MEM_SIZE as i64))
    } else {
        let target = absolute_base(s.mem, pc);
        if target >= MEM_SIZE {
            Err(CpuError::OutOfBounds(target as i64))
        } else {
            Ok((s.charge(3), target as usize))
        }
    }
}

/// Decimal correction of a binary sum: 6 added when the low digit is over
/// 9, then 0x60 when the high digit is over 9.
pub open spec fn bcd_adjust(sum: u16) -> u16 {
    let r = if sum & 0x0F > 0x09 {
        (sum + 0x06) as u16
    } else {
        sum
    };
    if r & 0xF0 > 0x90 {
        (r + 0x60) as u16
    } else {
        r
    }
}

/// The sum that ADC forms: accumulator, operand and carry, then the decimal
/// correction when the Decimal flag is set.
pub open spec fn adc_sum(s: CpuState, value: u8) -> u16 {
    let sum = (s.a as int + value as int + if s.flag(Flag::Carry) {
        1int
    } else {
        0
    }) as u16;
    if s.flag(Flag::Decimal) {
        bcd_adjust(sum)
    } else {
        sum
    }
}

/// ADC: the low byte of the sum in the accumulator; Carry when the sum
/// passes 0xFF; Overflow when both inputs share a sign that the result does
/// not; Zero and Negative from the result.
pub open spec fn adc_spec(s: CpuState, value: u8) -> CpuState {
    let sum = adc_sum(s, value);
    let res = (sum % 256) as u8;
    s.set_reg(Reg::A, res).set_flag(Flag::Carry, sum > 0xFF).set_flag(
        Flag::Overflow,
        (!(s.a ^ value) & (s.a ^ res) & 0x80) != 0,
    ).set_result_flags(res)
}


/// What instruction `ins`, fetched at `pc`, does to `s`.
pub open spec fn exec_spec(s: CpuState, ins: Instruction, pc: int) -> Effect {
    match ins {
        Instruction::Clc => one_byte(pc, flag_op_spec(s, Flag::Carry, false, pc)),
        Instruction::Sec => one_byte(pc, flag_op_spec(s, Flag::Carry, true, pc)),
        Instruction::Cli => one_byte(pc, flag_op_spec(s, Flag::InterruptDisable, false, pc)),
        Instruction::Sei => one_byte(pc, flag_op_spec(s, Flag::InterruptDisable, true, pc)),
        Instruction::Clv => one_byte(pc, flag_op_spec(s, Flag::Overflow, false, pc)),
        Instruction::Cld => one_byte(pc, flag_op_spec(s, Flag::Decimal, false, pc)),
        Instruction::Sed => one_byte(pc, flag_op_spec(s, Flag::Decimal, true, pc)),
        Instruction::Ldx(m) => load_spec(s, Reg::X, ldx_accepts(m), m, pc),
        Instruction::Ldy(m) => load_spec(s, Reg::Y, ldy_accepts(m), m, pc),
        Instruction::Lda(m) => load_spec(s, Reg::A, lda_accepts(m), m, pc),
        Instruction::Sta(m) => sta_spec(s, m, pc),
        Instruction::Txs => one_byte(pc, transfer_spec(s, Reg::X, Reg::Sp, pc)),
        Instruction::Tsx => one_byte(pc, transfer_spec(s, Reg::Sp, Reg::X, pc)),
        Instruction::Pha => one_byte(pc, pha_spec(s, pc)),
        Instruction::Tax => one_byte(pc, transfer_spec(s, Reg::A, Reg::X, pc)),
        Instruction::Txa => one_byte(pc, transfer_spec(s, Reg::X, Reg::A, pc)),
        Instruction::Dex => one_byte(pc, increment_spec(s, Reg::X, -1, pc)),
        Instruction::Inx => one_byte(pc, increment_spec(s, Reg::X, 1, pc)),
        Instruction::Tay => one_byte(pc, transfer_spec(s, Reg::A, Reg::Y, pc)),
        Instruction::Tya => one_byte(pc, transfer_spec(s, Reg::Y, Reg::A, pc)),
        Instruction::Dey => one_byte(pc, increment_spec(s, Reg::Y, -1, pc)),
        Instruction::Iny => one_byte(pc, increment_spec(s, Reg::Y, 1, pc)),
        Instruction::Bne => bne_spec(s, pc),
        Instruction::Jmp(m) => jmp_spec(s, m, pc),
    }
}

/// One fetch-decode-execute step: the byte at the program counter is looked
/// up and executed, and the program counter moves to the next instruction.
pub open spec fn step_spec(s: CpuState) -> Result<CpuState, CpuError> {
    if s.pc >= MEM_SIZE {
        Err(CpuError::OutOfBounds(s.pc as i64))
    } else {
        let op = s.mem[s.pc as int];
        match decode_spec(op) {
            None => Err(CpuError::UnimplementedOpcode(op)),
            Some(ins) => match exec_spec(s, ins, s.pc as int) {
                Ok((t, next)) => Ok(CpuState { pc: next, ..t }),
                Err(e) => Err(e),
            },
        }
    }
}

/// Up to `n` steps from `s`: the state reached, and the error that stopped
/// the run early, if one did.
pub open spec fn run_spec(s: CpuState, n: nat) -> (CpuState, Option<CpuError>)
    decreases n,
{
    if n == 0 {
        (s, None)
    } else {
        match step_spec(s) {
            Ok(t) => run_spec(t, (n - 1) as nat),
            Err(e) => (s, Some(e)),
        }
    }
}

/// Whether an instruction method, returning `r` and leaving `new` behind
/// from `old`, did what `e` describes: on success the described state and
/// next address; on failure the described error and no change at all.
pub open spec fn effect_taken(
    old: CpuState,
    new: CpuState,
    r: Result<usize, CpuError>,
    e: Effect,
) -> bool {
    match e {
        Ok((t, next)) => r == Ok::<usize, CpuError>(next) && new == t,
        Err(err) => r == Err::<usize, CpuError>(err) && new == old,
    }
}

} // verus!
