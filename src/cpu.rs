//! The processor: registers, status flags and memory, with one method per
//! instruction and the step that fetches, decodes and runs them.

use vstd::prelude::*;
use crate::flags::{Flag, flag_mask};
use crate::memory::{MEM_SIZE, translate_addr, translate_for_tia};
use crate::decode::{Instruction, decode, decode_spec};
use crate::semantics::{
    CpuError, CpuState, Mode, Operand, Reg, absolute_base, adc_spec, bne_spec, effect_taken,
    exec_spec, flag_op_spec, increment_spec, indexed, jmp_spec, lda_accepts, ldx_accepts,
    ldy_accepts, load_cycles, load_spec, operand_spec, peripheral_addr, pha_spec, signed_offset,
    sta_spec, run_spec, step_spec, store_cycles, transfer_spec,
};
use crate::laws::{
    lemma_bne, lemma_load, lemma_run_compose, lemma_step_cycles, lemma_step_pc_in_memory,
    lemma_store_mirrors, lemma_unknown_opcode, load_law,
};

verus! {

/// The most cycles that one instruction costs.
pub const MAX_INSTRUCTION_CYCLES: usize = 5;

/// The state of the processor, owned by whoever drives it.
pub struct Atari {
    memory: [u8; MEM_SIZE],
    flags: u8,
    pc: usize,
    x_reg: u8,
    y_reg: u8,
    a_reg: u8,
    s_pnt: u8,
    cycles: usize,
}

impl View for Atari {
    type V = CpuState;

    closed spec fn view(&self) -> CpuState {
        CpuState {
            mem: self.memory@,
            status: self.flags,
            pc: self.pc,
            x: self.x_reg,
            y: self.y_reg,
            a: self.a_reg,
            sp: self.s_pnt,
            cycles: self.cycles as nat,
        }
    }
}

/// Cycles of a load in `mode`.
fn load_cost(mode: Mode, page_crossed: bool) -> (r: usize)
    ensures
        r == load_cycles(mode, page_crossed),
{
    match mode {
        Mode::Immediate => 2,
        Mode::ZeroPage => 3,
        Mode::AbsoluteX | Mode::AbsoluteY => if page_crossed {
            5
        } else {
            4
        },
        _ => 4,
    }
}

/// Cycles of a store in `mode`.
fn store_cost(mode: Mode) -> (r: usize)
    ensures
        r == store_cycles(mode),
{
    match mode {
        Mode::ZeroPage => 3,
        Mode::ZeroPageX | Mode::Absolute => 4,
        _ => 5,
    }
}

impl Atari {
    /// A processor with the given memory, about to run the instruction at
    /// `pc`; registers, flags and the cycle count are zero.
    pub fn new(memory: [u8; MEM_SIZE], pc: usize) -> (r: Atari)
        ensures
            r@ == (CpuState {
                mem: memory@,
                status: 0,
                pc: pc,
                x: 0,
                y: 0,
                a: 0,
                sp: 0,
                cycles: 0,
            }),
            r@.wf(),
    {
        Atari { memory, flags: 0, pc, x_reg: 0, y_reg: 0, a_reg: 0, s_pnt: 0, cycles: 0 }
    }

    /// Memory always has its full size.
    pub proof fn lemma_wf(&self)
        ensures
            self@.wf(),
    {
    }

    /// Cycles run so far.
    pub fn cycles(&self) -> (r: usize)
        ensures
            r == self@.cycles,
    {
        self.cycles
    }

    /// Address of the next instruction.
    pub fn pc(&self) -> (r: usize)
        ensures
            r == self@.pc,
    {
        self.pc
    }

    /// The X index register.
    pub fn x_reg(&self) -> (r: u8)
        ensures
            r == self@.x,
    {
        self.x_reg
    }

    /// The Y index register.
    pub fn y_reg(&self) -> (r: u8)
        ensures
            r == self@.y,
    {
        self.y_reg
    }

    /// The accumulator.
    pub fn a_reg(&self) -> (r: u8)
        ensures
            r == self@.a,
    {
        self.a_reg
    }

    /// The stack pointer.
    pub fn s_pnt(&self) -> (r: u8)
        ensures
            r == self@.sp,
    {
        self.s_pnt
    }

    /// Moves the program counter to `pc`.
    pub fn set_pc(&mut self, pc: usize)
        ensures
            final(self)@ == (CpuState { pc, ..old(self)@ }),
    {
        self.pc = pc;
    }

    /// Sets the X index register.
    pub fn set_x_reg(&mut self, v: u8)
        ensures
            final(self)@ == old(self)@.set_reg(Reg::X, v),
    {
        self.x_reg = v;
    }

    /// Sets the Y index register.
    pub fn set_y_reg(&mut self, v: u8)
        ensures
            final(self)@ == old(self)@.set_reg(Reg::Y, v),
    {
        self.y_reg = v;
    }

    /// Sets the accumulator.
    pub fn set_a_reg(&mut self, v: u8)
        ensures
            final(self)@ == old(self)@.set_reg(Reg::A, v),
    {
        self.a_reg = v;
    }

    /// Sets the stack pointer.
    pub fn set_s_pnt(&mut self, v: u8)
        ensures
            final(self)@ == old(self)@.set_reg(Reg::Sp, v),
    {
        self.s_pnt = v;
    }

    /// The byte at `cell`.
    pub fn read_mem(&self, cell: usize) -> (r: u8)
        requires
            cell < MEM_SIZE,
        ensures
            r == self@.mem[cell as int],
    {
        self.memory[cell]
    }

    /// Stores `val` at `cell` and at the peripheral register that `cell`
    /// aliases.
    pub fn write_mem(&mut self, cell: usize, val: u8)
        requires
            cell < MEM_SIZE,
        ensures
            final(self)@ == old(self)@.store(cell as int, val),
    {
        self.memory[cell] = val;
        let tia_addr = translate_for_tia(cell as u16) as usize;
        self.memory[tia_addr] = val;
        assert(self.memory@ =~= old(self).memory@.update(cell as int, val).update(
            peripheral_addr(cell as int),
            val,
        ));
    }

    /// Whether flag `f` is set.
    pub fn read_flag(&self, f: Flag) -> (r: bool)
        ensures
            r == self@.flag(f),
    {
        self.flags & flag_mask(f) != 0
    }

    /// Sets or clears flag `f`, leaving the others as they are.
    pub fn write_flag(&mut self, f: Flag, val: bool)
        ensures
            final(self)@ == old(self)@.set_flag(f, val),
    {
        let m = flag_mask(f);
        if val {
            self.flags = self.flags | m;
        } else {
            self.flags = self.flags & !m;
        }
    }

    /// Zero is set exactly when `val` is 0.
    pub fn set_flag_zero(&mut self, val: u8)
        ensures
            final(self)@ == old(self)@.set_flag(Flag::Zero, val == 0),
    {
        self.write_flag(Flag::Zero, val == 0);
    }

    /// Negative is set exactly when bit 7 of `val` is set.
    pub fn set_flag_neg(&mut self, val: u8)
        ensures
            final(self)@ == old(self)@.set_flag(Flag::Negative, val & 0x80 != 0),
    {
        self.write_flag(Flag::Negative, val & 0x80 != 0);
    }

    /// Recomputes Zero and Negative from the result `val`.
    pub fn set_flags(&mut self, val: u8)
        ensures
            final(self)@ == old(self)@.set_result_flags(val),
    {
        self.set_flag_zero(val);
        self.set_flag_neg(val);
    }

    /// The value of register `r`.
    fn reg(&self, r: Reg) -> (v: u8)
        ensures
            v == self@.reg(r),
    {
        match r {
            Reg::A => self.a_reg,
            Reg::X => self.x_reg,
            Reg::Y => self.y_reg,
            Reg::Sp => self.s_pnt,
        }
    }

    /// Sets register `r` to `v`.
    fn set_reg(&mut self, r: Reg, v: u8)
        ensures
            final(self)@ == old(self)@.set_reg(r, v),
    {
        match r {
            Reg::A => self.a_reg = v,
            Reg::X => self.x_reg = v,
            Reg::Y => self.y_reg = v,
            Reg::Sp => self.s_pnt = v,
        }
    }

    /// Adds `n` to the cycle count.
    fn charge(&mut self, n: usize)
        requires
            old(self)@.cycles + n <= usize::MAX,
        ensures
            final(self)@ == old(self)@.charge(n as nat),
    {
        self.cycles = self.cycles + n;
    }

    /// The bus-translated absolute address in the two bytes after `pc`.
    pub fn abs_addr(&self, pc: usize) -> (r: u16)
        requires
            pc + 3 <= MEM_SIZE,
        ensures
            r == absolute_base(self@.mem, pc as int),
    {
        let lo: u16 = self.memory[pc + 1] as u16;
        let hi: u16 = self.memory[pc + 2] as u16;
        translate_addr(hi * 256 + lo)
    }

    /// The absolute address after `pc` indexed by X.
    pub fn abs_addr_x(&self, pc: usize) -> (r: Operand)
        requires
            pc + 3 <= MEM_SIZE,
        ensures
            r == indexed(absolute_base(self@.mem, pc as int), self@.x),
    {
        let base = self.abs_addr(pc);
        Operand {
            addr: base as usize + self.x_reg as usize,
            len: 3,
            page_crossed: (base % 256) as usize + self.x_reg as usize >= 256,
        }
    }

    /// The absolute address after `pc` indexed by Y.
    pub fn abs_addr_y(&self, pc: usize) -> (r: Operand)
        requires
            pc + 3 <= MEM_SIZE,
        ensures
            r == indexed(absolute_base(self@.mem, pc as int), self@.y),
    {
        let base = self.abs_addr(pc);
        Operand {
            addr: base as usize + self.y_reg as usize,
            len: 3,
            page_crossed: (base % 256) as usize + self.y_reg as usize >= 256,
        }
    }

    /// Resolves the operand of the instruction at `pc` in `mode`.
    pub fn operand(&self, mode: Mode, pc: usize) -> (r: Result<Operand, CpuError>)
        requires
            pc < MEM_SIZE,
        ensures
            r == operand_spec(self@, mode, pc as int),
    {
        let len: usize = match mode {
            Mode::IndirectX | Mode::IndirectY | Mode::Indirect => {
                return Err(CpuError::InvalidAddressingMode(mode));
            },
            Mode::Absolute | Mode::AbsoluteX | Mode::AbsoluteY => 3,
            _ => 2,
        };
        if pc + len >= MEM_SIZE {
            return Err(CpuError::OutOfBounds((pc + len) as i64));
        }
        let lo = self.memory[pc + 1];
        match mode {
            Mode::Immediate => Ok(Operand { addr: pc + 1, len: 2, page_crossed: false }),
            Mode::ZeroPage => Ok(Operand { addr: lo as usize, len: 2, page_crossed: false }),
            Mode::ZeroPageX => Ok(
                Operand {
                    addr: ((lo as u16 + self.x_reg as u16) % 256) as usize,
                    len: 2,
                    page_crossed: false,
                },
            ),
            Mode::ZeroPageY => Ok(
                Operand {
                    addr: ((lo as u16 + self.y_reg as u16) % 256) as usize,
                    len: 2,
                    page_crossed: false,
                },
            ),
            Mode::Absolute => Ok(
                Operand { addr: self.abs_addr(pc) as usize, len: 3, page_crossed: false },
            ),
            Mode::AbsoluteX => Ok(self.abs_addr_x(pc)),
            _ => Ok(self.abs_addr_y(pc)),
        }
    }

    /// A load of the operand at `pc` in `mode` into `reg`.
    fn load(&mut self, reg: Reg, mode: Mode, pc: usize) -> (r: Result<usize, CpuError>)
        requires
            pc < MEM_SIZE,
            old(self)@.cycles + MAX_INSTRUCTION_CYCLES <= usize::MAX,
        ensures
            effect_taken(old(self)@, final(self)@, r, load_spec(old(self)@, reg, true, mode, pc as int)),
    {
        let op = match self.operand(mode, pc) {
            Ok(op) => op,
            Err(e) => return Err(e),
        };
        if op.addr >= MEM_SIZE {
            return Err(CpuError::OutOfBounds(op.addr as i64));
        }
        let v = self.memory[op.addr];
        self.set_reg(reg, v);
        self.set_flags(v);
        self.charge(load_cost(mode, op.page_crossed));
        Ok(pc + op.len)
    }

    /// LDX: loads X in immediate, zero page, zero page Y, absolute or
    /// absolute Y mode.
    pub fn ldx(&mut self, mode: Mode, pc: usize) -> (r: Result<usize, CpuError>)
        requires
            pc < MEM_SIZE,
            old(self)@.cycles + MAX_INSTRUCTION_CYCLES <= usize::MAX,
        ensures
            effect_taken(
                old(self)@,
                final(self)@,
                r,
                load_spec(old(self)@, Reg::X, ldx_accepts(mode), mode, pc as int),
            ),
            r is Ok ==> load_law(old(self)@, final(self)@, r->Ok_0, Reg::X, mode, pc as int),
    {
        proof {
            lemma_load(old(self)@, Reg::X, mode, pc as int);
        }
        match mode {
            Mode::Immediate | Mode::ZeroPage | Mode::ZeroPageY | Mode::Absolute
            | Mode::AbsoluteY => self.load(Reg::X, mode, pc),
            _ => Err(CpuError::InvalidAddressingMode(mode)),
        }
    }

    /// LDY: loads Y in immediate, zero page, zero page X, absolute or
    /// absolute X mode.
    pub fn ldy(&mut self, mode: Mode, pc: usize) -> (r: Result<usize, CpuError>)
        requires
            pc < MEM_SIZE,
            old(self)@.cycles + MAX_INSTRUCTION_CYCLES <= usize::MAX,
        ensures
            effect_taken(
                old(self)@,
                final(self)@,
                r,
                load_spec(old(self)@, Reg::Y, ldy_accepts(mode), mode, pc as int),
            ),
            r is Ok ==> load_law(old(self)@, final(self)@, r->Ok_0, Reg::Y, mode, pc as int),
    {
        proof {
            lemma_load(old(self)@, Reg::Y, mode, pc as int);
        }
        match mode {
            Mode::Immediate | Mode::ZeroPage | Mode::ZeroPageX | Mode::Absolute
            | Mode::AbsoluteX => self.load(Reg::Y, mode, pc),
            _ => Err(CpuError::InvalidAddressingMode(mode)),
        }
    }

    /// LDA: loads the accumulator in any of the immediate, zero page and
    /// absolute modes.
    pub fn lda(&mut self, mode: Mode, pc: usize) -> (r: Result<usize, CpuError>)
        requires
            pc < MEM_SIZE,
            old(self)@.cycles + MAX_INSTRUCTION_CYCLES <= usize::MAX,
        ensures
            effect_taken(
                old(self)@,
                final(self)@,
                r,
                load_spec(old(self)@, Reg::A, lda_accepts(mode), mode, pc as int),
            ),
            r is Ok ==> load_law(old(self)@, final(self)@, r->Ok_0, Reg::A, mode, pc as int),
    {
        proof {
            lemma_load(old(self)@, Reg::A, mode, pc as int);
        }
        match mode {
            Mode::Immediate | Mode::ZeroPage | Mode::ZeroPageX | Mode::Absolute
            | Mode::AbsoluteX | Mode::AbsoluteY => self.load(Reg::A, mode, pc),
            _ => Err(CpuError::InvalidAddressingMode(mode)),
        }
    }

    /// STA: stores the accumulator through the bus; no immediate form.
    pub fn sta(&mut self, mode: Mode, pc: usize) -> (r: Result<usize, CpuError>)
        requires
            pc < MEM_SIZE,
            old(self)@.cycles + MAX_INSTRUCTION_CYCLES <= usize::MAX,
        ensures
            effect_taken(old(self)@, final(self)@, r, sta_spec(old(self)@, mode, pc as int)),
            r is Ok ==> ({
                let addr = operand_spec(old(self)@, mode, pc as int)->Ok_0.addr as int;
                &&& final(self)@.mem[addr] == old(self)@.a
                &&& final(self)@.mem[peripheral_addr(addr)] == old(self)@.a
            }),
    {
        proof {
            self.lemma_wf();
            lemma_store_mirrors(old(self)@, mode, pc as int);
        }
        match mode {
            Mode::ZeroPage | Mode::ZeroPageX | Mode::Absolute | Mode::AbsoluteX
            | Mode::AbsoluteY => {},
            _ => return Err(CpuError::InvalidAddressingMode(mode)),
        }
        let op = match self.operand(mode, pc) {
            Ok(op) => op,
            Err(e) => return Err(e),
        };
        if op.addr >= MEM_SIZE {
            return Err(CpuError::OutOfBounds(op.addr as i64));
        }
        self.write_mem(op.addr, self.a_reg);
        self.charge(store_cost(mode));
        Ok(pc + op.len)
    }

    /// A one-byte instruction that gives flag `f` the value `val`.
    fn flag_op(&mut self, f: Flag, val: bool, pc: usize) -> (r: usize)
        requires
            pc + 1 < MEM_SIZE,
            old(self)@.cycles + MAX_INSTRUCTION_CYCLES <= usize::MAX,
        ensures
            (final(self)@, r) == flag_op_spec(old(self)@, f, val, pc as int),
    {
        self.write_flag(f, val);
        self.charge(2);
        pc + 1
    }

    /// SEI: sets InterruptDisable.
    pub fn sei(&mut self, pc: usize) -> (r: usize)
        requires
            pc + 1 < MEM_SIZE,
            old(self)@.cycles + MAX_INSTRUCTION_CYCLES <= usize::MAX,
        ensures
            (final(self)@, r) == flag_op_spec(old(self)@, Flag::InterruptDisable, true, pc as int),
    {
        self.flag_op(Flag::InterruptDisable, true, pc)
    }

    /// CLI: clears InterruptDisable.
    pub fn cli(&mut self, pc: usize) -> (r: usize)
        requires
            pc + 1 < MEM_SIZE,
            old(self)@.cycles + MAX_INSTRUCTION_CYCLES <= usize::MAX,
        ensures
            (final(self)@, r) == flag_op_spec(old(self)@, Flag::InterruptDisable, false, pc as int),
    {
        self.flag_op(Flag::InterruptDisable, false, pc)
    }

    /// CLD: clears Decimal.
    pub fn cld(&mut self, pc: usize) -> (r: usize)
        requires
            pc + 1 < MEM_SIZE,
            old(self)@.cycles + MAX_INSTRUCTION_CYCLES <= usize::MAX,
        ensures
            (final(self)@, r) == flag_op_spec(old(self)@, Flag::Decimal, false, pc as int),
    {
        self.flag_op(Flag::Decimal, false, pc)
    }

    /// CLC: clears Carry.
    pub fn clc(&mut self, pc: usize) -> (r: usize)
        requires
            pc + 1 < MEM_SIZE,
            old(self)@.cycles + MAX_INSTRUCTION_CYCLES <= usize::MAX,
        ensures
            (final(self)@, r) == flag_op_spec(old(self)@, Flag::Carry, false, pc as int),
    {
        self.flag_op(Flag::Carry, false, pc)
    }

    /// CLV: clears Overflow.
    pub fn clv(&mut self, pc: usize) -> (r: usize)
        requires
            pc + 1 < MEM_SIZE,
            old(self)@.cycles + MAX_INSTRUCTION_CYCLES <= usize::MAX,
        ensures
            (final(self)@, r) == flag_op_spec(old(self)@, Flag::Overflow, false, pc as int),
    {
        self.flag_op(Flag::Overflow, false, pc)
    }

    /// SED: sets Decimal.
    pub fn sed(&mut self, pc: usize) -> (r: usize)
        requires
            pc + 1 < MEM_SIZE,
            old(self)@.cycles + MAX_INSTRUCTION_CYCLES <= usize::MAX,
        ensures
            (final(self)@, r) == flag_op_spec(old(self)@, Flag::Decimal, true, pc as int),
    {
        self.flag_op(Flag::Decimal, true, pc)
    }

    /// SEC: sets Carry.
    pub fn sec(&mut self, pc: usize) -> (r: usize)
        requires
            pc + 1 < MEM_SIZE,
            old(self)@.cycles + MAX_INSTRUCTION_CYCLES <= usize::MAX,
        ensures
            (final(self)@, r) == flag_op_spec(old(self)@, Flag::Carry, true, pc as int),
    {
        self.flag_op(Flag::Carry, true, pc)
    }

    /// Copies register `from` into `to`; Zero and Negative follow the value
    /// unless the stack pointer is involved.
    fn transfer(&mut self, from: Reg, to: Reg, pc: usize) -> (r: usize)
        requires
            pc + 1 < MEM_SIZE,
            old(self)@.cycles + MAX_INSTRUCTION_CYCLES <= usize::MAX,
        ensures
            (final(self)@, r) == transfer_spec(old(self)@, from, to, pc as int),
    {
        let v = self.reg(from);
        self.set_reg(to, v);
        match (from, to) {
            (Reg::Sp, _) | (_, Reg::Sp) => {},
            _ => self.set_flags(v),
        }
        self.charge(2);
        pc + 1
    }

    /// TXS: the stack pointer takes X.
    pub fn txs(&mut self, pc: usize) -> (r: usize)
        requires
            pc + 1 < MEM_SIZE,
            old(self)@.cycles + MAX_INSTRUCTION_CYCLES <= usize::MAX,
        ensures
            (final(self)@, r) == transfer_spec(old(self)@, Reg::X, Reg::Sp, pc as int),
    {
        self.transfer(Reg::X, Reg::Sp, pc)
    }

    /// TSX: X takes the stack pointer.
    pub fn tsx(&mut self, pc: usize) -> (r: usize)
        requires
            pc + 1 < MEM_SIZE,
            old(self)@.cycles + MAX_INSTRUCTION_CYCLES <= usize::MAX,
        ensures
            (final(self)@, r) == transfer_spec(old(self)@, Reg::Sp, Reg::X, pc as int),
    {
        self.transfer(Reg::Sp, Reg::X, pc)
    }

    /// PHA: pushes the accumulator at 0x100 + the stack pointer, then
    /// decrements the stack pointer.
    pub fn pha(&mut self, pc: usize) -> (r: usize)
        requires
            pc + 1 < MEM_SIZE,
            old(self)@.cycles + MAX_INSTRUCTION_CYCLES <= usize::MAX,
        ensures
            (final(self)@, r) == pha_spec(old(self)@, pc as int),
    {
        self.write_mem(0x100 + self.s_pnt as usize, self.a_reg);
        self.s_pnt = ((self.s_pnt as u16 + 255) % 256) as u8;
        self.charge(3);
        pc + 1
    }

    /// TAX: X takes the accumulator.
    pub fn tax(&mut self, pc: usize) -> (r: usize)
        requires
            pc + 1 < MEM_SIZE,
            old(self)@.cycles + MAX_INSTRUCTION_CYCLES <= usize::MAX,
        ensures
            (final(self)@, r) == transfer_spec(old(self)@, Reg::A, Reg::X, pc as int),
    {
        self.transfer(Reg::A, Reg::X, pc)
    }

    /// TXA: the accumulator takes X.
    pub fn txa(&mut self, pc: usize) -> (r: usize)
        requires
            pc + 1 < MEM_SIZE,
            old(self)@.cycles + MAX_INSTRUCTION_CYCLES <= usize::MAX,
        ensures
            (final(self)@, r) == transfer_spec(old(self)@, Reg::X, Reg::A, pc as int),
    {
        self.transfer(Reg::X, Reg::A, pc)
    }

    /// TAY: Y takes the accumulator.
    pub fn tay(&mut self, pc: usize) -> (r: usize)
        requires
            pc + 1 < MEM_SIZE,
            old(self)@.cycles + MAX_INSTRUCTION_CYCLES <= usize::MAX,
        ensures
            (final(self)@, r) == transfer_spec(old(self)@, Reg::A, Reg::Y, pc as int),
    {
        self.transfer(Reg::A, Reg::Y, pc)
    }

    /// TYA: the accumulator takes Y.
    pub fn tya(&mut self, pc: usize) -> (r: usize)
        requires
            pc + 1 < MEM_SIZE,
            old(self)@.cycles + MAX_INSTRUCTION_CYCLES <= usize::MAX,
        ensures
            (final(self)@, r) == transfer_spec(old(self)@, Reg::Y, Reg::A, pc as int),
    {
        self.transfer(Reg::Y, Reg::A, pc)
    }

    /// Adds 1 to (`up`) or subtracts 1 from register `reg`, wrapping in
    /// eight bits, and recomputes Zero and Negative.
    fn increment(&mut self, reg: Reg, up: bool, pc: usize) -> (r: usize)
        requires
            pc + 1 < MEM_SIZE,
            old(self)@.cycles + MAX_INSTRUCTION_CYCLES <= usize::MAX,
        ensures
            (final(self)@, r) == increment_spec(
                old(self)@,
                reg,
                if up {
                    1
                } else {
                    -1
                },
                pc as int,
            ),
    {
        let old_v = self.reg(reg);
        let v: u8 = if up {
            ((old_v as u16 + 1) % 256) as u8
        } else {
            ((old_v as u16 + 255) % 256) as u8
        };
        self.set_reg(reg, v);
        self.set_flags(v);
        self.charge(2);
        pc + 1
    }

    /// DEX: X minus 1; 0 becomes 0xFF.
    pub fn dex(&mut self, pc: usize) -> (r: usize)
        requires
            pc + 1 < MEM_SIZE,
            old(self)@.cycles + MAX_INSTRUCTION_CYCLES <= usize::MAX,
        ensures
            (final(self)@, r) == increment_spec(old(self)@, Reg::X, -1, pc as int),
            old(self)@.x == 0 ==> final(self)@.x == 0xFF,
    {
        self.increment(Reg::X, false, pc)
    }

    /// INX: X plus 1; 0xFF becomes 0.
    pub fn inx(&mut self, pc: usize) -> (r: usize)
        requires
            pc + 1 < MEM_SIZE,
            old(self)@.cycles + MAX_INSTRUCTION_CYCLES <= usize::MAX,
        ensures
            (final(self)@, r) == increment_spec(old(self)@, Reg::X, 1, pc as int),
            old(self)@.x == 0xFF ==> final(self)@.x == 0,
    {
        self.increment(Reg::X, true, pc)
    }

    /// DEY: Y minus 1; 0 becomes 0xFF.
    pub fn dey(&mut self, pc: usize) -> (r: usize)
        requires
            pc + 1 < MEM_SIZE,
            old(self)@.cycles + MAX_INSTRUCTION_CYCLES <= usize::MAX,
        ensures
            (final(self)@, r) == increment_spec(old(self)@, Reg::Y, -1, pc as int),
            old(self)@.y == 0 ==> final(self)@.y == 0xFF,
    {
        self.increment(Reg::Y, false, pc)
    }

    /// INY: Y plus 1; 0xFF becomes 0.
    pub fn iny(&mut self, pc: usize) -> (r: usize)
        requires
            pc + 1 < MEM_SIZE,
            old(self)@.cycles + MAX_INSTRUCTION_CYCLES <= usize::MAX,
        ensures
            (final(self)@, r) == increment_spec(old(self)@, Reg::Y, 1, pc as int),
            old(self)@.y == 0xFF ==> final(self)@.y == 0,
    {
        self.increment(Reg::Y, true, pc)
    }

    /// BNE: with Zero set, falls through to pc + 2 in 2 cycles; with Zero
    /// clear, branches to pc + 2 + the signed offset byte in 3 cycles.
    pub fn bne(&mut self, pc: usize) -> (r: Result<usize, CpuError>)
        requires
            pc < MEM_SIZE,
            old(self)@.cycles + MAX_INSTRUCTION_CYCLES <= usize::MAX,
        ensures
            effect_taken(old(self)@, final(self)@, r, bne_spec(old(self)@, pc as int)),
            old(self)@.flag(Flag::Zero) && pc + 2 < MEM_SIZE ==> r == Ok::<usize, CpuError>((pc + 2) as usize)
                && final(self)@ == old(self)@.charge(2),
            ({
                let target = pc + 2 + signed_offset(old(self)@.mem[pc + 1]);
                !old(self)@.flag(Flag::Zero) && pc + 1 < MEM_SIZE && 0 <= target < MEM_SIZE ==> r
                    == Ok::<usize, CpuError>(target as usize) && final(self)@ == old(self)@.charge(3)
            }),
    {
        proof {
            if pc + 1 < MEM_SIZE {
                lemma_bne(old(self)@, pc as int);
            }
        }
        if pc + 1 >= MEM_SIZE {
            return Err(CpuError::OutOfBounds((pc + 1) as i64));
        }
        if self.read_flag(Flag::Zero) {
            if pc + 2 >= MEM_SIZE {
                return Err(CpuError::OutOfBounds((pc + 2) as i64));
            }
            self.charge(2);
            Ok(pc + 2)
        } else {
            let step = self.memory[pc + 1] as i64;
            let offset: i64 = if step < 128 {
                step
            } else {
                step - 256
            };
            let target: i64 = pc as i64 + 2 + offset;
            if target < 0 || target >= MEM_SIZE as i64 {
                return Err(CpuError::OutOfBounds(target));
            }
            self.charge(3);
            Ok(target as usize)
        }
    }

    /// JMP: continues at the absolute address after `pc`. The indirect form
    /// is not implemented.
    pub fn jmp(&mut self, mode: Mode, pc: usize) -> (r: Result<usize, CpuError>)
        requires
            pc < MEM_SIZE,
            old(self)@.cycles + MAX_INSTRUCTION_CYCLES <= usize::MAX,
        ensures
            effect_taken(old(self)@, final(self)@, r, jmp_spec(old(self)@, mode, pc as int)),
    {
        match mode {
            Mode::Absolute => {},
            _ => return Err(CpuError::InvalidAddressingMode(mode)),
        }
        if pc + 3 > MEM_SIZE {
            return Err(CpuError::OutOfBounds(MEM_SIZE as i64));
        }
        let target = self.abs_addr(pc) as usize;
        if target >= MEM_SIZE {
            return Err(CpuError::OutOfBounds(target as i64));
        }
        self.charge(3);
        Ok(target)
    }

    /// ADC: adds `value` and the carry to the accumulator, with decimal
    /// correction when Decimal is set, and updates Carry, Overflow, Zero
    /// and Negative.
    pub fn adc(&mut self, value: u8)
        ensures
            final(self)@ == adc_spec(old(self)@, value),
    {
        let mut result: u16 = self.a_reg as u16 + value as u16;
        if self.read_flag(Flag::Carry) {
            result = result + 1;
        }
        if self.read_flag(Flag::Decimal) {
            if result & 0x0F > 0x09 {
                result = result + 0x06;
            }
            if result & 0xF0 > 0x90 {
                result = result + 0x60;
            }
        }
        let res = (result % 256) as u8;
        let overflow = (!(self.a_reg ^ value) & (self.a_reg ^ res) & 0x80) != 0;
        self.a_reg = res;
        self.write_flag(Flag::Carry, result > 0xFF);
        self.write_flag(Flag::Overflow, overflow);
        self.set_flags(res);
    }

    /// Runs instruction `ins` fetched at `pc` and returns where the next
    /// instruction is.
    pub fn execute(&mut self, ins: Instruction, pc: usize) -> (r: Result<usize, CpuError>)
        requires
            pc < MEM_SIZE,
            old(self)@.cycles + MAX_INSTRUCTION_CYCLES <= usize::MAX,
        ensures
            effect_taken(old(self)@, final(self)@, r, exec_spec(old(self)@, ins, pc as int)),
    {
        match ins {
            Instruction::Ldx(_) | Instruction::Ldy(_) | Instruction::Lda(_) | Instruction::Sta(_)
            | Instruction::Bne | Instruction::Jmp(_) => {},
            _ => if pc + 1 >= MEM_SIZE {
                return Err(CpuError::OutOfBounds((pc + 1) as i64));
            },
        }
        match ins {
            Instruction::Clc => Ok(self.clc(pc)),
            Instruction::Sec => Ok(self.sec(pc)),
            Instruction::Cli => Ok(self.cli(pc)),
            Instruction::Sei => Ok(self.sei(pc)),
            Instruction::Clv => Ok(self.clv(pc)),
            Instruction::Cld => Ok(self.cld(pc)),
            Instruction::Sed => Ok(self.sed(pc)),
            Instruction::Ldx(m) => self.ldx(m, pc),
            Instruction::Ldy(m) => self.ldy(m, pc),
            Instruction::Lda(m) => self.lda(m, pc),
            Instruction::Sta(m) => self.sta(m, pc),
            Instruction::Txs => Ok(self.txs(pc)),
            Instruction::Tsx => Ok(self.tsx(pc)),
            Instruction::Pha => Ok(self.pha(pc)),
            Instruction::Tax => Ok(self.tax(pc)),
            Instruction::Txa => Ok(self.txa(pc)),
            Instruction::Dex => Ok(self.dex(pc)),
            Instruction::Inx => Ok(self.inx(pc)),
            Instruction::Tay => Ok(self.tay(pc)),
            Instruction::Tya => Ok(self.tya(pc)),
            Instruction::Dey => Ok(self.dey(pc)),
            Instruction::Iny => Ok(self.iny(pc)),
            Instruction::Bne => self.bne(pc),
            Instruction::Jmp(m) => self.jmp(m, pc),
        }
    }

    /// One step: fetches the byte at the program counter, runs the
    /// instruction it stands for and moves the program counter on. On an
    /// error nothing changes.
    pub fn execute_step(&mut self) -> (r: Result<(), CpuError>)
        requires
            old(self)@.cycles + MAX_INSTRUCTION_CYCLES <= usize::MAX,
        ensures
            match step_spec(old(self)@) {
                Ok(t) => r == Ok::<(), CpuError>(()) && final(self)@ == t,
                Err(e) => r == Err::<(), CpuError>(e) && final(self)@ == old(self)@,
            },
            r is Ok ==> final(self)@.pc < MEM_SIZE,
            old(self)@.pc < MEM_SIZE && decode_spec(old(self)@.mem[old(self)@.pc as int]) is None
                ==> r == Err::<(), CpuError>(
                CpuError::UnimplementedOpcode(old(self)@.mem[old(self)@.pc as int]),
            ) && final(self)@ == old(self)@,
    {
        proof {
            lemma_step_pc_in_memory(old(self)@);
            if old(self)@.pc < MEM_SIZE && decode_spec(old(self)@.mem[old(self)@.pc as int]) is None {
                lemma_unknown_opcode(old(self)@);
            }
        }
        let pc = self.pc;
        if pc >= MEM_SIZE {
            return Err(CpuError::OutOfBounds(pc as i64));
        }
        let op = self.memory[pc];
        let ins = match decode(op) {
            Some(ins) => ins,
            None => return Err(CpuError::UnimplementedOpcode(op)),
        };
        match self.execute(ins, pc) {
            Ok(next) => {
                self.pc = next;
                Ok(())
            },
            Err(e) => Err(e),
        }
    }
    /// Runs up to `n` steps, stopping at the first error. What is reached
    /// depends on the starting state and `n` alone.
    pub fn run(&mut self, n: usize) -> (r: Result<(), CpuError>)
        requires
            old(self)@.cycles + n * MAX_INSTRUCTION_CYCLES <= usize::MAX,
        ensures
            final(self)@ == run_spec(old(self)@, n as nat).0,
            r == match run_spec(old(self)@, n as nat).1 {
                None => Ok::<(), CpuError>(()),
                Some(e) => Err(e),
            },
    {
        let mut i: usize = 0;
        while i < n
            invariant
                i <= n,
                run_spec(old(self)@, i as nat).1 is None,
                self@ == run_spec(old(self)@, i as nat).0,
                self@.cycles <= old(self)@.cycles + i * MAX_INSTRUCTION_CYCLES,
                old(self)@.cycles + n * MAX_INSTRUCTION_CYCLES <= usize::MAX,
            decreases n - i,
        {
            let ghost before = self@;
            proof {
                lemma_run_compose(old(self)@, i as nat, (n - i) as nat);
                lemma_run_compose(old(self)@, i as nat, 1);
                lemma_step_cycles(before);
            }
            match self.execute_step() {
                Ok(()) => {
                    proof {
                        assert(run_spec(self@, 0) == (self@, None::<CpuError>));
                        assert(run_spec(before, 1) == run_spec(self@, 0));
                    }
                },
                Err(e) => return Err(e),
            }
            i += 1;
        }
        Ok(())
    }
}

} // verus!
