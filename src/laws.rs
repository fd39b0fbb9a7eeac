//! Properties of the processor model that hold for every state.

use vstd::prelude::*;
use crate::decode::decode_spec;
use crate::flags::{Flag, lemma_result_flags};
use crate::memory::MEM_SIZE;
use crate::semantics::{
    CpuError, CpuState, Mode, Reg, absolute_base, bne_spec, increment_spec, signed_offset, load_spec, mode_len,
    operand_spec, peripheral_addr, run_spec, sta_spec, step_spec,
};

verus! {

/// Cycles of a load in `mode` when no page is crossed.
pub open spec fn base_load_cost(mode: Mode) -> nat {
    match mode {
        Mode::Immediate => 2,
        Mode::ZeroPage => 3,
        _ => 4,
    }
}

/// Whether the indexed absolute operand of the instruction at `pc` lies on
/// a later page than its base address.
pub open spec fn crosses_page(s: CpuState, mode: Mode, pc: int) -> bool {
    match mode {
        Mode::AbsoluteX => absolute_base(s.mem, pc) as int % 256 + s.x as int >= 256,
        Mode::AbsoluteY => absolute_base(s.mem, pc) as int % 256 + s.y as int >= 256,
        _ => false,
    }
}

/// What a successful load into `reg` from `s` at `pc` in `mode`, ending in
/// `t` with next address `next`, looks like: it moves on by the length of
/// its mode, costs the base cycles of the mode plus one for a crossed page,
/// leaves the loaded byte in the register, sets Zero and Negative from it
/// (Negative from bit 7), and keeps every other flag and all of memory.
pub open spec fn load_law(s: CpuState, t: CpuState, next: usize, reg: Reg, mode: Mode, pc: int) -> bool {
    &&& next == pc + mode_len(mode)
    &&& t.cycles == s.cycles + base_load_cost(mode) + if crosses_page(s, mode, pc) {
        1nat
    } else {
        0
    }
    &&& t.reg(reg) == s.mem[operand_spec(s, mode, pc)->Ok_0.addr as int]
    &&& t.flag(Flag::Zero) == (t.reg(reg) == 0)
    &&& t.flag(Flag::Negative) == (t.reg(reg) & 0x80 != 0)
    &&& forall|g: Flag| !(g is Zero || g is Negative) ==> #[trigger] t.flag(g) == s.flag(g)
    &&& t.mem == s.mem
    &&& t.pc == s.pc
}

/// Every load that succeeds, in every mode, meets `load_law`.
pub proof fn lemma_load(s: CpuState, reg: Reg, mode: Mode, pc: int)
    requires
        0 <= pc < MEM_SIZE,
    ensures
        match load_spec(s, reg, true, mode, pc) {
            Ok((t, next)) => load_law(s, t, next, reg, mode, pc),
            Err(_) => true,
        },
{
    if let Ok((t, next)) = load_spec(s, reg, true, mode, pc) {
        let op = operand_spec(s, mode, pc)->Ok_0;
        let v = s.mem[op.addr as int];
        assert(t.reg(reg) == v);
        assert forall|g: Flag| true implies #[trigger] t.flag(g) == match g {
            Flag::Zero => v == 0,
            Flag::Negative => v & 0x80 != 0,
            _ => s.flag(g),
        } by {
            lemma_result_flags(s.set_reg(reg, v).status, v, g);
        }
        assert(t.flag(Flag::Zero) == (v == 0));
        assert(t.flag(Flag::Negative) == (v & 0x80 != 0));
    }
}

/// A store that succeeds leaves the accumulator both at the effective
/// address and at the peripheral register that the address aliases.
pub proof fn lemma_store_mirrors(s: CpuState, mode: Mode, pc: int)
    requires
        s.wf(),
        0 <= pc < MEM_SIZE,
    ensures
        match sta_spec(s, mode, pc) {
            Ok((t, _)) => {
                let addr = operand_spec(s, mode, pc)->Ok_0.addr as int;
                &&& t.mem[addr] == s.a
                &&& t.mem[peripheral_addr(addr)] == s.a
            },
            Err(_) => true,
        },
{
    if let Ok((t, _)) = sta_spec(s, mode, pc) {
        let addr = operand_spec(s, mode, pc)->Ok_0.addr as int;
        let a16 = addr as u16;
        assert(a16 & 0x10BFu16 <= 0x10BFu16) by (bit_vector);
    }
}

/// BNE with Zero set falls through to pc + 2 in 2 cycles, when that lies in
/// memory; with Zero clear it branches to pc + 2 plus the signed offset byte
/// in 3 cycles, when that target lies in memory.
pub proof fn lemma_bne(s: CpuState, pc: int)
    requires
        0 <= pc,
        pc + 1 < MEM_SIZE,
    ensures
        s.flag(Flag::Zero) && pc + 2 < MEM_SIZE ==> bne_spec(s, pc) == Ok::<(CpuState, usize), CpuError>(
            (s.charge(2), (pc + 2) as usize),
        ),
        ({
            let target = pc + 2 + signed_offset(s.mem[pc + 1]);
            !s.flag(Flag::Zero) && 0 <= target < MEM_SIZE ==> bne_spec(s, pc) == Ok::<
                (CpuState, usize),
                CpuError,
            >((s.charge(3), target as usize))
        }),
{
}

/// Decrementing an index register that holds 0 gives 0xFF, and
/// incrementing one that holds 0xFF gives 0: both wrap, neither fails.
pub proof fn lemma_index_wraps(s: CpuState, reg: Reg, pc: int)
    ensures
        s.reg(reg) == 0 ==> increment_spec(s, reg, -1, pc).0.reg(reg) == 0xFF,
        s.reg(reg) == 0xFF ==> increment_spec(s, reg, 1, pc).0.reg(reg) == 0,
{
}

/// A byte with no instruction at the program counter stops the step with
/// `UnimplementedOpcode` naming that byte.
pub proof fn lemma_unknown_opcode(s: CpuState)
    requires
        s.pc < MEM_SIZE,
        decode_spec(s.mem[s.pc as int]) is None,
    ensures
        step_spec(s) == Err::<CpuState, CpuError>(CpuError::UnimplementedOpcode(s.mem[s.pc as int])),
{
}

/// A step that succeeds leaves the program counter inside memory; a next
/// instruction that would lie outside makes the step fail instead.
pub proof fn lemma_step_pc_in_memory(s: CpuState)
    ensures
        match step_spec(s) {
            Ok(t) => t.pc < MEM_SIZE,
            Err(_) => true,
        },
{
}

/// Every step that succeeds adds between 2 and 5 cycles: the count never
/// goes down.
pub proof fn lemma_step_cycles(s: CpuState)
    ensures
        match step_spec(s) {
            Ok(t) => s.cycles + 2 <= t.cycles <= s.cycles + 5,
            Err(_) => true,
        },
{
}

/// Running `n` steps and then `m` more from where they stopped is running
/// `n + m` steps at once, when the first `n` met no error. With `m == 0`:
/// stepping zero more times leaves the state of `n` steps as it is.
pub proof fn lemma_run_compose(s: CpuState, n: nat, m: nat)
    requires
        run_spec(s, n).1 is None,
    ensures
        run_spec(s, n + m) == run_spec(run_spec(s, n).0, m),
    decreases n,
{
    if n > 0 {
        if let Ok(t) = step_spec(s) {
            lemma_run_compose(t, (n - 1) as nat, m);
            assert((n + m - 1) as nat == (n - 1) as nat + m);
        }
    }
}

} // verus!
