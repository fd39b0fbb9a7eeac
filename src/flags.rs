use vstd::prelude::*;

verus! {

/// A named bit of the packed processor status register.
#[derive(Clone, Copy, Debug, PartialEq, Eq, Structural)]
pub enum Flag {
    Carry,
    Zero,
    InterruptDisable,
    Decimal,
    Break,
    Unused,
    Overflow,
    Negative,
}

/// Position of `f` inside the status byte.
pub open spec fn flag_bit(f: Flag) -> u8 {
    match f {
        Flag::Carry => 0,
        Flag::Zero => 1,
        Flag::InterruptDisable => 2,
        Flag::Decimal => 3,
        Flag::Break => 4,
        Flag::Unused => 5,
        Flag::Overflow => 6,
        Flag::Negative => 7,
    }
}

/// Whether `f` is set in the status byte `status`.
pub open spec fn flag_is_set(status: u8, f: Flag) -> bool {
    status & (1u8 << flag_bit(f)) != 0
}

/// `status` with `f` set to `v` and every other bit kept.
pub open spec fn with_flag(status: u8, f: Flag, v: bool) -> u8 {
    if v {
        status | (1u8 << flag_bit(f))
    } else {
        status & !(1u8 << flag_bit(f))
    }
}

/// `status` with Zero and Negative recomputed from `value`: Zero when it is
/// 0, Negative when its bit 7 is set.
pub open spec fn with_result_flags(status: u8, value: u8) -> u8 {
    with_flag(with_flag(status, Flag::Zero, value == 0), Flag::Negative, value & 0x80 != 0)
}

proof fn lemma_bit_update(s: u8, i: u8, j: u8)
    by (bit_vector)
    requires
        i < 8,
        j < 8,
    ensures
        ((s | (1u8 << i)) & (1u8 << j) != 0) == (i == j || s & (1u8 << j) != 0),
        ((s & !(1u8 << i)) & (1u8 << j) != 0) == (i != j && s & (1u8 << j) != 0),
{
}

/// Writing one flag gives it the written value and leaves every other flag
/// as it was.
pub proof fn lemma_with_flag(status: u8, f: Flag, v: bool, g: Flag)
    ensures
        flag_is_set(with_flag(status, f, v), g) == if g == f {
            v
        } else {
            flag_is_set(status, g)
        },
{
    lemma_bit_update(status, flag_bit(f), flag_bit(g));
}

/// After recomputing the result flags, Zero and Negative describe `value`
/// and the other six flags are untouched.
pub proof fn lemma_result_flags(status: u8, value: u8, g: Flag)
    ensures
        flag_is_set(with_result_flags(status, value), g) == match g {
            Flag::Zero => value == 0,
            Flag::Negative => value & 0x80 != 0,
            _ => flag_is_set(status, g),
        },
{
    let s1 = with_flag(status, Flag::Zero, value == 0);
    lemma_with_flag(status, Flag::Zero, value == 0, g);
    lemma_with_flag(s1, Flag::Negative, value & 0x80 != 0, g);
}

/// The mask that selects `f` in the status byte.
pub fn flag_mask(f: Flag) -> (r: u8)
    ensures
        r == 1u8 << flag_bit(f),
{
    let bit: u8 = match f {
        Flag::Carry => 0,
        Flag::Zero => 1,
        Flag::InterruptDisable => 2,
        Flag::Decimal => 3,
        Flag::Break => 4,
        Flag::Unused => 5,
        Flag::Overflow => 6,
        Flag::Negative => 7,
    };
    1u8 << bit
}

} // verus!
