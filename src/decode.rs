//! The opcode table: which instruction, in which addressing mode, each byte
//! stands for.

use vstd::prelude::*;
use crate::semantics::Mode;

verus! {

/// The implemented instructions, with the addressing mode where it varies.
#[derive(Clone, Copy, Debug, PartialEq, Eq, Structural)]
pub enum Instruction {
    Clc,
    Sec,
    Cli,
    Sei,
    Clv,
    Cld,
    Sed,
    Ldx(Mode),
    Ldy(Mode),
    Lda(Mode),
    Sta(Mode),
    Txs,
    Tsx,
    Pha,
    Tax,
    Txa,
    Dex,
    Inx,
    Tay,
    Tya,
    Dey,
    Iny,
    Bne,
    Jmp(Mode),
}

/// The instruction that opcode `op` stands for, if any.
pub open spec fn decode_spec(op: u8) -> Option<Instruction> {
    match op {
        0x18 => Some(Instruction::Clc),
        0x38 => Some(Instruction::Sec),
        0x58 => Some(Instruction::Cli),
        0x78 => Some(Instruction::Sei),
        0xB8 => Some(Instruction::Clv),
        0xD8 => Some(Instruction::Cld),
        0xF8 => Some(Instruction::Sed),
        0xA2 => Some(Instruction::Ldx(Mode::Immediate)),
        0xA6 => Some(Instruction::Ldx(Mode::ZeroPage)),
        0xB6 => Some(Instruction::Ldx(Mode::ZeroPageY)),
        0xAE => Some(Instruction::Ldx(Mode::Absolute)),
        0xBE => Some(Instruction::Ldx(Mode::AbsoluteY)),
        0xA0 => Some(Instruction::Ldy(Mode::Immediate)),
        0xA4 => Some(Instruction::Ldy(Mode::ZeroPage)),
        0xB4 => Some(Instruction::Ldy(Mode::ZeroPageX)),
        0xAC => Some(Instruction::Ldy(Mode::Absolute)),
        0xBC => Some(Instruction::Ldy(Mode::AbsoluteX)),
        0xA9 => Some(Instruction::Lda(Mode::Immediate)),
        0xA5 => Some(Instruction::Lda(Mode::ZeroPage)),
        0xB5 => Some(Instruction::Lda(Mode::ZeroPageX)),
        0xAD => Some(Instruction::Lda(Mode::Absolute)),
        0xBD => Some(Instruction::Lda(Mode::AbsoluteX)),
        0xB9 => Some(Instruction::Lda(Mode::AbsoluteY)),
        0x85 => Some(Instruction::Sta(Mode::ZeroPage)),
        0x95 => Some(Instruction::Sta(Mode::ZeroPageX)),
        0x8D => Some(Instruction::Sta(Mode::Absolute)),
        0x9D => Some(Instruction::Sta(Mode::AbsoluteX)),
        0x99 => Some(Instruction::Sta(Mode::AbsoluteY)),
        0x9A => Some(Instruction::Txs),
        0xBA => Some(Instruction::Tsx),
        0x48 => Some(Instruction::Pha),
        0xAA => Some(Instruction::Tax),
        0x8A => Some(Instruction::Txa),
        0xCA => Some(Instruction::Dex),
        0xE8 => Some(Instruction::Inx),
        0xA8 => Some(Instruction::Tay),
        0x98 => Some(Instruction::Tya),
        0x88 => Some(Instruction::Dey),
        0xC8 => Some(Instruction::Iny),
        0xD0 => Some(Instruction::Bne),
        0x4C => Some(Instruction::Jmp(Mode::Absolute)),
        0x6C => Some(Instruction::Jmp(Mode::Indirect)),
        _ => None,
    }
}

/// Looks an opcode up in the table.
pub fn decode(op: u8) -> (r: Option<Instruction>)
    ensures
        r == decode_spec(op),
{
    match op {
        0x18 => Some(Instruction::Clc),
        0x38 => Some(Instruction::Sec),
        0x58 => Some(Instruction::Cli),
        0x78 => Some(Instruction::Sei),
        0xB8 => Some(Instruction::Clv),
        0xD8 => Some(Instruction::Cld),
        0xF8 => Some(Instruction::Sed),
        0xA2 => Some(Instruction::Ldx(Mode::Immediate)),
        0xA6 => Some(Instruction::Ldx(Mode::ZeroPage)),
        0xB6 => Some(Instruction::Ldx(Mode::ZeroPageY)),
        0xAE => Some(Instruction::Ldx(Mode::Absolute)),
        0xBE => Some(Instruction::Ldx(Mode::AbsoluteY)),
        0xA0 => Some(Instruction::Ldy(Mode::Immediate)),
        0xA4 => Some(Instruction::Ldy(Mode::ZeroPage)),
        0xB4 => Some(Instruction::Ldy(Mode::ZeroPageX)),
        0xAC => Some(Instruction::Ldy(Mode::Absolute)),
        0xBC => Some(Instruction::Ldy(Mode::AbsoluteX)),
        0xA9 => Some(Instruction::Lda(Mode::Immediate)),
        0xA5 => Some(Instruction::Lda(Mode::ZeroPage)),
        0xB5 => Some(Instruction::Lda(Mode::ZeroPageX)),
        0xAD => Some(Instruction::Lda(Mode::Absolute)),
        0xBD => Some(Instruction::Lda(Mode::AbsoluteX)),
        0xB9 => Some(Instruction::Lda(Mode::AbsoluteY)),
        0x85 => Some(Instruction::Sta(Mode::ZeroPage)),
        0x95 => Some(Instruction::Sta(Mode::ZeroPageX)),
        0x8D => Some(Instruction::Sta(Mode::Absolute)),
        0x9D => Some(Instruction::Sta(Mode::AbsoluteX)),
        0x99 => Some(Instruction::Sta(Mode::AbsoluteY)),
        0x9A => Some(Instruction::Txs),
        0xBA => Some(Instruction::Tsx),
        0x48 => Some(Instruction::Pha),
        0xAA => Some(Instruction::Tax),
        0x8A => Some(Instruction::Txa),
        0xCA => Some(Instruction::Dex),
        0xE8 => Some(Instruction::Inx),
        0xA8 => Some(Instruction::Tay),
        0x98 => Some(Instruction::Tya),
        0x88 => Some(Instruction::Dey),
        0xC8 => Some(Instruction::Iny),
        0xD0 => Some(Instruction::Bne),
        0x4C => Some(Instruction::Jmp(Mode::Absolute)),
        0x6C => Some(Instruction::Jmp(Mode::Indirect)),
        _ => None,
    }
}

} // verus!
