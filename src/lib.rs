//! The execution core of a 6502-family processor as wired in a game console:
//! registers, packed status flags, mirrored memory, addressing-mode
//! resolution, opcode dispatch and cycle accounting.

pub mod flags;
pub mod memory;
pub mod semantics;
pub mod decode;
pub mod cpu;
pub mod laws;
pub mod screen;
