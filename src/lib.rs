//! Instruction decoding for a 6502-class CPU: the addressing modes and the
//! table that maps each opcode byte to its length and mode.

pub mod addressing;
pub mod instruction_set;
pub mod laws;
pub mod opcode;

pub use addressing::{operand_length, Addressing};
pub use opcode::{OpCode, OpcodeTable, TableError};
