//! Binary-level vocabulary of a small virtual CPU's instruction set:
//! the register file, the condition-flag set, the opcode word, the
//! per-instruction operand records, and the decode-failure value.

/// The CPU itself: registers and condition flags
pub mod cpu;

/// The numeric instruction word
pub mod opcode;

/// The failure value of opcode-to-instruction translation
pub mod error;

/// The decoded operand records, one per instruction mnemonic
pub mod data;

/// Contracts for the string operations the library builds its text with
pub mod text;
