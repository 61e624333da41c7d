//! The failure value of opcode-to-instruction translation.

mod decode_error;

pub use decode_error::DecodeError;
pub use decode_error::lemma_decode_error_reason_iff_supplied;
