//! The storage locations and condition bits of the CPU.

mod flag;
mod register;

pub use flag::Flag;
pub use flag::lemma_flag_code_round_trip;
pub use flag::lemma_flag_round_trip;
pub use register::Register;
pub use register::lemma_register_code_round_trip;
pub use register::lemma_register_round_trip;
