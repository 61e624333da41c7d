//! The decoded operand records, one per instruction mnemonic.
//!
//! Each record is an immutable, copyable bundle of the operands relevant to
//! one instruction kind: its fields are set once at construction and only
//! ever read afterward.

mod add_data;
mod chk_data;
mod cmp_data;
mod div_data;
mod jmp_data;
mod jns_data;
mod js_data;
mod mov_data;
mod mul_data;
mod pop_data;
mod push_data;
mod sub_data;

pub use add_data::ADDData;
pub use chk_data::CHKData;
pub use cmp_data::CMPData;
pub use div_data::DIVData;
pub use jmp_data::JMPData;
pub use jns_data::JNSData;
pub use js_data::JSData;
pub use mov_data::MOVData;
pub use mov_data::MovSource;
pub use mov_data::lemma_mov_source_exclusive;
pub use mul_data::MULData;
pub use pop_data::POPData;
pub use push_data::PUSHData;
pub use sub_data::SUBData;
