//! The operand record of the `JNS` instruction.

use crate::cpu::Flag;
use vstd::prelude::*;

verus! {

/// Metadata for the `JNS` ("jump if not set") instruction: a condition
/// flag and the resolved identifier of the label to transfer to when it is
/// unset.
#[derive(Copy, Clone, Debug)]
pub struct JNSData {
    /// The condition `Flag`
    pub cond_flg: Flag,
    /// The ID of the label to jump to if the condition flag is unset
    pub label_id: u32,
}

impl JNSData {
    /// Creates a new `JNSData` instance.
    pub fn new(flag: Flag, lbl_id: u32) -> (r: Self)
        ensures
            r.cond_flg == flag,
            r.label_id == lbl_id,
    {
        JNSData { cond_flg: flag, label_id: lbl_id }
    }

    /// Gets the condition flag.
    pub fn cond_flag(&self) -> (r: Flag)
        ensures
            r == self.cond_flg,
    {
        self.cond_flg
    }

    /// Gets the label ID to jump to if the condition flag is unset.
    pub fn jmp_label_id(&self) -> (r: u32)
        ensures
            r == self.label_id,
    {
        self.label_id
    }
}

} // verus!
