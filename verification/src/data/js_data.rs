//! The operand record of the `JS` instruction.

use crate::cpu::Flag;
use vstd::prelude::*;

verus! {

/// Metadata for the `JS` ("jump if set") instruction: a condition flag and
/// the resolved identifier of the label to transfer to when it is set.
#[derive(Copy, Clone, Debug)]
pub struct JSData {
    /// The condition `Flag`
    pub cond_flg: Flag,
    /// The ID of the label to jump to if the condition flag is set
    pub label_id: u32,
}

impl JSData {
    /// Creates a new `JSData` instance.
    pub fn new(flag: Flag, lbl_id: u32) -> (r: Self)
        ensures
            r.cond_flg == flag,
            r.label_id == lbl_id,
    {
        JSData { cond_flg: flag, label_id: lbl_id }
    }

    /// Gets the condition flag.
    pub fn cond_flag(&self) -> (r: Flag)
        ensures
            r == self.cond_flg,
    {
        self.cond_flg
    }

    /// Gets the label ID to jump to if the condition flag is set.
    pub fn jmp_label_id(&self) -> (r: u32)
        ensures
            r == self.label_id,
    {
        self.label_id
    }
}

} // verus!
