//! The operand record of the `JMP` instruction.

use vstd::prelude::*;

verus! {

/// Metadata for the `JMP` instruction: the resolved numeric identifier of
/// the label to transfer to unconditionally.
///
/// Past the label-resolution boundary a target is a dense integer
/// identifier, not owned name text; the symbolic form belongs to the
/// assembler's first pass.
#[derive(Copy, Clone, Debug)]
pub struct JMPData {
    /// The ID of the label to jump unconditionally to
    pub label_id: u32,
}

impl JMPData {
    /// Creates a new `JMPData` instance.
    pub fn new(lbl_id: u32) -> (r: Self)
        ensures
            r.label_id == lbl_id,
    {
        JMPData { label_id: lbl_id }
    }

    /// Gets the label ID to jump unconditionally to.
    pub fn jmp_label_id(&self) -> (r: u32)
        ensures
            r == self.label_id,
    {
        self.label_id
    }
}

} // verus!
