//! The operand record of the `POP` instruction.

use crate::cpu::Register;
use vstd::prelude::*;

verus! {

/// Metadata for the `POP` instruction: the one register the value on top
/// of the stack is popped into.
#[derive(Copy, Clone, Debug)]
pub struct POPData {
    /// The `Register` being popped into from the stack
    pub reg: Register,
}

impl POPData {
    /// Creates a new `POPData` instance.
    pub fn new(r: Register) -> (res: Self)
        ensures
            res.reg == r,
    {
        POPData { reg: r }
    }

    /// Gets the `Register` being popped into.
    pub fn arg0(&self) -> (r: Register)
        ensures
            r == self.reg,
    {
        self.reg
    }
}

} // verus!
