//! The operand record of the `CHK` instruction.

use crate::cpu::Register;
use vstd::prelude::*;

verus! {

/// Metadata for the `CHK` instruction: the one register to test against
/// zero and negative.
#[derive(Copy, Clone, Debug)]
pub struct CHKData {
    /// The `Register` to check
    pub reg: Register,
}

impl CHKData {
    /// Creates a new `CHKData` instance.
    pub fn new(r: Register) -> (res: Self)
        ensures
            res.reg == r,
    {
        CHKData { reg: r }
    }

    /// Gets the `Register` to check.
    pub fn chk_reg(&self) -> (r: Register)
        ensures
            r == self.reg,
    {
        self.reg
    }
}

} // verus!
