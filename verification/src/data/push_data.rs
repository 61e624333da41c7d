//! The operand record of the `PUSH` instruction.

use crate::cpu::Register;
use vstd::prelude::*;

verus! {

/// Metadata for the `PUSH` instruction: the one register whose value is
/// pushed onto the stack.
#[derive(Copy, Clone, Debug)]
pub struct PUSHData {
    /// The `Register` being pushed onto the stack
    pub reg: Register,
}

impl PUSHData {
    /// Creates a new `PUSHData` instance.
    pub fn new(r: Register) -> (res: Self)
        ensures
            res.reg == r,
    {
        PUSHData { reg: r }
    }

    /// Gets the `Register` being pushed onto the stack.
    pub fn arg0(&self) -> (r: Register)
        ensures
            r == self.reg,
    {
        self.reg
    }
}

} // verus!
