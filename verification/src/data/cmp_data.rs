//! The operand record of the `CMP` instruction.

use crate::cpu::Register;
use vstd::prelude::*;

verus! {

/// Metadata for the `CMP` instruction: the two registers being compared.
///
/// The order matters: the `GreaterThan` and `LessThan` flag semantics owned
/// by the execution engine read the first operand against the second.
#[derive(Copy, Clone, Debug)]
pub struct CMPData {
    /// The first `Register` to compare
    pub arg_0: Register,
    /// The second `Register` to compare
    pub arg_1: Register,
}

impl CMPData {
    /// Creates a new `CMPData` instance, first compared register first.
    pub fn new(arg0: Register, arg1: Register) -> (r: Self)
        ensures
            r.arg_0 == arg0,
            r.arg_1 == arg1,
    {
        CMPData { arg_0: arg0, arg_1: arg1 }
    }

    /// Gets the first `Register` being compared.
    pub fn arg0(&self) -> (r: Register)
        ensures
            r == self.arg_0,
    {
        self.arg_0
    }

    /// Gets the second `Register` being compared.
    pub fn arg1(&self) -> (r: Register)
        ensures
            r == self.arg_1,
    {
        self.arg_1
    }
}

} // verus!
