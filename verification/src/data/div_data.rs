//! The operand record of the `DIV` instruction.

use crate::cpu::Register;
use vstd::prelude::*;

verus! {

/// Metadata for the `DIV` instruction: two source registers, in an order
/// that matters, and a destination register for the quotient.
#[derive(Copy, Clone, Debug)]
pub struct DIVData {
    /// The `Register` being divided
    pub arg_0: Register,
    /// The `Register` being divided by
    pub arg_1: Register,
    /// The `Register` to store the quotient in
    pub quo_dest: Register,
}

impl DIVData {
    /// Creates a new `DIVData` instance from its operands, first source
    /// operand first.
    pub fn new(arg0: Register, arg1: Register, dest: Register) -> (r: Self)
        ensures
            r.arg_0 == arg0,
            r.arg_1 == arg1,
            r.quo_dest == dest,
    {
        DIVData { arg_0: arg0, arg_1: arg1, quo_dest: dest }
    }

    /// Gets the dividend `Register`.
    pub fn arg0(&self) -> (r: Register)
        ensures
            r == self.arg_0,
    {
        self.arg_0
    }

    /// Gets the divisor `Register`.
    pub fn arg1(&self) -> (r: Register)
        ensures
            r == self.arg_1,
    {
        self.arg_1
    }

    /// Gets the destination register for the quotient.
    pub fn dest(&self) -> (r: Register)
        ensures
            r == self.quo_dest,
    {
        self.quo_dest
    }
}

} // verus!
