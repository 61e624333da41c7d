//! The operand record of the `ADD` instruction.

use crate::cpu::Register;
use vstd::prelude::*;

verus! {

/// Metadata for the `ADD` instruction: two source registers, in an order
/// that matters, and a destination register for the sum.
#[derive(Copy, Clone, Debug)]
pub struct ADDData {
    /// The first addend
    pub arg_0: Register,
    /// The second addend
    pub arg_1: Register,
    /// The `Register` to store the sum in
    pub sum_dest: Register,
}

impl ADDData {
    /// Creates a new `ADDData` instance from its operands, first source
    /// operand first.
    pub fn new(arg0: Register, arg1: Register, dest: Register) -> (r: Self)
        ensures
            r.arg_0 == arg0,
            r.arg_1 == arg1,
            r.sum_dest == dest,
    {
        ADDData { arg_0: arg0, arg_1: arg1, sum_dest: dest }
    }

    /// Gets the first addend `Register`.
    pub fn arg0(&self) -> (r: Register)
        ensures
            r == self.arg_0,
    {
        self.arg_0
    }

    /// Gets the second addend `Register`.
    pub fn arg1(&self) -> (r: Register)
        ensures
            r == self.arg_1,
    {
        self.arg_1
    }

    /// Gets the destination register for the sum.
    pub fn dest(&self) -> (r: Register)
        ensures
            r == self.sum_dest,
    {
        self.sum_dest
    }
}

} // verus!
