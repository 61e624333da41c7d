//! The operand record of the `SUB` instruction.

use crate::cpu::Register;
use vstd::prelude::*;

verus! {

/// Metadata for the `SUB` instruction: two source registers, in an order
/// that matters, and a destination register for the difference.
#[derive(Copy, Clone, Debug)]
pub struct SUBData {
    /// The `Register` to subtract from
    pub arg_0: Register,
    /// The `Register` being subtracted
    pub arg_1: Register,
    /// The `Register` to store the difference in
    pub diff_dest: Register,
}

impl SUBData {
    /// Creates a new `SUBData` instance from its operands, first source
    /// operand first.
    pub fn new(arg0: Register, arg1: Register, dest: Register) -> (r: Self)
        ensures
            r.arg_0 == arg0,
            r.arg_1 == arg1,
            r.diff_dest == dest,
    {
        SUBData { arg_0: arg0, arg_1: arg1, diff_dest: dest }
    }

    /// Gets the `Register` being subtracted from.
    pub fn arg0(&self) -> (r: Register)
        ensures
            r == self.arg_0,
    {
        self.arg_0
    }

    /// Gets the `Register` being subtracted.
    pub fn arg1(&self) -> (r: Register)
        ensures
            r == self.arg_1,
    {
        self.arg_1
    }

    /// Gets the destination register for the difference.
    pub fn dest(&self) -> (r: Register)
        ensures
            r == self.diff_dest,
    {
        self.diff_dest
    }
}

} // verus!
