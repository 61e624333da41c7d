//! The operand record of the `MUL` instruction.

use crate::cpu::Register;
use vstd::prelude::*;

verus! {

/// Metadata for the `MUL` instruction: two source registers, in an order
/// that matters, and a destination register for the product.
#[derive(Copy, Clone, Debug)]
pub struct MULData {
    /// The first `Register` being multiplied
    pub arg_0: Register,
    /// The second `Register` being multiplied
    pub arg_1: Register,
    /// The `Register` to store the product in
    pub prod_dest: Register,
}

impl MULData {
    /// Creates a new `MULData` instance from its operands, first source
    /// operand first.
    pub fn new(arg0: Register, arg1: Register, dest: Register) -> (r: Self)
        ensures
            r.arg_0 == arg0,
            r.arg_1 == arg1,
            r.prod_dest == dest,
    {
        MULData { arg_0: arg0, arg_1: arg1, prod_dest: dest }
    }

    /// Gets the first factor `Register`.
    pub fn arg0(&self) -> (r: Register)
        ensures
            r == self.arg_0,
    {
        self.arg_0
    }

    /// Gets the second factor `Register`.
    pub fn arg1(&self) -> (r: Register)
        ensures
            r == self.arg_1,
    {
        self.arg_1
    }

    /// Gets the destination register for the product.
    pub fn dest(&self) -> (r: Register)
        ensures
            r == self.prod_dest,
    {
        self.prod_dest
    }
}

} // verus!
