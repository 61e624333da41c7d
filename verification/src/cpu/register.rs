//! The addressable storage locations of the CPU.

use vstd::prelude::*;

verus! {

/// A register of the CPU.
///
/// Sixteen general-purpose slots (`R0`..`R15`) are addressable through a
/// 4-bit code; the stack register `SR` is architecturally invisible to any
/// instruction that takes a raw register operand, so it has no code at all.
#[derive(Copy, Clone, Debug, PartialEq, Eq, Structural)]
pub enum Register {
    /// Register 0 (`r0`)
    R0,
    /// Register 1 (`r1`)
    R1,
    /// Register 2 (`r2`)
    R2,
    /// Register 3 (`r3`)
    R3,
    /// Register 4 (`r4`)
    R4,
    /// Register 5 (`r5`)
    R5,
    /// Register 6 (`r6`)
    R6,
    /// Register 7 (`r7`)
    R7,
    /// Register 8 (`r8`)
    R8,
    /// Register 9 (`r9`)
    R9,
    /// Register 10 (`r10`)
    R10,
    /// Register 11 (`r11`)
    R11,
    /// Register 12 (`r12`)
    R12,
    /// Register 13 (`r13`)
    R13,
    /// Register 14 (`r14`)
    R14,
    /// Register 15 (`r15`)
    R15,
    /// The stack register (`sr`): always holds the value on top of the CPU
    /// stack, and cannot be named by a 4-bit register code
    SR,
}

impl Register {
    /// The 4-bit code of a register: defined for `R0`..`R15`, and rejected
    /// for `SR`, which has no machine-level encoding.
    pub open spec fn spec_to_code(self) -> Result<u8, ()> {
        match self {
            Register::R0 => Ok(0x0),
            Register::R1 => Ok(0x1),
            Register::R2 => Ok(0x2),
            Register::R3 => Ok(0x3),
            Register::R4 => Ok(0x4),
            Register::R5 => Ok(0x5),
            Register::R6 => Ok(0x6),
            Register::R7 => Ok(0x7),
            Register::R8 => Ok(0x8),
            Register::R9 => Ok(0x9),
            Register::R10 => Ok(0xA),
            Register::R11 => Ok(0xB),
            Register::R12 => Ok(0xC),
            Register::R13 => Ok(0xD),
            Register::R14 => Ok(0xE),
            Register::R15 => Ok(0xF),
            Register::SR => Err(()),
        }
    }

    /// The register a 4-bit code names: defined for `0x0`..`0xF`, and
    /// rejected for every larger value, the reserved stack-register slot
    /// `0x10` included.
    pub open spec fn spec_from_code(val: u8) -> Result<Register, ()> {
        match val {
            0x0 => Ok(Register::R0),
            0x1 => Ok(Register::R1),
            0x2 => Ok(Register::R2),
            0x3 => Ok(Register::R3),
            0x4 => Ok(Register::R4),
            0x5 => Ok(Register::R5),
            0x6 => Ok(Register::R6),
            0x7 => Ok(Register::R7),
            0x8 => Ok(Register::R8),
            0x9 => Ok(Register::R9),
            0xA => Ok(Register::R10),
            0xB => Ok(Register::R11),
            0xC => Ok(Register::R12),
            0xD => Ok(Register::R13),
            0xE => Ok(Register::R14),
            0xF => Ok(Register::R15),
            _ => Err(()),
        }
    }

    /// The lowercase mnemonic of a register.
    pub open spec fn spec_name(self) -> Seq<char> {
        match self {
            Register::R0 => "r0"@,
            Register::R1 => "r1"@,
            Register::R2 => "r2"@,
            Register::R3 => "r3"@,
            Register::R4 => "r4"@,
            Register::R5 => "r5"@,
            Register::R6 => "r6"@,
            Register::R7 => "r7"@,
            Register::R8 => "r8"@,
            Register::R9 => "r9"@,
            Register::R10 => "r10"@,
            Register::R11 => "r11"@,
            Register::R12 => "r12"@,
            Register::R13 => "r13"@,
            Register::R14 => "r14"@,
            Register::R15 => "r15"@,
            Register::SR => "sr"@,
        }
    }

    /// Gets the total number of registers: the sixteen general-purpose
    /// slots and the stack register.
    pub fn count() -> (n: usize)
        ensures
            n == 17,
    {
        17
    }

    /// Gets the lowercase mnemonic of the register (`r0`..`r15`, `sr`).
    pub fn name(&self) -> (r: String)
        ensures
            r@ == self.spec_name(),
    {
        match self {
            Register::R0 => "r0".to_owned(),
            Register::R1 => "r1".to_owned(),
            Register::R2 => "r2".to_owned(),
            Register::R3 => "r3".to_owned(),
            Register::R4 => "r4".to_owned(),
            Register::R5 => "r5".to_owned(),
            Register::R6 => "r6".to_owned(),
            Register::R7 => "r7".to_owned(),
            Register::R8 => "r8".to_owned(),
            Register::R9 => "r9".to_owned(),
            Register::R10 => "r10".to_owned(),
            Register::R11 => "r11".to_owned(),
            Register::R12 => "r12".to_owned(),
            Register::R13 => "r13".to_owned(),
            Register::R14 => "r14".to_owned(),
            Register::R15 => "r15".to_owned(),
            Register::SR => "sr".to_owned(),
        }
    }
}

impl core::convert::TryFrom<u8> for Register {
    type Error = ();

    /// Decodes a 4-bit register code: total for `0x0`..`0xF`, an error for
    /// everything above, the reserved stack-register slot `0x10` included.
    fn try_from(val: u8) -> (r: Result<Register, ()>)
        ensures
            r == Register::spec_from_code(val),
    {
        match val {
            0x0 => Ok(Register::R0),
            0x1 => Ok(Register::R1),
            0x2 => Ok(Register::R2),
            0x3 => Ok(Register::R3),
            0x4 => Ok(Register::R4),
            0x5 => Ok(Register::R5),
            0x6 => Ok(Register::R6),
            0x7 => Ok(Register::R7),
            0x8 => Ok(Register::R8),
            0x9 => Ok(Register::R9),
            0xA => Ok(Register::R10),
            0xB => Ok(Register::R11),
            0xC => Ok(Register::R12),
            0xD => Ok(Register::R13),
            0xE => Ok(Register::R14),
            0xF => Ok(Register::R15),
            _ => Err(()),
        }
    }
}

impl vstd::std_specs::convert::TryFromSpecImpl<u8> for Register {
    open spec fn obeys_try_from_spec() -> bool {
        true
    }

    open spec fn try_from_spec(val: u8) -> Result<Register, ()> {
        Register::spec_from_code(val)
    }
}

impl core::convert::TryFrom<Register> for u8 {
    type Error = ();

    /// Encodes a register as its 4-bit code: total for `R0`..`R15`, an
    /// error for the stack register, which no code may name.
    fn try_from(reg: Register) -> (r: Result<u8, ()>)
        ensures
            r == reg.spec_to_code(),
            reg == Register::SR <==> r is Err,
    {
        match reg {
            Register::R0 => Ok(0x0),
            Register::R1 => Ok(0x1),
            Register::R2 => Ok(0x2),
            Register::R3 => Ok(0x3),
            Register::R4 => Ok(0x4),
            Register::R5 => Ok(0x5),
            Register::R6 => Ok(0x6),
            Register::R7 => Ok(0x7),
            Register::R8 => Ok(0x8),
            Register::R9 => Ok(0x9),
            Register::R10 => Ok(0xA),
            Register::R11 => Ok(0xB),
            Register::R12 => Ok(0xC),
            Register::R13 => Ok(0xD),
            Register::R14 => Ok(0xE),
            Register::R15 => Ok(0xF),
            Register::SR => Err(()),
        }
    }
}

impl vstd::std_specs::convert::TryFromSpecImpl<Register> for u8 {
    open spec fn obeys_try_from_spec() -> bool {
        true
    }

    open spec fn try_from_spec(reg: Register) -> Result<u8, ()> {
        reg.spec_to_code()
    }
}

/// Law: every 4-bit code `0x0`..`0xF` decodes to a register that encodes
/// back to the same code, and every code `0x10` and above is rejected.
pub proof fn lemma_register_code_round_trip(val: u8)
    ensures
        val <= 0xF ==> (Register::spec_from_code(val) matches Ok(reg) && reg.spec_to_code()
            == Ok::<u8, ()>(val)),
        val > 0xF ==> Register::spec_from_code(val) == Err::<Register, ()>(()),
{
}

/// Law: every register but the stack register encodes to a code that decodes
/// back to the same register, and the stack register has no code at all.
pub proof fn lemma_register_round_trip(reg: Register)
    ensures
        reg != Register::SR ==> (reg.spec_to_code() matches Ok(val) && Register::spec_from_code(
            val,
        ) == Ok::<Register, ()>(reg)),
        reg == Register::SR <==> reg.spec_to_code() == Err::<u8, ()>(()),
{
}

} // verus!
