//! The condition bits of the CPU.

use vstd::prelude::*;

verus! {

/// A condition flag, set as a side effect of comparison and test
/// instructions and read by the conditional-branch instructions.
///
/// The seven flags map bidirectionally onto the codes `0x0`..`0x6`.
#[derive(Copy, Clone, Debug, PartialEq, Eq, Structural)]
pub enum Flag {
    /// Set when the tested register is zero, unset otherwise
    Zero,
    /// Set when the tested register is negative, unset otherwise
    Negative,
    /// Set when the compared registers are equal, unset otherwise
    Equal,
    /// Set when the first compared register is greater than the second,
    /// unset otherwise
    GreaterThan,
    /// Set when the first compared register is less than the second,
    /// unset otherwise
    LessThan,
    /// Set when the looked-for block was found, unset otherwise
    Block,
    /// Set when the looked-for entity was found, unset otherwise
    Entity,
}

impl Flag {
    /// The 3-bit code of a flag: total over the seven variants.
    pub open spec fn spec_to_code(self) -> u8 {
        match self {
            Flag::Zero => 0x0,
            Flag::Negative => 0x1,
            Flag::Equal => 0x2,
            Flag::GreaterThan => 0x3,
            Flag::LessThan => 0x4,
            Flag::Block => 0x5,
            Flag::Entity => 0x6,
        }
    }

    /// The flag a code names: defined for `0x0`..`0x6`, and rejected for
    /// every larger value.
    pub open spec fn spec_from_code(val: u8) -> Result<Flag, ()> {
        match val {
            0x0 => Ok(Flag::Zero),
            0x1 => Ok(Flag::Negative),
            0x2 => Ok(Flag::Equal),
            0x3 => Ok(Flag::GreaterThan),
            0x4 => Ok(Flag::LessThan),
            0x5 => Ok(Flag::Block),
            0x6 => Ok(Flag::Entity),
            _ => Err(()),
        }
    }

    /// The fixed symbolic name of a flag, suitable for generated-code
    /// labeling.
    pub open spec fn spec_name(self) -> Seq<char> {
        match self {
            Flag::Zero => "flag_Zero"@,
            Flag::Negative => "flag_Negative"@,
            Flag::Equal => "flag_Equal"@,
            Flag::GreaterThan => "flag_GreaterThan"@,
            Flag::LessThan => "flag_LessThan"@,
            Flag::Block => "flag_Block"@,
            Flag::Entity => "flag_Entity"@,
        }
    }

    /// Gets the number of CPU flags.
    pub fn count() -> (n: usize)
        ensures
            n == 7,
    {
        7
    }

    /// Gets the fixed symbolic name of the flag (`flag_Zero`, ...).
    pub fn name(&self) -> (r: String)
        ensures
            r@ == self.spec_name(),
    {
        match self {
            Flag::Zero => "flag_Zero".to_owned(),
            Flag::Negative => "flag_Negative".to_owned(),
            Flag::Equal => "flag_Equal".to_owned(),
            Flag::GreaterThan => "flag_GreaterThan".to_owned(),
            Flag::LessThan => "flag_LessThan".to_owned(),
            Flag::Block => "flag_Block".to_owned(),
            Flag::Entity => "flag_Entity".to_owned(),
        }
    }
}

impl core::convert::TryFrom<u8> for Flag {
    type Error = ();

    /// Decodes a flag code: total for `0x0`..`0x6`, an error for everything
    /// above.
    fn try_from(val: u8) -> (r: Result<Flag, ()>)
        ensures
            r == Flag::spec_from_code(val),
    {
        match val {
            0x0 => Ok(Flag::Zero),
            0x1 => Ok(Flag::Negative),
            0x2 => Ok(Flag::Equal),
            0x3 => Ok(Flag::GreaterThan),
            0x4 => Ok(Flag::LessThan),
            0x5 => Ok(Flag::Block),
            0x6 => Ok(Flag::Entity),
            _ => Err(()),
        }
    }
}

impl vstd::std_specs::convert::TryFromSpecImpl<u8> for Flag {
    open spec fn obeys_try_from_spec() -> bool {
        true
    }

    open spec fn try_from_spec(val: u8) -> Result<Flag, ()> {
        Flag::spec_from_code(val)
    }
}

impl core::convert::From<Flag> for u8 {
    /// Encodes a flag as its code: total over the seven variants.
    fn from(f: Flag) -> (r: u8)
        ensures
            r == f.spec_to_code(),
    {
        match f {
            Flag::Zero => 0x0,
            Flag::Negative => 0x1,
            Flag::Equal => 0x2,
            Flag::GreaterThan => 0x3,
            Flag::LessThan => 0x4,
            Flag::Block => 0x5,
            Flag::Entity => 0x6,
        }
    }
}

impl vstd::std_specs::convert::FromSpecImpl<Flag> for u8 {
    open spec fn obeys_from_spec() -> bool {
        true
    }

    open spec fn from_spec(f: Flag) -> u8 {
        f.spec_to_code()
    }
}

/// Law: every flag code `0x0`..`0x6` decodes to a flag that encodes back to
/// the same code, and every code `0x7` and above is rejected.
pub proof fn lemma_flag_code_round_trip(val: u8)
    ensures
        val <= 0x6 ==> (Flag::spec_from_code(val) matches Ok(f) && f.spec_to_code() == val),
        val > 0x6 ==> Flag::spec_from_code(val) == Err::<Flag, ()>(()),
{
}

/// Law: every flag encodes to a code that decodes back to the same flag, so
/// the mapping onto `0x0`..`0x6` is bidirectional.
pub proof fn lemma_flag_round_trip(f: Flag)
    ensures
        f.spec_to_code() <= 0x6,
        Flag::spec_from_code(f.spec_to_code()) == Ok::<Flag, ()>(f),
{
}

} // verus!
