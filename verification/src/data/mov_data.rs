//! The operand record of the `MOV` instruction.

use crate::cpu::Register;
use vstd::prelude::*;

verus! {

/// The source of a `MOV`: either a literal value or a register, never both
/// and never neither.
#[derive(Copy, Clone, Debug)]
pub enum MovSource {
    /// A literal source value
    Literal(u32),
    /// A source register
    Reg(Register),
}

/// Metadata for the `MOV` instruction: one source, literal or register, and
/// a destination register.
#[derive(Copy, Clone, Debug)]
pub struct MOVData {
    /// The source of the move
    pub src: MovSource,
    /// The destination register
    pub dst: Register,
}

impl MOVData {
    /// Whether the source is a literal.
    pub open spec fn spec_has_literal_source(self) -> bool {
        self.src is Literal
    }

    /// Whether the source is a register.
    pub open spec fn spec_has_register_source(self) -> bool {
        self.src is Reg
    }

    /// The source literal, when the source is one.
    pub open spec fn spec_src_literal(self) -> Option<u32> {
        match self.src {
            MovSource::Literal(val) => Some(val),
            MovSource::Reg(_) => None,
        }
    }

    /// The source register, when the source is one.
    pub open spec fn spec_src_register(self) -> Option<Register> {
        match self.src {
            MovSource::Literal(_) => None,
            MovSource::Reg(reg) => Some(reg),
        }
    }

    /// Creates a `MOVData` instance with a literal as the source.
    pub fn from_literal(src: u32, dest: Register) -> (r: Self)
        ensures
            r.src == MovSource::Literal(src),
            r.dst == dest,
    {
        MOVData { src: MovSource::Literal(src), dst: dest }
    }

    /// Creates a `MOVData` instance with a register as the source.
    pub fn from_register(src: Register, dest: Register) -> (r: Self)
        ensures
            r.src == MovSource::Reg(src),
            r.dst == dest,
    {
        MOVData { src: MovSource::Reg(src), dst: dest }
    }

    /// Returns whether the associated `MOV` instruction has a literal as
    /// its source.
    pub fn has_literal_source(&self) -> (r: bool)
        ensures
            r == self.spec_has_literal_source(),
    {
        match self.src {
            MovSource::Literal(_) => true,
            MovSource::Reg(_) => false,
        }
    }

    /// Returns whether the associated `MOV` instruction has a register as
    /// its source.
    pub fn has_register_source(&self) -> (r: bool)
        ensures
            r == self.spec_has_register_source(),
    {
        match self.src {
            MovSource::Literal(_) => false,
            MovSource::Reg(_) => true,
        }
    }

    /// Gets the source literal, or nothing when the source is a register.
    pub fn src_literal(&self) -> (r: Option<u32>)
        ensures
            r == self.spec_src_literal(),
    {
        match self.src {
            MovSource::Literal(val) => Some(val),
            MovSource::Reg(_) => None,
        }
    }

    /// Gets the source literal of a literal-sourced record.
    ///
    /// Reading the literal presupposes that the source is one: check
    /// `has_literal_source` first.
    pub fn unwrap_src_literal(&self) -> (r: u32)
        requires
            self.spec_has_literal_source(),
        ensures
            self.spec_src_literal() == Some(r),
    {
        match self.src {
            MovSource::Literal(val) => val,
            MovSource::Reg(_) => vstd::pervasive::unreached(),
        }
    }

    /// Gets the source register, or nothing when the source is a literal.
    pub fn src_register(&self) -> (r: Option<Register>)
        ensures
            r == self.spec_src_register(),
    {
        match self.src {
            MovSource::Literal(_) => None,
            MovSource::Reg(reg) => Some(reg),
        }
    }

    /// Gets the source register of a register-sourced record.
    ///
    /// Reading the register presupposes that the source is one: check
    /// `has_register_source` first.
    pub fn unwrap_src_register(&self) -> (r: Register)
        requires
            self.spec_has_register_source(),
        ensures
            self.spec_src_register() == Some(r),
    {
        match self.src {
            MovSource::Literal(_) => vstd::pervasive::unreached(),
            MovSource::Reg(reg) => reg,
        }
    }

    /// Gets the destination register.
    pub fn dest(&self) -> (r: Register)
        ensures
            r == self.dst,
    {
        self.dst
    }
}

/// Law: every `MOV` record has a literal source or a register source, and
/// never both: the two predicates are each other's negation.
pub proof fn lemma_mov_source_exclusive(m: MOVData)
    ensures
        m.spec_has_literal_source() <==> !m.spec_has_register_source(),
{
}

} // verus!
