//! The error produced when an opcode cannot be translated into operand data.

use crate::opcode::Opcode;
use crate::opcode::spec_opcode_display;
use vstd::prelude::*;

verus! {

/// An error resulting from opcode-to-instruction translation failure.
///
/// It always preserves the offending `Opcode`, so a failure stays
/// diagnosable upstream, and carries a reason string exactly when one was
/// supplied at construction.
#[derive(Clone, Debug)]
pub struct DecodeError {
    /// The `Opcode` that failed to decode
    pub opcode: Opcode,
    /// The reason for the failure, when one was supplied
    pub err_reason: Option<String>,
}

impl DecodeError {
    /// Whether a reason string was supplied at construction.
    pub open spec fn spec_has_reason(self) -> bool {
        self.err_reason is Some
    }

    /// The display text of the error: the offending opcode in its canonical
    /// hex form, with the reason appended when one was supplied.
    pub open spec fn spec_display(self) -> Seq<char> {
        let base = "Couldn't decode opcode "@ + spec_opcode_display(self.opcode.0) + "!"@;
        match self.err_reason {
            Some(reason) => base + " Reason: "@ + reason@,
            None => base,
        }
    }

    /// Creates a reason-less `DecodeError` for the given opcode.
    pub fn new(op: Opcode) -> (r: Self)
        ensures
            r.opcode == op,
            r.err_reason is None,
    {
        DecodeError { opcode: op, err_reason: None }
    }

    /// Creates a `DecodeError` for the given opcode, carrying a descriptive
    /// reason.
    pub fn with_reason(op: Opcode, reason: &str) -> (r: Self)
        ensures
            r.opcode == op,
            r.err_reason matches Some(s) && s@ == reason@,
    {
        DecodeError { opcode: op, err_reason: Some(reason.to_owned()) }
    }

    /// Gets the `Opcode` that triggered the error.
    pub fn op(&self) -> (r: Opcode)
        ensures
            r == self.opcode,
    {
        self.opcode
    }

    /// Gets a copy of the reason for the error, or nothing when none was
    /// supplied.
    pub fn reason(&self) -> (r: Option<String>)
        ensures
            r is Some <==> self.err_reason is Some,
            r matches Some(s) ==> self.err_reason matches Some(t) && s@ == t@,
    {
        match &self.err_reason {
            Some(s) => Some(s.clone()),
            None => None,
        }
    }

    /// Determines whether the error has a known reason.
    pub fn has_reason(&self) -> (r: bool)
        ensures
            r == self.spec_has_reason(),
    {
        self.err_reason.is_some()
    }

    /// Gets the display text of the error.
    pub fn display_string(&self) -> (r: String)
        ensures
            r@ == self.spec_display(),
    {
        let mut s = String::new();
        s.push_str("Couldn't decode opcode ");
        let hex = self.opcode.display_string();
        s.push_str(hex.as_str());
        s.push_str("!");
        match &self.err_reason {
            Some(reason) => {
                s.push_str(" Reason: ");
                s.push_str(reason.as_str());
            },
            None => {},
        }
        proof {
            assert(s@ =~= self.spec_display());
        }
        s
    }
}

/// Law: an error built without a reason never reports one, and an error
/// built with a reason always does, whatever the opcode; a default reason is
/// never synthesized.
pub proof fn lemma_decode_error_reason_iff_supplied(op: Opcode, reason: String)
    ensures
        !(DecodeError { opcode: op, err_reason: None }).spec_has_reason(),
        (DecodeError { opcode: op, err_reason: Some(reason) }).spec_has_reason(),
{
}

} // verus!
