//! The numeric instruction word.

use vstd::prelude::*;

verus! {

/// An assembly opcode: a single 32-bit instruction word, opaque except for
/// its numeric value.
///
/// No validation happens at construction: every 32-bit value is a
/// syntactically valid opcode; whether it decodes to a real instruction is
/// the decoder's business, not this type's.
#[derive(Copy, Clone, Debug, PartialEq, Eq, Structural)]
pub struct Opcode(pub u32);

/// The lowercase hex character of one digit value `0`..`15`.
pub open spec fn spec_hex_digit(d: u8) -> char
    recommends
        d < 16,
{
    if d < 10 {
        ((d + 0x30) as u8) as char
    } else {
        ((d + 0x57) as u8) as char
    }
}

/// The eight hex digits of a 32-bit word, highest nibble first.
pub open spec fn spec_hex_digits(v: u32) -> Seq<char> {
    seq![
        spec_hex_digit(((v >> 28) & 0xF) as u8),
        spec_hex_digit(((v >> 24) & 0xF) as u8),
        spec_hex_digit(((v >> 20) & 0xF) as u8),
        spec_hex_digit(((v >> 16) & 0xF) as u8),
        spec_hex_digit(((v >> 12) & 0xF) as u8),
        spec_hex_digit(((v >> 8) & 0xF) as u8),
        spec_hex_digit(((v >> 4) & 0xF) as u8),
        spec_hex_digit((v & 0xF) as u8),
    ]
}

/// The canonical text of a 32-bit instruction word: a `0x` prefix and eight
/// zero-padded lowercase hex digits.
pub open spec fn spec_opcode_display(v: u32) -> Seq<char> {
    "0x"@ + spec_hex_digits(v)
}

/// Gets the lowercase hex character of a digit value below 16.
fn hex_digit(d: u8) -> (c: char)
    requires
        d < 16,
    ensures
        c == spec_hex_digit(d),
{
    if d < 10 {
        (d + 0x30) as char
    } else {
        (d + 0x57) as char
    }
}

impl Opcode {
    /// Gets the numeric value of the `Opcode`.
    pub fn value(&self) -> (r: u32)
        ensures
            r == self.0,
    {
        self.0
    }

    /// Gets the canonical text of the opcode: `0x` followed by its value as
    /// eight zero-padded lowercase hex digits.
    pub fn display_string(&self) -> (r: String)
        ensures
            r@ == spec_opcode_display(self.0),
    {
        let v = self.0;
        proof {
            assert(((v >> 28) & 0xF) < 16 && ((v >> 24) & 0xF) < 16 && ((v >> 20) & 0xF) < 16 && ((
            v >> 16) & 0xF) < 16 && ((v >> 12) & 0xF) < 16 && ((v >> 8) & 0xF) < 16 && ((v >> 4)
                & 0xF) < 16 && (v & 0xF) < 16) by (bit_vector);
        }
        let mut s = String::new();
        s.push_str("0x");
        s.push(hex_digit(((v >> 28) & 0xF) as u8));
        s.push(hex_digit(((v >> 24) & 0xF) as u8));
        s.push(hex_digit(((v >> 20) & 0xF) as u8));
        s.push(hex_digit(((v >> 16) & 0xF) as u8));
        s.push(hex_digit(((v >> 12) & 0xF) as u8));
        s.push(hex_digit(((v >> 8) & 0xF) as u8));
        s.push(hex_digit(((v >> 4) & 0xF) as u8));
        s.push(hex_digit((v & 0xF) as u8));
        proof {
            assert(s@ =~= spec_opcode_display(v));
        }
        s
    }

    /// Gets the diagnostic text of the opcode: its canonical text wrapped in
    /// a fixed prefix.
    pub fn debug_string(&self) -> (r: String)
        ensures
            r@ == "Opcode ("@ + spec_opcode_display(self.0) + ")"@,
    {
        let mut s = String::new();
        s.push_str("Opcode (");
        let hex = self.display_string();
        s.push_str(hex.as_str());
        s.push_str(")");
        proof {
            assert(s@ =~= "Opcode ("@ + spec_opcode_display(self.0) + ")"@);
        }
        s
    }
}

impl core::convert::From<u32> for Opcode {
    /// Wraps a 32-bit word as an opcode; total and lossless.
    fn from(data: u32) -> (r: Opcode)
        ensures
            r == Opcode(data),
    {
        Opcode(data)
    }
}

impl vstd::std_specs::convert::FromSpecImpl<u32> for Opcode {
    open spec fn obeys_from_spec() -> bool {
        true
    }

    open spec fn from_spec(data: u32) -> Opcode {
        Opcode(data)
    }
}

impl core::convert::From<Opcode> for u32 {
    /// Unwraps an opcode back to its 32-bit word; total and lossless.
    fn from(op: Opcode) -> (r: u32)
        ensures
            r == op.0,
    {
        op.value()
    }
}

impl vstd::std_specs::convert::FromSpecImpl<Opcode> for u32 {
    open spec fn obeys_from_spec() -> bool {
        true
    }

    open spec fn from_spec(op: Opcode) -> u32 {
        op.0
    }
}

/// Law: wrapping a 32-bit word and reading the value back are mutually
/// inverse, for every word and for every opcode.
pub proof fn lemma_opcode_value_round_trip(v: u32, op: Opcode)
    ensures
        Opcode(v).0 == v,
        Opcode(op.0) == op,
{
}

/// Law: two opcodes are equal exactly when their numeric values are equal,
/// regardless of how each was constructed.
pub proof fn lemma_opcode_eq_iff_value_eq(a: Opcode, b: Opcode)
    ensures
        (a == b) <==> (a.0 == b.0),
{
}

} // verus!
