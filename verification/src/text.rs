//! Contracts for the string operations the library builds its text with.

use vstd::prelude::*;

verus! {

/// Relies on String::push: appends the given character to the end of this
/// string.
pub assume_specification[ String::push ](s: &mut String, ch: char)
    ensures
        final(s)@ == old(s)@.push(ch),
;

/// Relies on String::push_str: appends the given string slice onto the end
/// of this string.
pub assume_specification[ String::push_str ](s: &mut String, other: &str)
    ensures
        final(s)@ == old(s)@ + other@,
;

} // verus!
