//! Contracts for the two functions of the standard library that the
//! converters call and that come without one. Both are believed, not proved.

use vstd::prelude::*;

verus! {

/// `code` is a Unicode scalar value: a code point that is no surrogate.
pub open spec fn is_scalar_value(code: u32) -> bool {
    code <= 0xD7FF || 0xE000 <= code <= 0x10FFFF
}

/// `char::from_u32` gives the character whose code point is `i` when `i` is
/// a Unicode scalar value, and `None` when it is not.
pub assume_specification[ char::from_u32 ](i: u32) -> (r: Option<char>)
    ensures
        r == (if is_scalar_value(i) {
            Some(i as char)
        } else {
            None
        }),
;

/// `String::push` appends `ch` to the end of the string and leaves the rest
/// of it as it was.
pub assume_specification[ String::push ](s: &mut String, ch: char)
    ensures
        final(s)@ == old(s)@.push(ch),
;

} // verus!
