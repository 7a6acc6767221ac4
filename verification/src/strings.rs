//! What this crate takes on trust about `String`.
//!
//! Each item below gives a contract to a function of the standard library
//! that is called as it stands. Nothing here is proved: the contracts restate
//! the library's documentation over the string's characters.
use vstd::prelude::*;

verus! {

/// `String::push` appends the one character to the end of the string.
pub assume_specification[ String::push ](text: &mut String, ch: char)
    ensures
        final(text)@ == old(text)@.push(ch),
;

/// `==` between a `String` and a `str` holds exactly when both have the same
/// characters in the same order.
pub assume_specification[ <String as PartialEq<str>>::eq ](text: &String, other: &str) -> (equal:
    bool)
    ensures
        equal == (text@ == other@),
;

} // verus!
