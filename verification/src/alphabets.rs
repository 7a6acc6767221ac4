//! Alphabets: fixed, ordered tables of distinct symbols.
//!
//! An alphabet fixes which characters a message may hold and in which order
//! they are rotated. The order is part of the alphabet: two alphabets with the
//! same symbols in a different order give different ciphers.
use std::fmt::Debug;
use vstd::prelude::*;

verus! {

/// An ordered, fixed table of distinct symbols.
///
/// An implementation states its table as a sequence, proves that no symbol
/// occurs twice in it, and hands the same table out at run time.
pub trait Alphabet: Debug {
    /// The symbols of the alphabet, in the order in which they are rotated.
    spec fn symbols() -> Seq<char>;

    /// No symbol occurs twice in the table.
    proof fn symbols_are_distinct()
        ensures
            Self::symbols().no_duplicates(),
    ;

    /// All the letters and symbols that compose the alphabet.
    fn letters() -> (table: &'static [char])
        ensures
            table@ == Self::symbols(),
    ;
}

/// The letters `a` to `z`, in order.
pub open spec fn lowercase_letters() -> Seq<char> {
    seq![
        'a', 'b', 'c', 'd', 'e', 'f', 'g', 'h', 'i', 'j', 'k', 'l', 'm', 'n', 'o', 'p', 'q',
        'r', 's', 't', 'u', 'v', 'w', 'x', 'y', 'z',
    ]
}

/// The letters `A` to `Z`, in order.
pub open spec fn uppercase_letters() -> Seq<char> {
    seq![
        'A', 'B', 'C', 'D', 'E', 'F', 'G', 'H', 'I', 'J', 'K', 'L', 'M', 'N', 'O', 'P', 'Q',
        'R', 'S', 'T', 'U', 'V', 'W', 'X', 'Y', 'Z',
    ]
}

/// The punctuation marks of [`IncompleteAscii`], the space among them, in order.
pub open spec fn punctuation_marks() -> Seq<char> {
    seq![',', ' ', '?', '!', '\'', '(', ')', '.']
}

const ASCII_LOWERCASE: [char; 26] = [
    'a', 'b', 'c', 'd', 'e', 'f', 'g', 'h', 'i', 'j', 'k', 'l', 'm', 'n', 'o', 'p', 'q', 'r',
    's', 't', 'u', 'v', 'w', 'x', 'y', 'z',
];

const INCOMPLETE_ASCII: [char; 60] = [
    'a', 'b', 'c', 'd', 'e', 'f', 'g', 'h', 'i', 'j', 'k', 'l', 'm', 'n', 'o', 'p', 'q', 'r',
    's', 't', 'u', 'v', 'w', 'x', 'y', 'z', 'A', 'B', 'C', 'D', 'E', 'F', 'G', 'H', 'I', 'J',
    'K', 'L', 'M', 'N', 'O', 'P', 'Q', 'R', 'S', 'T', 'U', 'V', 'W', 'X', 'Y', 'Z', ',', ' ',
    '?', '!', '\'', '(', ')', '.',
];

/// This alphabet contains only lowercase ascii letters (and no symbols)
#[derive(Debug, Eq, PartialEq, Structural)]
pub struct AsciiLowerCaseAlphabet;

impl Alphabet for AsciiLowerCaseAlphabet {
    open spec fn symbols() -> Seq<char> {
        lowercase_letters()
    }

    proof fn symbols_are_distinct() {
    }

    fn letters() -> (table: &'static [char]) {
        let table: &'static [char] = &ASCII_LOWERCASE;
        table
    }
}

/// This alphabet contains the lowercase and the uppercase ascii letters, the
/// space and the punctuation marks `, ? ! ' ( ) .`
#[derive(Debug, Eq, PartialEq, Structural)]
pub struct IncompleteAscii;

impl Alphabet for IncompleteAscii {
    open spec fn symbols() -> Seq<char> {
        lowercase_letters() + uppercase_letters() + punctuation_marks()
    }

    proof fn symbols_are_distinct() {
    }

    fn letters() -> (table: &'static [char]) {
        let table: &'static [char] = &INCOMPLETE_ASCII;
        table
    }
}

} // verus!
