//! The mathematics of the cipher, over plain sequences of characters.
//!
//! An alphabet is modelled by the sequence of its symbols, a message by the
//! sequence of its characters and a shift by a natural number. The types of
//! the crate state their contracts over the functions defined here.
use vstd::prelude::*;

verus! {

/// Every character of `text` is one of `symbols`.
pub open spec fn within(symbols: Seq<char>, text: Seq<char>) -> bool {
    forall|i: int| 0 <= i < text.len() ==> symbols.contains(#[trigger] text[i])
}

/// `at` is the place of the first character of `text` that is none of `symbols`.
pub open spec fn first_outsider(symbols: Seq<char>, text: Seq<char>, at: int) -> bool {
    &&& 0 <= at < text.len()
    &&& !symbols.contains(text[at])
    &&& within(symbols, text.take(at))
}

/// `symbols` rotated to the left by `shift` places: the first `shift` symbols,
/// counted modulo the length of the table, move to the back and keep their
/// order. The empty table is its own rotation.
pub open spec fn rotation(symbols: Seq<char>, shift: nat) -> Seq<char> {
    if symbols.len() == 0 {
        symbols
    } else {
        let cut = (shift % symbols.len()) as int;
        symbols.subrange(cut, symbols.len() as int) + symbols.subrange(0, cut)
    }
}

/// `text` with each character replaced by the one that stands in `to` at the
/// place where the character stands in `from`. In a table of distinct symbols
/// a character of the table stands at one place only.
pub open spec fn substitute(from: Seq<char>, to: Seq<char>, text: Seq<char>) -> Seq<char> {
    Seq::new(text.len(), |i: int| to[from.index_of(text[i])])
}

/// The cipher text of `text` under the alphabet `symbols` rotated by `shift`.
pub open spec fn encipher(symbols: Seq<char>, shift: nat, text: Seq<char>) -> Seq<char> {
    substitute(symbols, rotation(symbols, shift), text)
}

/// The clear text of `text` under the alphabet `symbols` rotated by `shift`.
pub open spec fn decipher(symbols: Seq<char>, shift: nat, text: Seq<char>) -> Seq<char> {
    substitute(rotation(symbols, shift), symbols, text)
}

/// A rotation is as long as the table, and holds at each place the symbol
/// that stood `shift` places further on, counted round the table.
pub proof fn lemma_rotation_index(symbols: Seq<char>, shift: nat, i: int)
    requires
        0 <= i < symbols.len(),
    ensures
        rotation(symbols, shift).len() == symbols.len(),
        rotation(symbols, shift)[i] == symbols[(i + shift) % (symbols.len() as int)],
{
    let n = symbols.len() as int;
    let by = shift as int;
    let cut = by % n;
    assert((i + by) % n == if i + cut < n { i + cut } else { i + cut - n }) by (nonlinear_arith)
        requires
            0 <= i < n,
            cut == by % n,
            0 <= by,
    ;
}

/// A rotation holds the symbols of the table and no others.
pub proof fn lemma_rotation_same_symbols(symbols: Seq<char>, shift: nat)
    ensures
        rotation(symbols, shift).len() == symbols.len(),
        forall|c: char| rotation(symbols, shift).contains(c) <==> symbols.contains(c),
{
    let turned = rotation(symbols, shift);
    if symbols.len() > 0 {
        let n = symbols.len() as int;
        let cut = (shift % symbols.len()) as int;
        assert forall|c: char| turned.contains(c) <==> symbols.contains(c) by {
            if symbols.contains(c) {
                let j = choose|j: int| 0 <= j < symbols.len() && symbols[j] == c;
                if j >= cut {
                    assert(turned[j - cut] == c);
                } else {
                    assert(turned[j + (n - cut)] == c);
                }
            }
        }
    }
}

/// A rotation of a table of distinct symbols holds distinct symbols.
pub proof fn lemma_rotation_distinct(symbols: Seq<char>, shift: nat)
    requires
        symbols.no_duplicates(),
    ensures
        rotation(symbols, shift).no_duplicates(),
{
}

/// Where `to` is as long as `from` and holds no symbol twice, substituting
/// from `from` to `to` and back again gives the text that one began with.
pub proof fn lemma_substitute_back(from: Seq<char>, to: Seq<char>, text: Seq<char>)
    requires
        from.len() == to.len(),
        to.no_duplicates(),
        within(from, text),
    ensures
        substitute(to, from, substitute(from, to, text)) == text,
{
}

} // verus!
