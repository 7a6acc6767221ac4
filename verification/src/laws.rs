//! What holds of the cipher for every alphabet, every shift and every message.
//!
//! The laws are stated over the functions of [`crate::substitution`], in which
//! [`CaesarEngine`](crate::CaesarEngine) states what it returns: with
//! [`CaesarEngine::shift`](crate::CaesarEngine::shift) for the shift and the
//! view of a text for the message, each law speaks of the engine itself.
use crate::alphabets::Alphabet;
use crate::substitution::{
    decipher, encipher, lemma_rotation_distinct, lemma_rotation_index,
    lemma_rotation_same_symbols, lemma_substitute_back, rotation, within,
};
use vstd::arithmetic::div_mod::{lemma_add_mod_noop_right, lemma_small_mod};
use vstd::prelude::*;
use vstd::seq_lib::lemma_multiset_commutative;

verus! {

/// Decrypting what was encrypted with the same alphabet and the same shift
/// gives the clear text back.
pub proof fn law_decrypt_undoes_encrypt<A: Alphabet>(shift: nat, text: Seq<char>)
    requires
        within(A::symbols(), text),
    ensures
        decipher(A::symbols(), shift, encipher(A::symbols(), shift, text)) == text,
{
    A::symbols_are_distinct();
    lemma_rotation_distinct(A::symbols(), shift);
    lemma_substitute_back(A::symbols(), rotation(A::symbols(), shift), text);
}

/// Encrypting what was decrypted with the same alphabet and the same shift
/// gives the cipher text back.
pub proof fn law_encrypt_undoes_decrypt<A: Alphabet>(shift: nat, text: Seq<char>)
    requires
        within(A::symbols(), text),
    ensures
        encipher(A::symbols(), shift, decipher(A::symbols(), shift, text)) == text,
{
    A::symbols_are_distinct();
    lemma_rotation_same_symbols(A::symbols(), shift);
    lemma_substitute_back(rotation(A::symbols(), shift), A::symbols(), text);
}

/// Both ways a text keeps its length and stays within the alphabet.
pub proof fn law_texts_stay_in_alphabet<A: Alphabet>(shift: nat, text: Seq<char>)
    requires
        within(A::symbols(), text),
    ensures
        encipher(A::symbols(), shift, text).len() == text.len(),
        within(A::symbols(), encipher(A::symbols(), shift, text)),
        decipher(A::symbols(), shift, text).len() == text.len(),
        within(A::symbols(), decipher(A::symbols(), shift, text)),
{
    lemma_rotation_same_symbols(A::symbols(), shift);
}

/// A shift of zero leaves the alphabet as it is, and every message with it.
pub proof fn law_shift_zero_is_identity<A: Alphabet>(text: Seq<char>)
    requires
        within(A::symbols(), text),
    ensures
        rotation(A::symbols(), 0) == A::symbols(),
        encipher(A::symbols(), 0, text) == text,
        decipher(A::symbols(), 0, text) == text,
{
    assert(encipher(A::symbols(), 0, text) =~= text);
}

/// A shift counts round the alphabet: as many places more as the alphabet has
/// symbols give the same rotation, hence the same cipher.
pub proof fn law_shift_wraps_around<A: Alphabet>(shift: nat)
    ensures
        rotation(A::symbols(), shift + A::symbols().len()) == rotation(A::symbols(), shift),
        rotation(A::symbols(), A::symbols().len()) == A::symbols(),
{
    let n = A::symbols().len();
    if n > 0 {
        assert((shift + n) % n == shift % n) by (nonlinear_arith)
            requires
                n > 0,
                shift >= 0,
        ;
    }
}

/// The rotated alphabet is the alphabet in another order: it is as long,
/// holds each symbol as often, and so holds no symbol twice.
pub proof fn law_rotation_rearranges<A: Alphabet>(shift: nat)
    ensures
        rotation(A::symbols(), shift).len() == A::symbols().len(),
        rotation(A::symbols(), shift).to_multiset() == A::symbols().to_multiset(),
        rotation(A::symbols(), shift).no_duplicates(),
{
    let symbols = A::symbols();
    A::symbols_are_distinct();
    lemma_rotation_distinct(symbols, shift);
    if symbols.len() > 0 {
        let cut = (shift % symbols.len()) as int;
        let front = symbols.subrange(0, cut);
        let back = symbols.subrange(cut, symbols.len() as int);
        assert(symbols =~= front + back);
        lemma_multiset_commutative(front, back);
        lemma_multiset_commutative(back, front);
    }
}

/// Encrypting moves each character `shift` places forward in the alphabet,
/// counted round it.
pub proof fn law_encrypt_moves_forward<A: Alphabet>(shift: nat, text: Seq<char>, i: int)
    requires
        within(A::symbols(), text),
        0 <= i < text.len(),
    ensures
        encipher(A::symbols(), shift, text)[i] == A::symbols()[(A::symbols().index_of(text[i])
            + shift) % (A::symbols().len() as int)],
{
    assert(A::symbols().contains(text[i]));
    lemma_rotation_index(A::symbols(), shift, A::symbols().index_of(text[i]));
}

/// Decrypting moves each character `shift` places backward in the alphabet,
/// counted round it.
pub proof fn law_decrypt_moves_backward<A: Alphabet>(shift: nat, text: Seq<char>, i: int)
    requires
        within(A::symbols(), text),
        0 <= i < text.len(),
    ensures
        decipher(A::symbols(), shift, text)[i] == A::symbols()[(A::symbols().index_of(text[i])
            - shift) % (A::symbols().len() as int)],
{
    let symbols = A::symbols();
    let turned = rotation(symbols, shift);
    let n = symbols.len() as int;
    let by = shift as int;
    assert(symbols.contains(text[i]));
    let here = symbols.index_of(text[i]);
    let there = (here - by) % n;
    assert(0 <= there < n && (there + by) % n == here) by {
        lemma_add_mod_noop_right(by, here - by, n);
        lemma_small_mod(here as nat, n as nat);
    }
    A::symbols_are_distinct();
    lemma_rotation_distinct(symbols, shift);
    lemma_rotation_index(symbols, shift, there);
}

/// An alphabet without symbols admits the empty message and no other, and
/// every shift leaves it as it is.
pub proof fn law_empty_alphabet<A: Alphabet>(shift: nat, text: Seq<char>)
    requires
        A::symbols().len() == 0,
    ensures
        rotation(A::symbols(), shift) == A::symbols(),
        within(A::symbols(), text) <==> text.len() == 0,
{
    if text.len() > 0 && within(A::symbols(), text) {
        assert(A::symbols().contains(text[0]));
    }
}

} // verus!
