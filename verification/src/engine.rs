//! The engine that encrypts and decrypts.
use crate::alphabets::Alphabet;
use crate::lookup::position;
use crate::substitution::{
    decipher, encipher, lemma_rotation_same_symbols, rotation, substitute, within,
};
use crate::text::{CipherText, ClearText};
use std::marker::PhantomData;
use vstd::prelude::*;

verus! {

/// By how many places an engine rotates its alphabet.
///
/// Any number is a shift: one that is not smaller than the length of the
/// alphabet counts round it, so that only its remainder by that length matters.
pub struct Shift(pub usize);

/// Struct that encrypts and decrypts message.
///
/// An engine is tied to an [Alphabet] and will only be able to
/// [encrypt] / [decrypt] messages that are in the same `Alphabet`.
///
///
/// # Examples
///
/// Correctly using the same Alphabet:
/// ```
/// use caesar_cipher::alphabets::IncompleteAscii;
/// use caesar_cipher::{CaesarEngine, Shift, ClearText};
///
/// let message = ClearText::<IncompleteAscii>::try_new("Ave Imperator, morituri te salutant").unwrap();
///
/// let engine = CaesarEngine::<IncompleteAscii>::new(Shift(17));
///
/// let encrypted_message = engine.encrypt(&message);
/// let decrypted_message = engine.decrypt(&encrypted_message);
///
/// assert_eq!(decrypted_message, message);
/// ```
///
/// Trying to mix [Alphabet]s will create a compile error
/// ```compile_fail
/// use caesar_cipher::alphabets::{AsciiLowerCaseAlphabet, IncompleteAscii};
/// use caesar_cipher::{CaesarEngine, Shift, ClearText};
///
/// let message = ClearText::<IncompleteAscii>::try_new("Ave Imperator, morituri te salutant").unwrap();
///
/// let engine = CaesarEngine::<AsciiLowerCaseAlphabet>::new(Shift(17));
///
/// // This line make compilation fail
/// let encrypted_message = engine.encrypt(&message);
/// ```
///
/// [encrypt]: Self::encrypt
/// [decrypt]: Self::decrypt
pub struct CaesarEngine<A: Alphabet> {
    _marker: PhantomData<A>,
    shifted_alphabet: Vec<char>,
    shift: Ghost<nat>,
}

impl<A: Alphabet> CaesarEngine<A> {
    /// The engine holds its alphabet rotated by its shift.
    #[verifier::type_invariant]
    spec fn holds_rotation(&self) -> bool {
        self.shifted_alphabet@ == rotation(A::symbols(), self.shift@)
    }

    /// The shift that the engine was made with.
    pub closed spec fn shift(&self) -> nat {
        self.shift@
    }

    /// The table that the engine substitutes into: its alphabet, rotated.
    pub closed spec fn shifted_alphabet(&self) -> Seq<char> {
        self.shifted_alphabet@
    }

    /// Creates the engine of alphabet `A` that rotates it by `shift` places.
    ///
    /// Every shift is taken: one that is not smaller than the length of the
    /// alphabet counts round it, and an alphabet without symbols stays as it is.
    pub fn new(shift: Shift) -> (engine: Self)
        ensures
            engine.shift() == shift.0,
            engine.shifted_alphabet() == rotation(A::symbols(), shift.0 as nat),
    {
        let letters = A::letters();
        let length = letters.len();
        let mut shifted_alphabet: Vec<char> = Vec::with_capacity(length);
        if length > 0 {
            let cut = shift.0 % length;
            let mut back: usize = cut;
            while back < length
                invariant
                    cut <= back <= length,
                    length == letters@.len(),
                    shifted_alphabet@ == letters@.subrange(cut as int, back as int),
                decreases length - back,
            {
                shifted_alphabet.push(letters[back]);
                back += 1;
            }
            let mut front: usize = 0;
            while front < cut
                invariant
                    front <= cut <= length,
                    length == letters@.len(),
                    shifted_alphabet@ == letters@.subrange(cut as int, length as int)
                        + letters@.subrange(0, front as int),
                decreases cut - front,
            {
                shifted_alphabet.push(letters[front]);
                front += 1;
            }
        }
        assert(shifted_alphabet@ =~= rotation(A::symbols(), shift.0 as nat));
        Self { _marker: PhantomData, shifted_alphabet, shift: Ghost(shift.0 as nat) }
    }

    /// Encrypts `clear_message`: each character gives way to the one that
    /// stands at its place in the rotated alphabet.
    ///
    /// The message is of the engine's alphabet by its type, so each of its
    /// characters is found.
    pub fn encrypt(&self, clear_message: &ClearText<A>) -> (cipher: CipherText<A>)
        ensures
            within(A::symbols(), clear_message@),
            cipher@ == encipher(A::symbols(), self.shift(), clear_message@),
            cipher@.len() == clear_message@.len(),
    {
        proof {
            use_type_invariant(self);
        }
        let message = clear_message.as_ref();
        let mut encrypted_message = String::new();
        let alphabet = A::letters();
        for letter in scan: message.as_str().chars()
            invariant
                scan.seq() == clear_message@,
                within(A::symbols(), clear_message@),
                alphabet@ == A::symbols(),
                self.shifted_alphabet@.len() == alphabet@.len(),
                encrypted_message@ == substitute(
                    A::symbols(),
                    self.shifted_alphabet@,
                    clear_message@.take(scan.index()),
                ),
        {
            let letter_index = position(alphabet, letter).unwrap();
            proof {
                A::symbols_are_distinct();
            }
            encrypted_message.push(self.shifted_alphabet[letter_index]);
        }
        CipherText::from_checked(encrypted_message)
    }

    /// Decrypts `cipher_message`: each character gives way to the one that
    /// stands in the alphabet at its place in the rotated alphabet.
    ///
    /// The message is of the engine's alphabet by its type, and the rotated
    /// alphabet holds the same symbols, so each of its characters is found.
    pub fn decrypt(&self, cipher_message: &CipherText<A>) -> (clear: ClearText<A>)
        ensures
            within(A::symbols(), cipher_message@),
            clear@ == decipher(A::symbols(), self.shift(), cipher_message@),
            clear@.len() == cipher_message@.len(),
    {
        proof {
            use_type_invariant(self);
            lemma_rotation_same_symbols(A::symbols(), self.shift());
            A::symbols_are_distinct();
        }
        let cipher = cipher_message.as_string();
        let mut clear_message = String::new();
        let alphabet = A::letters();
        for letter in scan: cipher.as_str().chars()
            invariant
                scan.seq() == cipher_message@,
                within(A::symbols(), cipher_message@),
                alphabet@ == A::symbols(),
                self.shifted_alphabet@.len() == alphabet@.len(),
                self.shifted_alphabet@.no_duplicates(),
                forall|c: char| self.shifted_alphabet@.contains(c) <==> A::symbols().contains(c),
                clear_message@ == substitute(
                    self.shifted_alphabet@,
                    A::symbols(),
                    cipher_message@.take(scan.index()),
                ),
        {
            let letter_index = position(self.shifted_alphabet.as_slice(), letter).unwrap();
            clear_message.push(alphabet[letter_index]);
        }
        ClearText::from_checked(clear_message)
    }
}

} // verus!
