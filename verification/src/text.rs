//! Messages that are known to fit an alphabet.
//!
//! A [`ClearText`] is made by checking a string against an alphabet, a
//! [`CipherText`] only by encrypting a clear text. Either one holds nothing
//! but symbols of the alphabet it is tied to, so an engine of that alphabet
//! finds every character of it in its tables.
use crate::alphabets::Alphabet;
use crate::lookup::position;
use crate::substitution::{first_outsider, within};
use std::fmt::Display;
use std::marker::PhantomData;
use vstd::prelude::*;
use vstd::std_specs::cmp::PartialEqSpecImpl;
use vstd::string::to_string_from_display_ensures;

verus! {

/// The character of a message that its alphabet does not hold.
#[derive(Debug, Eq, PartialEq, Structural)]
pub struct CharacterNotInAlphabet(pub char);

/// A Clear text is a non encrypted message
///
/// As with all other types in the library, a `ClearText` message
/// is tied to an [Alphabet].
///
///
/// # Examples
///
/// Cleartext using string message that fits in the alphabet
/// ```
/// use caesar_cipher::alphabets::AsciiLowerCaseAlphabet;
/// use caesar_cipher::ClearText;
/// let clear_text = ClearText::<AsciiLowerCaseAlphabet>::try_new("message");
/// assert!(clear_text.is_ok());
/// ```
/// Cleartext using string message that __does not__ fit in the alphabet
/// ```
/// use caesar_cipher::alphabets::AsciiLowerCaseAlphabet;
/// use caesar_cipher::{CharacterNotInAlphabet, ClearText};
/// let clear_text = ClearText::<AsciiLowerCaseAlphabet>::try_new("mEssage");
/// assert!(clear_text.is_err());
/// assert_eq!(clear_text, Err(CharacterNotInAlphabet('E')));
/// ```
///
#[derive(Debug)]
pub struct ClearText<A: Alphabet> {
    _marker: PhantomData<A>,
    message: String,
}

impl<A: Alphabet> View for ClearText<A> {
    type V = Seq<char>;

    /// The characters of the message.
    closed spec fn view(&self) -> Seq<char> {
        self.message@
    }
}

impl<A: Alphabet> ClearText<A> {
    /// A clear text holds symbols of its alphabet only.
    #[verifier::type_invariant]
    spec fn fits_alphabet(&self) -> bool {
        within(A::symbols(), self.message@)
    }

    /// What checking `text` against the alphabet gives: the text itself where
    /// all of it fits, and else its first character that the alphabet lacks.
    pub open spec fn checked(text: Seq<char>, outcome: Result<Self, CharacterNotInAlphabet>) -> bool {
        match outcome {
            Ok(clear) => clear@ == text && within(A::symbols(), text),
            Err(CharacterNotInAlphabet(stray)) => exists|at: int|
                first_outsider(A::symbols(), text, at) && text[at] == stray,
        }
    }

    /// Wraps a message that is known to fit the alphabet.
    pub(crate) fn from_checked(message: String) -> (clear: Self)
        requires
            within(A::symbols(), message@),
        ensures
            clear@ == message@,
    {
        Self { _marker: PhantomData, message }
    }

    /// Checks against the alphabet the text that `message` displays as: for a
    /// string, the string itself.
    ///
    /// The outcome is that of [`validate`](Self::validate) on one of the
    /// strings that `to_string` may give for `message`.
    pub fn try_new<T: Display>(message: T) -> (outcome: Result<Self, CharacterNotInAlphabet>)
        ensures
            exists|text: String|
                #[trigger] to_string_from_display_ensures::<T>(&message, text) && Self::checked(
                    text@,
                    outcome,
                ),
    {
        let message = message.to_string();
        Self::validate(message)
    }

    /// Checks `message` against the alphabet, character by character from the
    /// left, and keeps it as it is where every character fits. Characters are
    /// compared as they are: nothing is folded or normalized.
    pub fn validate(message: String) -> (outcome: Result<Self, CharacterNotInAlphabet>)
        ensures
            Self::checked(message@, outcome),
    {
        let alphabet_letters = A::letters();
        for letter in scan: message.as_str().chars()
            invariant
                scan.seq() == message@,
                alphabet_letters@ == A::symbols(),
                within(A::symbols(), message@.take(scan.index())),
        {
            if position(alphabet_letters, letter).is_none() {
                return Err(CharacterNotInAlphabet(letter));
            }
        }
        assert(message@.take(message@.len() as int) =~= message@);
        Ok(Self { _marker: PhantomData, message })
    }
}

impl<A: Alphabet> AsRef<String> for ClearText<A> {
    /// The message as a string: its characters, all of them of the alphabet.
    fn as_ref(&self) -> (message: &String)
        ensures
            message@ == self@,
            within(A::symbols(), message@),
    {
        proof {
            use_type_invariant(self);
        }
        &self.message
    }
}

impl<A: Alphabet> PartialEq for ClearText<A> {
    fn eq(&self, other: &Self) -> (equal: bool) {
        self.message == other.message
    }
}

impl<A: Alphabet> PartialEqSpecImpl for ClearText<A> {
    open spec fn obeys_eq_spec() -> bool {
        true
    }

    /// Two clear texts are equal when they hold the same characters.
    open spec fn eq_spec(&self, other: &Self) -> bool {
        self@ == other@
    }
}

impl<A: Alphabet> Eq for ClearText<A> {

}

impl<A: Alphabet> PartialEq<str> for ClearText<A> {
    fn eq(&self, other: &str) -> (equal: bool) {
        self.message == *other
    }
}

impl<A: Alphabet> PartialEqSpecImpl<str> for ClearText<A> {
    open spec fn obeys_eq_spec() -> bool {
        true
    }

    /// A clear text equals a string slice that holds the same characters.
    open spec fn eq_spec(&self, other: &str) -> bool {
        self@ == other@
    }
}

/// A cipher text is an encrypted message
///
/// It is tied to the [Alphabet] of the engine that made it, and holds symbols
/// of that alphabet only. There is no other way to make one than to encrypt a
/// [`ClearText`].
#[derive(Debug)]
pub struct CipherText<A: Alphabet> {
    _marker: PhantomData<A>,
    cipher: String,
}

impl<A: Alphabet> View for CipherText<A> {
    type V = Seq<char>;

    /// The characters of the encrypted message.
    closed spec fn view(&self) -> Seq<char> {
        self.cipher@
    }
}

impl<A: Alphabet> CipherText<A> {
    /// A cipher text holds symbols of its alphabet only.
    #[verifier::type_invariant]
    spec fn fits_alphabet(&self) -> bool {
        within(A::symbols(), self.cipher@)
    }

    /// Wraps an encrypted message that is known to fit the alphabet.
    pub(crate) fn from_checked(cipher: String) -> (text: Self)
        requires
            within(A::symbols(), cipher@),
        ensures
            text@ == cipher@,
    {
        Self { _marker: PhantomData, cipher }
    }

    /// The encrypted message as a string: its characters, all of them of the
    /// alphabet.
    pub(crate) fn as_string(&self) -> (cipher: &String)
        ensures
            cipher@ == self@,
            within(A::symbols(), cipher@),
    {
        proof {
            use_type_invariant(self);
        }
        &self.cipher
    }
}

impl<A: Alphabet> PartialEq for CipherText<A> {
    fn eq(&self, other: &Self) -> (equal: bool) {
        self.cipher == other.cipher
    }
}

impl<A: Alphabet> PartialEqSpecImpl for CipherText<A> {
    open spec fn obeys_eq_spec() -> bool {
        true
    }

    /// Two cipher texts are equal when they hold the same characters.
    open spec fn eq_spec(&self, other: &Self) -> bool {
        self@ == other@
    }
}

impl<A: Alphabet> Eq for CipherText<A> {

}

impl<A: Alphabet> PartialEq<str> for CipherText<A> {
    fn eq(&self, other: &str) -> (equal: bool) {
        self.cipher == *other
    }
}

impl<A: Alphabet> PartialEqSpecImpl<str> for CipherText<A> {
    open spec fn obeys_eq_spec() -> bool {
        true
    }

    /// A cipher text equals a string slice that holds the same characters.
    open spec fn eq_spec(&self, other: &str) -> bool {
        self@ == other@
    }
}

} // verus!
