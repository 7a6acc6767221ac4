//! Ave Imperator, on the `caesar_cipher` crate documentation
//!
//! This crate provides the tools to be able to __encrypt__ and
//! __decrypt__ messages using the [Caesar cipher](https://en.wikipedia.org/wiki/Caesar_cipher).
//!
//! To summarize, in this encryption scheme, we have an alphabet in which the clear text is in.
//! And to encrypt a clear text we shift the alphabet by a number.
//!
//! # What is proved
//!
//! The crate is verified with [Verus](https://github.com/verus-lang/verus).
//! An [`Alphabet`](alphabets::Alphabet) states its table of symbols and proves
//! that no symbol occurs twice in it. A [`ClearText`] or a [`CipherText`] holds
//! symbols of its alphabet only, so that a [`CaesarEngine`] of the same
//! alphabet finds each of them: neither [`CaesarEngine::encrypt`] nor
//! [`CaesarEngine::decrypt`] can fail. What they return is stated over the
//! sequences of [`substitution`], and [`laws`] proves of those what holds for
//! every alphabet, every shift and every message: that decrypting undoes
//! encrypting, that a shift of zero changes nothing, that a shift counts round
//! the alphabet.
//!
//! The alphabet is a type parameter of the texts and of the engine. A text of
//! one alphabet is no argument for the engine of another: the compiler refuses
//! the call.
//!
//! Two functions of `String` are called as they stand, on the contracts that
//! [`strings`] gives them without proof.
pub mod alphabets;
pub mod engine;
pub mod laws;
mod lookup;
pub mod strings;
pub mod substitution;
pub mod text;

pub use crate::engine::{CaesarEngine, Shift};
pub use crate::text::{CharacterNotInAlphabet, CipherText, ClearText};
