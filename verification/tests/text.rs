use caesar_cipher::alphabets::{AsciiLowerCaseAlphabet, IncompleteAscii};
use caesar_cipher::{CharacterNotInAlphabet, ClearText};

#[test]
fn message_of_the_alphabet_is_accepted() {
    let clear_text = ClearText::<AsciiLowerCaseAlphabet>::try_new("message");
    assert!(clear_text.is_ok());
    assert_eq!(&clear_text.unwrap(), "message");
}

#[test]
fn uppercase_is_not_lowercase() {
    let clear_text = ClearText::<AsciiLowerCaseAlphabet>::try_new("mEssage");
    assert!(clear_text.is_err());
    assert_eq!(clear_text, Err(CharacterNotInAlphabet('E')));
}

#[test]
fn first_stray_character_is_reported() {
    let result = ClearText::<AsciiLowerCaseAlphabet>::try_new("ab?cd!e");
    assert_eq!(result, Err(CharacterNotInAlphabet('?')));

    let result = ClearText::<IncompleteAscii>::try_new("Semi; colon: dash-");
    assert_eq!(result, Err(CharacterNotInAlphabet(';')));
}

#[test]
fn stray_character_at_either_end_is_reported() {
    let result = ClearText::<AsciiLowerCaseAlphabet>::try_new("1abc");
    assert_eq!(result, Err(CharacterNotInAlphabet('1')));

    let result = ClearText::<AsciiLowerCaseAlphabet>::try_new("abc2");
    assert_eq!(result, Err(CharacterNotInAlphabet('2')));
}

#[test]
fn characters_are_matched_exactly() {
    let result = ClearText::<IncompleteAscii>::try_new("caf\u{e9}");
    assert_eq!(result, Err(CharacterNotInAlphabet('\u{e9}')));

    let result = ClearText::<IncompleteAscii>::try_new("tab\there");
    assert_eq!(result, Err(CharacterNotInAlphabet('\t')));

    let result = ClearText::<IncompleteAscii>::try_new("digits 123");
    assert_eq!(result, Err(CharacterNotInAlphabet('1')));
}

#[test]
fn empty_message_is_accepted() {
    let clear_text = ClearText::<AsciiLowerCaseAlphabet>::try_new("").unwrap();
    assert_eq!(&clear_text, "");
}

#[test]
fn validate_keeps_the_string() {
    let clear_text = ClearText::<IncompleteAscii>::validate(String::from("Keep it (as it is)."));
    let clear_text = clear_text.unwrap();
    let message: &String = clear_text.as_ref();
    assert_eq!(message, "Keep it (as it is).");
}

#[test]
fn validate_reports_as_try_new_does() {
    let checked = ClearText::<AsciiLowerCaseAlphabet>::validate(String::from("hello world"));
    assert_eq!(checked, Err(CharacterNotInAlphabet(' ')));
    assert_eq!(checked, ClearText::try_new("hello world"));

    let checked = ClearText::<AsciiLowerCaseAlphabet>::validate(String::from("helloworld"));
    assert_eq!(checked, ClearText::try_new("helloworld"));
}

#[test]
fn try_new_takes_what_displays() {
    let from_slice = ClearText::<AsciiLowerCaseAlphabet>::try_new("abc").unwrap();
    let from_string = ClearText::<AsciiLowerCaseAlphabet>::try_new(String::from("abc")).unwrap();
    let from_char = ClearText::<AsciiLowerCaseAlphabet>::try_new('a').unwrap();
    assert_eq!(from_slice, from_string);
    assert_eq!(&from_char, "a");

    let from_number = ClearText::<AsciiLowerCaseAlphabet>::try_new(42);
    assert_eq!(from_number, Err(CharacterNotInAlphabet('4')));
}

#[test]
fn clear_texts_compare_by_their_characters() {
    let one = ClearText::<AsciiLowerCaseAlphabet>::try_new("abcd").unwrap();
    let same = ClearText::<AsciiLowerCaseAlphabet>::try_new("abcd").unwrap();
    let other = ClearText::<AsciiLowerCaseAlphabet>::try_new("abce").unwrap();
    let shorter = ClearText::<AsciiLowerCaseAlphabet>::try_new("abc").unwrap();
    assert_eq!(one, same);
    assert_ne!(one, other);
    assert_ne!(one, shorter);
    assert_eq!(&one, "abcd");
    assert_ne!(&one, "abce");
    assert_ne!(&one, "abc");
}

#[test]
fn as_ref_gives_the_message() {
    let clear_text = ClearText::<IncompleteAscii>::try_new("Ave Imperator").unwrap();
    let message: &String = clear_text.as_ref();
    assert_eq!(message.as_str(), "Ave Imperator");
}
