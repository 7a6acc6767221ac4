use caesar_cipher::alphabets::{Alphabet, AsciiLowerCaseAlphabet, IncompleteAscii};

fn all_distinct(letters: &[char]) -> bool {
    for (at, letter) in letters.iter().enumerate() {
        if letters[..at].contains(letter) {
            return false;
        }
    }
    true
}

#[test]
fn lowercase_alphabet_is_a_to_z() {
    let letters = AsciiLowerCaseAlphabet::letters();
    assert_eq!(letters.len(), 26);
    let table: String = letters.iter().collect();
    assert_eq!(table, "abcdefghijklmnopqrstuvwxyz");
    assert!(all_distinct(letters));
}

#[test]
fn incomplete_ascii_has_sixty_symbols_in_order() {
    let letters = IncompleteAscii::letters();
    assert_eq!(letters.len(), 60);
    let table: String = letters.iter().collect();
    assert_eq!(table, "abcdefghijklmnopqrstuvwxyzABCDEFGHIJKLMNOPQRSTUVWXYZ, ?!'().");
    assert!(all_distinct(letters));
}

#[test]
fn incomplete_ascii_begins_with_the_lowercase_alphabet() {
    let lowercase = AsciiLowerCaseAlphabet::letters();
    let letters = IncompleteAscii::letters();
    assert_eq!(&letters[..26], lowercase);
    assert_eq!(letters[26], 'A');
    assert_eq!(letters[51], 'Z');
    assert_eq!(&letters[52..], &[',', ' ', '?', '!', '\'', '(', ')', '.']);
}

#[test]
fn letters_are_the_same_at_every_call() {
    assert_eq!(AsciiLowerCaseAlphabet::letters(), AsciiLowerCaseAlphabet::letters());
    assert_eq!(IncompleteAscii::letters(), IncompleteAscii::letters());
    assert_eq!(AsciiLowerCaseAlphabet, AsciiLowerCaseAlphabet);
    assert_eq!(IncompleteAscii, IncompleteAscii);
}
