use chat_relay::cipher::Cipher;
use chat_relay::error::RelayError;

fn round_trip(passphrase: &str, message: &str) {
    let cipher = Cipher::new(passphrase);
    let encoded = cipher.encrypt(message);
    assert!(!encoded.contains('\n'));
    assert_eq!(cipher.decrypt(&encoded), Ok(String::from(message)));
}

#[test]
fn round_trip_restores_the_message() {
    round_trip("swordfish", "hi");
}

#[test]
fn round_trip_restores_the_empty_message() {
    round_trip("swordfish", "");
}

#[test]
fn round_trip_restores_text_beyond_ascii() {
    round_trip("swordfish", "gr\u{fc}\u{df} dich, \u{4e16}\u{754c} \u{1f600}");
}

#[test]
fn round_trip_restores_a_message_longer_than_one_block() {
    round_trip(
        "pass phrase with spaces",
        "the quick brown fox jumps over the lazy dog, twice over",
    );
}

#[test]
fn round_trip_works_under_the_empty_passphrase() {
    round_trip("", "hello");
}

#[test]
fn encryption_gives_the_documented_text() {
    let cipher = Cipher::new("magickey");
    assert_eq!(
        cipher.encrypt("http://magiclen.org"),
        "DS/2U8royDnJDiNY2ps3f6ZoTbpZo8ZtUGYLGEjwLDQ="
    );
}

#[test]
fn decryption_gives_the_documented_text() {
    let cipher = Cipher::new("magickey");
    assert_eq!(
        cipher.decrypt("DS/2U8royDnJDiNY2ps3f6ZoTbpZo8ZtUGYLGEjwLDQ="),
        Ok(String::from("http://magiclen.org"))
    );
}

#[test]
fn encryption_is_repeatable() {
    let one = Cipher::new("swordfish");
    let other = Cipher::new("swordfish");
    assert_eq!(one.encrypt("hello"), other.encrypt("hello"));
    assert_eq!(one.encrypt("hello"), one.encrypt("hello"));
}

#[test]
fn encryption_depends_on_the_passphrase() {
    let one = Cipher::new("swordfish");
    let other = Cipher::new("marlin");
    assert_ne!(one.encrypt("hello"), other.encrypt("hello"));
}

#[test]
fn another_passphrase_does_not_decrypt() {
    let sender = Cipher::new("marlin");
    let relay = Cipher::new("swordfish");
    let encoded = sender.encrypt("hello");
    assert_eq!(relay.decrypt(&encoded), Err(RelayError::DecryptionFailure));
}

#[test]
fn plain_text_does_not_decrypt() {
    let cipher = Cipher::new("swordfish");
    assert_eq!(cipher.decrypt("hello there"), Err(RelayError::DecryptionFailure));
}

#[test]
fn a_truncated_line_does_not_decrypt() {
    let cipher = Cipher::new("swordfish");
    let encoded = cipher.encrypt("hello");
    assert_eq!(cipher.decrypt(&encoded[..encoded.len() - 4]), Err(RelayError::DecryptionFailure));
}

#[test]
fn the_empty_line_does_not_decrypt() {
    let cipher = Cipher::new("swordfish");
    assert_eq!(cipher.decrypt(""), Err(RelayError::DecryptionFailure));
}

#[test]
fn a_typed_passphrase_loses_its_line_end() {
    let typed = Cipher::from_entry("swordfish\n");
    let exact = Cipher::new("swordfish");
    assert_eq!(typed.encrypt("hi"), exact.encrypt("hi"));
    assert_eq!(exact.decrypt(&typed.encrypt("hi")), Ok(String::from("hi")));
}

#[test]
fn a_typed_passphrase_loses_surrounding_blanks_only() {
    let typed = Cipher::from_entry("  sword fish \r\n");
    let exact = Cipher::new("sword fish");
    let squeezed = Cipher::new("swordfish");
    assert_eq!(typed.encrypt("hi"), exact.encrypt("hi"));
    assert_ne!(typed.encrypt("hi"), squeezed.encrypt("hi"));
}

#[test]
fn an_exact_passphrase_keeps_its_blanks() {
    let padded = Cipher::new("swordfish\n");
    let exact = Cipher::new("swordfish");
    assert_ne!(padded.encrypt("hi"), exact.encrypt("hi"));
}

#[test]
fn a_copy_of_a_cipher_decrypts_what_the_cipher_encrypted() {
    let cipher = Cipher::new("swordfish");
    let copy = cipher.clone();
    assert_eq!(copy.decrypt(&cipher.encrypt("hi")), Ok(String::from("hi")));
}
