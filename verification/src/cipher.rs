//! The shared-passphrase cipher that every chat line passes through.
//!
//! The relay does not implement a cipher of its own. Lines are encrypted and
//! decrypted by the `magic_crypt` crate (AES-256 in CBC mode, textual Base64
//! encoding); this module gives the two results names and states the relay's
//! rules over those names.

use magic_crypt::MagicCrypt256;
use magic_crypt::MagicCryptError;
use magic_crypt::MagicCryptTrait;
use vstd::prelude::*;
use vstd::string::*;

use crate::error::RelayError;
use crate::text::trim;
use crate::text::trimmed;

verus! {

/// The error type of `magic_crypt`, carried from the decrypting call to the
/// place where it is turned into [`RelayError::DecryptionFailure`].
#[verifier::external_type_specification]
#[verifier::external_body]
pub struct ExMagicCryptError(MagicCryptError);

/// The Base64 text that encrypting `plaintext` under the passphrase `key`
/// yields.
pub uninterp spec fn aes256_base64(key: Seq<char>, plaintext: Seq<char>) -> Seq<char>;

/// The text that `encoded` decrypts to under the passphrase `key`, or `None`
/// where it does not decrypt: it is no Base64, its padding is wrong for this
/// key, or the bytes that come out are no UTF-8.
pub uninterp spec fn aes256_plaintext(key: Seq<char>, encoded: Seq<char>) -> Option<Seq<char>>;

/// `MagicCrypt256::new` with no initialisation vector, then
/// `MagicCryptTrait::encrypt_str_to_base64`.
///
/// Not proved: that the call is a function of the passphrase and the text
/// alone; that what it returns decrypts, under the same passphrase, to the
/// text that was put in; and that it is Base64 without line breaks, so holds
/// no newline.
#[verifier::external_body]
fn encrypt_str_to_base64(key: &str, plaintext: &str) -> (encoded: String)
    ensures
        encoded@ == aes256_base64(key@, plaintext@),
        aes256_plaintext(key@, encoded@) == Some(plaintext@),
        !encoded@.contains('\n'),
{
    MagicCrypt256::new(key, None::<&[u8]>).encrypt_str_to_base64(plaintext)
}

/// `MagicCrypt256::new` with no initialisation vector, then
/// `MagicCryptTrait::decrypt_base64_to_string`.
///
/// Not proved: that the call is a function of the passphrase and the encoded
/// text alone. Nothing is claimed about which texts decrypt.
#[verifier::external_body]
fn decrypt_base64_to_string(key: &str, encoded: &str) -> (outcome: Result<String, MagicCryptError>)
    ensures
        match outcome {
            Ok(plaintext) => aes256_plaintext(key@, encoded@) == Some(plaintext@),
            Err(_) => aes256_plaintext(key@, encoded@) is None,
        },
{
    MagicCrypt256::new(key, None::<&[u8]>).decrypt_base64_to_string(encoded)
}

/// The cipher of one relay or client, made from the shared passphrase.
pub struct Cipher {
    passphrase: String,
}

impl Cipher {
    /// The passphrase that this cipher encrypts and decrypts under.
    pub closed spec fn key(&self) -> Seq<char> {
        self.passphrase@
    }

    /// What `plaintext` encrypts to under this cipher.
    pub open spec fn encrypted(&self, plaintext: Seq<char>) -> Seq<char> {
        aes256_base64(self.key(), plaintext)
    }

    /// What `encoded` decrypts to under this cipher, if it decrypts.
    pub open spec fn decrypted(&self, encoded: Seq<char>) -> Option<Seq<char>> {
        aes256_plaintext(self.key(), encoded)
    }

    /// A cipher under exactly `passphrase`.
    pub fn new(passphrase: &str) -> (cipher: Cipher)
        ensures
            cipher.key() == passphrase@,
    {
        Cipher { passphrase: String::from_str(passphrase) }
    }

    /// A cipher under a passphrase as it was typed: surrounding white space,
    /// the line terminator included, is no part of the passphrase.
    pub fn from_entry(entered: &str) -> (cipher: Cipher)
        ensures
            cipher.key() == trimmed(entered@),
    {
        Cipher::new(trim(entered))
    }

    /// Encrypts one chat message. The result is text without a newline and
    /// decrypts to `plaintext` under every cipher with the same passphrase.
    pub fn encrypt(&self, plaintext: &str) -> (encoded: String)
        ensures
            encoded@ == self.encrypted(plaintext@),
            self.decrypted(encoded@) == Some(plaintext@),
            !encoded@.contains('\n'),
    {
        encrypt_str_to_base64(self.passphrase.as_str(), plaintext)
    }

    /// Decrypts one inbound line. Fails, with `DecryptionFailure`, exactly
    /// on the lines that do not decrypt under this cipher's passphrase: the
    /// sender used another passphrase, or the line is no ciphertext at all.
    pub fn decrypt(&self, encoded: &str) -> (outcome: Result<String, RelayError>)
        ensures
            match outcome {
                Ok(plaintext) => self.decrypted(encoded@) == Some(plaintext@),
                Err(error) => error == RelayError::DecryptionFailure && self.decrypted(encoded@)
                    is None,
            },
    {
        match decrypt_base64_to_string(self.passphrase.as_str(), encoded) {
            Ok(plaintext) => Ok(plaintext),
            Err(_) => Err(RelayError::DecryptionFailure),
        }
    }
}

impl Clone for Cipher {
    fn clone(&self) -> (copy: Cipher)
        ensures
            copy.key() == self.key(),
    {
        Cipher { passphrase: self.passphrase.clone() }
    }
}

} // verus!
