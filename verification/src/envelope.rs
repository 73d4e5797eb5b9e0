//! The envelope that leaves the library, and the pair that enters it.

use vstd::prelude::*;
use vstd::utf8::*;

use crate::cipher::decrypted_data;
use crate::digest::derived_key;
use crate::encoding::{base64_bytes, decode, decode_exact, decoded_exact};
use crate::error::DecodingError;
use crate::random::{IV_LEN, SALT_LEN};

verus! {

/// A username and a password, as the caller holds them for one call.
#[derive(Clone, Debug, PartialEq, Eq)]
pub struct LoginCredentials {
    pub username: String,
    pub password: String,
}

/// The sealed credentials: four fields of base64 text.
#[derive(Clone, Debug, PartialEq, Eq)]
pub struct EncryptedData {
    /// Ciphertext and tag of the username.
    pub encrypted_username: String,
    /// Ciphertext and tag of the password.
    pub encrypted_password: String,
    /// The 32 bytes that entered the key derivation.
    pub salt: String,
    /// The 12-byte nonce under which both fields were sealed.
    pub iv: String,
}

/// The text of a pair of credentials.
pub ghost struct Credentials {
    pub username: Seq<char>,
    pub password: Seq<char>,
}

/// The text of an envelope's four fields.
pub ghost struct Envelope {
    pub encrypted_username: Seq<char>,
    pub encrypted_password: Seq<char>,
    pub salt: Seq<char>,
    pub iv: Seq<char>,
}

impl Envelope {
    /// Every field is base64, the salt of 32 bytes and the nonce of 12.
    pub open spec fn well_formed(self) -> bool {
        &&& base64_bytes(self.encrypted_username) is Some
        &&& base64_bytes(self.encrypted_password) is Some
        &&& decoded_exact(self.salt, SALT_LEN) is Ok
        &&& decoded_exact(self.iv, IV_LEN) is Ok
    }

    /// The raw salt of a well-formed envelope.
    pub open spec fn salt_bytes(self) -> Seq<u8>
        recommends
            self.well_formed(),
    {
        base64_bytes(self.salt)->0
    }

    /// The raw nonce of a well-formed envelope.
    pub open spec fn iv_bytes(self) -> Seq<u8>
        recommends
            self.well_formed(),
    {
        base64_bytes(self.iv)->0
    }

    /// Opening both sealed fields, under the key derived from `password` and
    /// the envelope's salt, gives back the bytes of `username` and `password`.
    pub open spec fn opens_to(self, username: Seq<char>, password: Seq<char>) -> bool {
        let key = derived_key(password, self.salt_bytes());
        &&& decrypted_data(self.encrypted_username, key, self.iv) == Ok::<
            Seq<u8>,
            crate::error::CipherError,
        >(encode_utf8(username))
        &&& decrypted_data(self.encrypted_password, key, self.iv) == Ok::<
            Seq<u8>,
            crate::error::CipherError,
        >(encode_utf8(password))
    }
}

impl View for LoginCredentials {
    type V = Credentials;

    open spec fn view(&self) -> Credentials {
        Credentials { username: self.username@, password: self.password@ }
    }
}

impl View for EncryptedData {
    type V = Envelope;

    open spec fn view(&self) -> Envelope {
        Envelope {
            encrypted_username: self.encrypted_username@,
            encrypted_password: self.encrypted_password@,
            salt: self.salt@,
            iv: self.iv@,
        }
    }
}

impl EncryptedData {
    /// Decodes the salt, which must hold 32 bytes.
    pub fn salt_bytes(&self) -> (outcome: Result<Vec<u8>, DecodingError>)
        ensures
            match outcome {
                Ok(bytes) => decoded_exact(self@.salt, SALT_LEN) == Ok::<Seq<u8>, DecodingError>(
                    bytes@,
                ),
                Err(e) => decoded_exact(self@.salt, SALT_LEN) == Err::<Seq<u8>, DecodingError>(e),
            },
    {
        decode_exact(self.salt.as_str(), SALT_LEN)
    }

    /// Decodes the nonce, which must hold 12 bytes.
    pub fn iv_bytes(&self) -> (outcome: Result<Vec<u8>, DecodingError>)
        ensures
            match outcome {
                Ok(bytes) => decoded_exact(self@.iv, IV_LEN) == Ok::<Seq<u8>, DecodingError>(
                    bytes@,
                ),
                Err(e) => decoded_exact(self@.iv, IV_LEN) == Err::<Seq<u8>, DecodingError>(e),
            },
    {
        decode_exact(self.iv.as_str(), IV_LEN)
    }

    /// Tells whether all four fields decode, the salt to 32 bytes and the
    /// nonce to 12.
    pub fn is_well_formed(&self) -> (well_formed: bool)
        ensures
            well_formed == self@.well_formed(),
    {
        decode(self.encrypted_username.as_str()).is_ok() && decode(
            self.encrypted_password.as_str(),
        ).is_ok() && self.salt_bytes().is_ok() && self.iv_bytes().is_ok()
    }
}

} // verus!
