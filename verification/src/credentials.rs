//! Sealing a username and a password into an envelope.

use vstd::prelude::*;
use vstd::utf8::*;

use crate::cipher::{aes_gcm_sealed, encrypt_data, lemma_plaintext_limit_bounds, plaintext_limit};
use crate::digest::{derive_key, derived_key};
use crate::encoding::{base64_text, encode};
use crate::envelope::{EncryptedData, Envelope};
use crate::error::{CipherError, EncryptError, Field};
use crate::random::{generate_iv, generate_salt};

verus! {

/// The reason for which a pair of credentials cannot be sealed, if there is
/// one: the first of the two texts that is too long for the cipher.
pub open spec fn refusal(username: Seq<char>, password: Seq<char>) -> Option<EncryptError> {
    if encode_utf8(username).len() > plaintext_limit() {
        Some(
            EncryptError {
                field: Field::Username,
                cause: CipherError::PlaintextTooLong {
                    length: encode_utf8(username).len() as usize,
                },
            },
        )
    } else if encode_utf8(password).len() > plaintext_limit() {
        Some(
            EncryptError {
                field: Field::Password,
                cause: CipherError::PlaintextTooLong {
                    length: encode_utf8(password).len() as usize,
                },
            },
        )
    } else {
        None
    }
}

/// The envelope that holds `username` and `password`, sealed under `iv` and
/// the key derived from `password` and `salt`.
pub open spec fn sealed_envelope(
    username: Seq<char>,
    password: Seq<char>,
    salt: Seq<u8>,
    iv: Seq<u8>,
) -> Envelope {
    let key = derived_key(password, salt);
    Envelope {
        encrypted_username: base64_text(aes_gcm_sealed(key, iv, encode_utf8(username))),
        encrypted_password: base64_text(aes_gcm_sealed(key, iv, encode_utf8(password))),
        salt: base64_text(salt),
        iv: base64_text(iv),
    }
}

/// Credentials of up to 1 610 612 717 bytes each are sealed, whatever the
/// machine.
pub proof fn lemma_ordinary_credentials_accepted(username: Seq<char>, password: Seq<char>)
    requires
        encode_utf8(username).len() <= 1_610_612_717,
        encode_utf8(password).len() <= 1_610_612_717,
    ensures
        refusal(username, password) is None,
{
    lemma_plaintext_limit_bounds();
}

/// Seals `username` and `password` with a salt and a nonce that the caller
/// has drawn.
///
/// Both fields are sealed under the same key and the same nonce. A pair of
/// salt and nonce must therefore never serve for a second envelope.
pub fn seal_credentials(username: &str, password: &str, salt: &[u8; 32], iv: &[u8; 12]) -> (outcome:
    Result<EncryptedData, EncryptError>)
    ensures
        match outcome {
            Ok(envelope) => {
                &&& refusal(username@, password@) is None
                &&& envelope@ == sealed_envelope(username@, password@, salt@, iv@)
                &&& envelope@.well_formed()
                &&& envelope@.salt_bytes() == salt@
                &&& envelope@.iv_bytes() == iv@
                &&& envelope@.opens_to(username@, password@)
            },
            Err(e) => refusal(username@, password@) == Some(e),
        },
{
    let key = derive_key(password, salt.as_slice());
    let salt_text = encode(salt.as_slice());
    let iv_text = encode(iv.as_slice());
    let encrypted_username = match encrypt_data(username, key.as_slice(), iv_text.as_str()) {
        Ok(text) => text,
        Err(cause) => {
            return Err(EncryptError { field: Field::Username, cause });
        },
    };
    let encrypted_password = match encrypt_data(password, key.as_slice(), iv_text.as_str()) {
        Ok(text) => text,
        Err(cause) => {
            return Err(EncryptError { field: Field::Password, cause });
        },
    };
    Ok(EncryptedData { encrypted_username, encrypted_password, salt: salt_text, iv: iv_text })
}

/// Seals `username` and `password` under a fresh salt and a fresh nonce.
pub fn encrypt_credentials(username: &str, password: &str) -> (outcome: Result<
    EncryptedData,
    EncryptError,
>)
    ensures
        match outcome {
            Ok(envelope) => {
                &&& refusal(username@, password@) is None
                &&& envelope@.well_formed()
                &&& envelope@ == sealed_envelope(
                    username@,
                    password@,
                    envelope@.salt_bytes(),
                    envelope@.iv_bytes(),
                )
                &&& envelope@.opens_to(username@, password@)
            },
            Err(e) => refusal(username@, password@) == Some(e),
        },
{
    let salt = generate_salt();
    let iv = generate_iv();
    seal_credentials(username, password, &salt, &iv)
}

} // verus!
