//! AES-256-GCM over text: a plaintext is sealed into base64, and sealed
//! base64 is opened back into the plaintext's bytes.

use aes_gcm::aead::Aead;
use aes_gcm::{Aes256Gcm, Key, KeyInit, Nonce};
use vstd::prelude::*;
use vstd::utf8::*;

use crate::encoding::{base64_bytes, base64_text, decode, decode_exact, decoded_exact, encode};
use crate::error::{CipherError, DecodingError};
use crate::random::IV_LEN;

verus! {

/// Number of bytes of a key.
pub const KEY_LEN: usize = 32;

/// Number of bytes that the authentication tag adds to a plaintext.
pub const TAG_LEN: usize = 16;

/// The longest plaintext, in bytes, that AES-GCM takes under one nonce.
pub const CIPHER_MAX_PLAINTEXT: u64 = 68_719_476_736;

/// The ciphertext followed by its tag, as AES-256-GCM gives them for
/// `plaintext` under `key` and `nonce`, with no associated data.
pub uninterp spec fn aes_gcm_sealed(key: Seq<u8>, nonce: Seq<u8>, plaintext: Seq<u8>) -> Seq<u8>;

/// The plaintext that AES-256-GCM recovers from `sealed` under `key` and
/// `nonce`, with no associated data, or `None` where it refuses `sealed`.
pub uninterp spec fn aes_gcm_opened(key: Seq<u8>, nonce: Seq<u8>, sealed: Seq<u8>) -> Option<Seq<u8>>;

/// The longest plaintext, in bytes, whose sealed base64 text fits in one
/// allocation on this machine.
pub open spec fn machine_limit() -> int {
    (isize::MAX as int / 4) * 3 - TAG_LEN as int
}

/// The longest plaintext, in bytes, that can be sealed: what the cipher takes
/// and the machine can hold.
pub open spec fn plaintext_limit() -> int {
    if machine_limit() < CIPHER_MAX_PLAINTEXT as int {
        machine_limit()
    } else {
        CIPHER_MAX_PLAINTEXT as int
    }
}

/// What [`encrypt_data`] answers: the key is looked at first, then the nonce
/// text, then the plaintext's length.
pub open spec fn encrypted_data(data: Seq<char>, key: Seq<u8>, iv: Seq<char>) -> Result<
    Seq<char>,
    CipherError,
> {
    if key.len() != KEY_LEN {
        Err(CipherError::Key { length: key.len() as usize })
    } else {
        match decoded_exact(iv, IV_LEN) {
            Err(e) => Err(CipherError::Decode(e)),
            Ok(nonce) => {
                let plaintext = encode_utf8(data);
                if plaintext.len() > plaintext_limit() {
                    Err(CipherError::PlaintextTooLong { length: plaintext.len() as usize })
                } else {
                    Ok(base64_text(aes_gcm_sealed(key, nonce, plaintext)))
                }
            },
        }
    }
}

/// What [`decrypt_data`] answers: the key is looked at first, then the nonce
/// text, then the sealed text, then the tag.
pub open spec fn decrypted_data(encoded: Seq<char>, key: Seq<u8>, iv: Seq<char>) -> Result<
    Seq<u8>,
    CipherError,
> {
    if key.len() != KEY_LEN {
        Err(CipherError::Key { length: key.len() as usize })
    } else {
        match decoded_exact(iv, IV_LEN) {
            Err(e) => Err(CipherError::Decode(e)),
            Ok(nonce) => match base64_bytes(encoded) {
                None => Err(CipherError::Decode(DecodingError::Malformed)),
                Some(sealed) => match aes_gcm_opened(key, nonce, sealed) {
                    None => Err(CipherError::Authentication),
                    Some(plaintext) => Ok(plaintext),
                },
            },
        }
    }
}

/// Trusted: `aes_gcm::Error`, the cipher's one report of failure. It is
/// carried, never read.
#[verifier::external_type_specification]
#[verifier::external_body]
pub struct ExAeadError(aes_gcm::Error);

/// Trusted: `Aead::encrypt` of `aes_gcm::Aes256Gcm`, on a cipher made by
/// `KeyInit::new` from `key`, with no associated data.
///
/// Building the key and the nonce from slices panics on another length, and
/// the result cannot be allocated for a plaintext within 16 bytes of
/// `isize::MAX`: `requires` leaves these out. The cipher refuses a plaintext
/// of more than 2^36 bytes and no other. The result is named by
/// [`aes_gcm_sealed`]; beside the name the contract claims that it is 16
/// bytes longer than the plaintext, and that the cipher opens it, under the
/// same key and nonce, to the plaintext.
#[verifier::external_body]
fn aes_gcm_seal(key: &[u8], nonce: &[u8], plaintext: &[u8]) -> (outcome: Result<
    Vec<u8>,
    aes_gcm::Error,
>)
    requires
        key@.len() == KEY_LEN,
        nonce@.len() == IV_LEN,
        plaintext@.len() + TAG_LEN <= isize::MAX,
    ensures
        outcome is Ok <==> plaintext@.len() <= CIPHER_MAX_PLAINTEXT,
        outcome matches Ok(sealed) ==> {
            &&& sealed@ == aes_gcm_sealed(key@, nonce@, plaintext@)
            &&& sealed@.len() == plaintext@.len() + TAG_LEN
            &&& aes_gcm_opened(key@, nonce@, sealed@) == Some(plaintext@)
        },
{
    let cipher = Aes256Gcm::new(Key::<Aes256Gcm>::from_slice(key));
    cipher.encrypt(Nonce::from_slice(nonce), plaintext)
}

/// Trusted: `Aead::decrypt` of `aes_gcm::Aes256Gcm`, on a cipher made by
/// `KeyInit::new` from `key`, with no associated data.
///
/// Building the key and the nonce from slices panics on another length,
/// which `requires` leaves out. The outcome is named by [`aes_gcm_opened`];
/// beside the name the contract claims that what is opened is 16 bytes
/// shorter than what was sealed, so that nothing shorter than a tag opens.
#[verifier::external_body]
fn aes_gcm_open(key: &[u8], nonce: &[u8], sealed: &[u8]) -> (outcome: Result<
    Vec<u8>,
    aes_gcm::Error,
>)
    requires
        key@.len() == KEY_LEN,
        nonce@.len() == IV_LEN,
    ensures
        match outcome {
            Ok(plaintext) => {
                &&& aes_gcm_opened(key@, nonce@, sealed@) == Some(plaintext@)
                &&& sealed@.len() == plaintext@.len() + TAG_LEN
            },
            Err(_) => aes_gcm_opened(key@, nonce@, sealed@) is None,
        },
{
    let cipher = Aes256Gcm::new(Key::<Aes256Gcm>::from_slice(key));
    cipher.decrypt(Nonce::from_slice(nonce), sealed)
}

/// Every plaintext of up to 1 610 612 717 bytes can be sealed, whatever the
/// machine; none of more than 2^36 bytes can.
pub proof fn lemma_plaintext_limit_bounds()
    ensures
        1_610_612_717 <= plaintext_limit() <= CIPHER_MAX_PLAINTEXT,
{
}

/// Tells whether a plaintext of `length` bytes can be sealed and written out
/// as text on this machine.
fn fits_machine(length: usize) -> (fits: bool)
    ensures
        fits == (length <= machine_limit()),
{
    length <= (usize::MAX / 8) * 3 - TAG_LEN
}

/// Seals `data` under `key` and the nonce that `iv` encodes, and returns the
/// ciphertext and its tag as base64 text.
pub fn encrypt_data(data: &str, key: &[u8], iv: &str) -> (outcome: Result<String, CipherError>)
    ensures
        match outcome {
            Ok(text) => {
                &&& encrypted_data(data@, key@, iv@) == Ok::<Seq<char>, CipherError>(text@)
                &&& decrypted_data(text@, key@, iv@) == Ok::<Seq<u8>, CipherError>(
                    encode_utf8(data@),
                )
            },
            Err(e) => encrypted_data(data@, key@, iv@) == Err::<Seq<char>, CipherError>(e),
        },
{
    if key.len() != KEY_LEN {
        return Err(CipherError::Key { length: key.len() });
    }
    let nonce = match decode_exact(iv, IV_LEN) {
        Ok(nonce) => nonce,
        Err(e) => {
            return Err(CipherError::Decode(e));
        },
    };
    let plaintext = data.as_bytes();
    if !fits_machine(plaintext.len()) {
        return Err(CipherError::PlaintextTooLong { length: plaintext.len() });
    }
    match aes_gcm_seal(key, nonce.as_slice(), plaintext) {
        Ok(sealed) => Ok(encode(sealed.as_slice())),
        Err(_) => Err(CipherError::PlaintextTooLong { length: plaintext.len() }),
    }
}

/// Opens the base64 text `encoded` under `key` and the nonce that `iv`
/// encodes, and returns the plaintext's bytes.
pub fn decrypt_data(encoded: &str, key: &[u8], iv: &str) -> (outcome: Result<Vec<u8>, CipherError>)
    ensures
        match outcome {
            Ok(plaintext) => {
                &&& decrypted_data(encoded@, key@, iv@) == Ok::<Seq<u8>, CipherError>(plaintext@)
                &&& base64_bytes(encoded@) matches Some(sealed) && sealed.len() == plaintext@.len()
                    + TAG_LEN
            },
            Err(e) => decrypted_data(encoded@, key@, iv@) == Err::<Seq<u8>, CipherError>(e),
        },
{
    if key.len() != KEY_LEN {
        return Err(CipherError::Key { length: key.len() });
    }
    let nonce = match decode_exact(iv, IV_LEN) {
        Ok(nonce) => nonce,
        Err(e) => {
            return Err(CipherError::Decode(e));
        },
    };
    let sealed = match decode(encoded) {
        Ok(sealed) => sealed,
        Err(e) => {
            return Err(CipherError::Decode(e));
        },
    };
    match aes_gcm_open(key, nonce.as_slice(), sealed.as_slice()) {
        Ok(plaintext) => Ok(plaintext),
        Err(_) => Err(CipherError::Authentication),
    }
}

} // verus!
