//! Standard base64 text for raw bytes.

use base64::engine::general_purpose::STANDARD;
use base64::Engine;
use vstd::prelude::*;

use crate::error::DecodingError;

verus! {

/// The text that the standard base64 engine (RFC 4648 alphabet, with padding)
/// writes for `bytes`.
pub uninterp spec fn base64_text(bytes: Seq<u8>) -> Seq<char>;

/// The bytes that the standard base64 engine reads from `text`, or `None`
/// where it refuses the text.
pub uninterp spec fn base64_bytes(text: Seq<char>) -> Option<Seq<u8>>;

/// Number of characters of the padded base64 text for `n` bytes.
pub open spec fn encoded_len(n: nat) -> nat {
    4 * ((n + 2) / 3)
}

/// Whether the base64 text for `n` bytes fits in one allocation.
pub open spec fn encodable(n: nat) -> bool {
    encoded_len(n) <= isize::MAX
}

/// What [`decode_exact`] answers for `text` where `expected` bytes are wanted.
pub open spec fn decoded_exact(text: Seq<char>, expected: usize) -> Result<Seq<u8>, DecodingError> {
    match base64_bytes(text) {
        None => Err(DecodingError::Malformed),
        Some(bytes) => if bytes.len() == expected {
            Ok(bytes)
        } else {
            Err(DecodingError::WrongLength { expected, actual: bytes.len() as usize })
        },
    }
}

/// Trusted: `base64::DecodeError`, the engine's report of a text it refuses.
/// It is carried, never read.
#[verifier::external_type_specification]
#[verifier::external_body]
pub struct ExBase64DecodeError(base64::DecodeError);

/// Trusted: `Engine::encode` of `base64::engine::general_purpose::STANDARD`.
///
/// The result is named by [`base64_text`]. Beside the name the contract
/// claims the padded length, four characters for every started group of
/// three bytes, and that the engine reads its own output back to the bytes
/// it was given. The engine panics where that length cannot be allocated,
/// which `requires` leaves out.
#[verifier::external_body]
fn standard_encode(bytes: &[u8]) -> (text: String)
    requires
        encodable(bytes@.len()),
    ensures
        text@ == base64_text(bytes@),
        text@.len() == encoded_len(bytes@.len()),
        base64_bytes(text@) == Some(bytes@),
{
    STANDARD.encode(bytes)
}

/// Trusted: `Engine::decode` of `base64::engine::general_purpose::STANDARD`.
///
/// The outcome is named by [`base64_bytes`]: the decoded bytes where the
/// engine accepts the text, `None` where it reports an error.
#[verifier::external_body]
fn standard_decode(text: &str) -> (outcome: Result<Vec<u8>, base64::DecodeError>)
    ensures
        match outcome {
            Ok(bytes) => base64_bytes(text@) == Some(bytes@),
            Err(_) => base64_bytes(text@) is None,
        },
{
    STANDARD.decode(text)
}

/// Writes `bytes` as padded standard base64.
pub fn encode(bytes: &[u8]) -> (text: String)
    requires
        encodable(bytes@.len()),
    ensures
        text@ == base64_text(bytes@),
        text@.len() == encoded_len(bytes@.len()),
        base64_bytes(text@) == Some(bytes@),
{
    standard_encode(bytes)
}

/// Reads padded standard base64 back into bytes.
pub fn decode(text: &str) -> (outcome: Result<Vec<u8>, DecodingError>)
    ensures
        match outcome {
            Ok(bytes) => base64_bytes(text@) == Some(bytes@),
            Err(e) => base64_bytes(text@) is None && e == DecodingError::Malformed,
        },
{
    match standard_decode(text) {
        Ok(bytes) => Ok(bytes),
        Err(_) => Err(DecodingError::Malformed),
    }
}

/// Reads padded standard base64 that must stand for exactly `expected` bytes.
pub fn decode_exact(text: &str, expected: usize) -> (outcome: Result<Vec<u8>, DecodingError>)
    ensures
        match outcome {
            Ok(bytes) => decoded_exact(text@, expected) == Ok::<Seq<u8>, DecodingError>(bytes@),
            Err(e) => decoded_exact(text@, expected) == Err::<Seq<u8>, DecodingError>(e),
        },
{
    match decode(text) {
        Ok(bytes) => {
            if bytes.len() == expected {
                Ok(bytes)
            } else {
                Err(DecodingError::WrongLength { expected, actual: bytes.len() })
            }
        },
        Err(e) => Err(e),
    }
}

} // verus!
