//! The closed set of failures that the library reports.

use vstd::prelude::*;

verus! {

/// A text field could not be turned back into the raw bytes it stands for.
#[derive(Clone, Copy, Debug, PartialEq, Eq, Structural)]
pub enum DecodingError {
    /// The text is not padded standard base64.
    Malformed,
    /// The text decodes, but not to the number of bytes the field must hold.
    WrongLength { expected: usize, actual: usize },
}

/// A single sealing or opening step failed.
#[derive(Clone, Copy, Debug, PartialEq, Eq, Structural)]
pub enum CipherError {
    /// The key is not 32 bytes long.
    Key { length: usize },
    /// A base64 argument could not be decoded.
    Decode(DecodingError),
    /// The authentication tag does not verify, or the sealed bytes are too
    /// short to hold one.
    Authentication,
    /// The plaintext is longer than the cipher and the machine can take.
    PlaintextTooLong { length: usize },
}

/// The credential that an envelope field protects.
#[derive(Clone, Copy, Debug, PartialEq, Eq, Structural)]
pub enum Field {
    Username,
    Password,
}

/// Sealing a pair of credentials failed at `field` for the reason `cause`.
#[derive(Clone, Copy, Debug, PartialEq, Eq, Structural)]
pub struct EncryptError {
    pub field: Field,
    pub cause: CipherError,
}

} // verus!
