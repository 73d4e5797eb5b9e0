//! Client-side protection of login credentials.
//!
//! A username and a password are sealed with AES-256-GCM under a key derived
//! from the password and a fresh salt, and handed out as an envelope of four
//! base64 text fields. A one-way password hash is offered beside it for
//! verification on a server.

pub mod cipher;
pub mod credentials;
pub mod digest;
pub mod encoding;
pub mod envelope;
pub mod error;
pub mod random;

pub use cipher::{decrypt_data, encrypt_data};
pub use credentials::{encrypt_credentials, seal_credentials};
pub use digest::{derive_key, hash_password, verify_password};
pub use encoding::{decode, decode_exact, encode};
pub use envelope::{EncryptedData, LoginCredentials};
pub use error::{CipherError, DecodingError, EncryptError, Field};
pub use random::{generate_iv, generate_random_string, generate_salt};
