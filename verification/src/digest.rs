//! SHA-256 in its two uses: deriving the sealing key and hashing a password.

use sha2::Digest;
use sha2::Sha256;
use vstd::prelude::*;
use vstd::utf8::*;

use crate::encoding::{base64_bytes, base64_text, encode};

verus! {

/// Number of bytes of a SHA-256 digest, and so of a derived key.
pub const DIGEST_LEN: usize = 32;

/// Number of characters of an encoded password hash.
pub const HASH_TEXT_LEN: usize = 44;

/// The SHA-256 digest of `data`.
pub uninterp spec fn sha256_digest(data: Seq<u8>) -> Seq<u8>;

/// The key that seals an envelope: the digest of the password's UTF-8 bytes
/// followed by the raw salt.
pub open spec fn derived_key(password: Seq<char>, salt: Seq<u8>) -> Seq<u8> {
    sha256_digest(encode_utf8(password) + salt)
}

/// The verification hash of a password: the base64 text of the digest of its
/// UTF-8 bytes.
pub open spec fn password_hash(password: Seq<char>) -> Seq<char> {
    base64_text(sha256_digest(encode_utf8(password)))
}

/// Whether `hash` is the text that [`hash_password`] gives for `password`.
pub open spec fn password_verifies(password: Seq<char>, hash: Seq<char>) -> bool {
    hash == password_hash(password)
}

/// Trusted: `Digest::digest` of `sha2::Sha256`.
///
/// The result is named by [`sha256_digest`]; the contract adds only that a
/// SHA-256 digest is 32 bytes long.
#[verifier::external_body]
fn sha256(data: &[u8]) -> (digest: Vec<u8>)
    ensures
        digest@ == sha256_digest(data@),
        digest@.len() == DIGEST_LEN,
{
    Sha256::digest(data).to_vec()
}

/// Joins two byte strings into one.
pub fn join_bytes(head: &[u8], tail: &[u8]) -> (joined: Vec<u8>)
    ensures
        joined@ == head@ + tail@,
{
    let mut joined: Vec<u8> = Vec::new();
    let mut i: usize = 0;
    while i < head.len()
        invariant
            i <= head@.len(),
            joined@ == head@.subrange(0, i as int),
        decreases head@.len() - i,
    {
        joined.push(head[i]);
        proof {
            assert(joined@ =~= head@.subrange(0, i + 1));
        }
        i += 1;
    }
    proof {
        assert(joined@ =~= head@);
    }
    let mut j: usize = 0;
    while j < tail.len()
        invariant
            j <= tail@.len(),
            joined@ == head@ + tail@.subrange(0, j as int),
        decreases tail@.len() - j,
    {
        joined.push(tail[j]);
        proof {
            assert(joined@ =~= head@ + tail@.subrange(0, j + 1));
        }
        j += 1;
    }
    proof {
        assert(joined@ =~= head@ + tail@);
    }
    joined
}

/// Compares two byte strings in one pass that reads every byte, wherever the
/// first difference lies.
pub fn same_bytes(left: &[u8], right: &[u8]) -> (same: bool)
    ensures
        same == (left@ == right@),
{
    if left.len() != right.len() {
        return false;
    }
    let mut diff: u8 = 0;
    let mut i: usize = 0;
    proof {
        assert(left@.subrange(0, 0) =~= right@.subrange(0, 0));
    }
    while i < left.len()
        invariant
            i <= left@.len(),
            left@.len() == right@.len(),
            diff == 0 <==> left@.subrange(0, i as int) == right@.subrange(0, i as int),
        decreases left@.len() - i,
    {
        let x: u8 = left[i];
        let y: u8 = right[i];
        let ghost before: u8 = diff;
        diff = diff | (x ^ y);
        proof {
            assert((before | (x ^ y)) == 0 <==> (before == 0 && x == y)) by (bit_vector);
            let l0 = left@.subrange(0, i as int);
            let r0 = right@.subrange(0, i as int);
            let l1 = left@.subrange(0, i + 1);
            let r1 = right@.subrange(0, i + 1);
            assert(l1 =~= l0.push(x));
            assert(r1 =~= r0.push(y));
            if l1 == r1 {
                assert(l1[i as int] == r1[i as int]);
                assert(l0 =~= l1.subrange(0, i as int));
                assert(r0 =~= r1.subrange(0, i as int));
            }
        }
        i += 1;
    }
    proof {
        assert(left@.subrange(0, i as int) =~= left@);
        assert(right@.subrange(0, i as int) =~= right@);
    }
    diff == 0
}

/// Derives the 32-byte sealing key from a password and a raw salt.
///
/// The key is a single digest, with no iteration and no memory cost: it is
/// only as strong as the password.
pub fn derive_key(password: &str, salt: &[u8]) -> (key: Vec<u8>)
    ensures
        key@ == derived_key(password@, salt@),
        key@.len() == DIGEST_LEN,
{
    let material = join_bytes(password.as_bytes(), salt);
    sha256(material.as_slice())
}

/// Hashes a password for verification on a server.
pub fn hash_password(password: &str) -> (hash: String)
    ensures
        hash@ == password_hash(password@),
        hash@.len() == HASH_TEXT_LEN,
        base64_bytes(hash@) == Some(sha256_digest(encode_utf8(password@))),
        sha256_digest(encode_utf8(password@)).len() == DIGEST_LEN,
{
    let digest = sha256(password.as_bytes());
    encode(digest.as_slice())
}

/// Tells whether `hash` is the verification hash of `password`.
///
/// Any other text, malformed base64 included, is answered with `false`.
pub fn verify_password(password: &str, hash: &str) -> (matches: bool)
    ensures
        matches == password_verifies(password@, hash@),
{
    let computed = hash_password(password);
    proof {
        encode_utf8_decode_utf8(computed@);
        encode_utf8_decode_utf8(hash@);
    }
    same_bytes(computed.as_str().as_bytes(), hash.as_bytes())
}

/// Every password is verified against its own hash.
pub proof fn lemma_own_hash_verifies(password: Seq<char>)
    ensures
        password_verifies(password, password_hash(password)),
{
}

} // verus!
