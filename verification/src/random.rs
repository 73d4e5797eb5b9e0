//! The process-wide secure random generator and what is drawn from it.

use rand::rngs::ThreadRng;
use rand::Rng;
use vstd::prelude::*;
use vstd::string::*;

verus! {

/// Number of raw bytes of a salt.
pub const SALT_LEN: usize = 32;

/// Number of raw bytes of a nonce.
pub const IV_LEN: usize = 12;

/// The characters that a random string is drawn from: 26 lower-case letters,
/// 26 upper-case letters and 10 digits.
pub const ALPHABET: &'static str = "abcdefghijklmnopqrstuvwxyzABCDEFGHIJKLMNOPQRSTUVWXYZ0123456789";

/// Number of characters of [`ALPHABET`].
pub const ALPHABET_LEN: usize = 62;

/// Whether `c` is an ASCII letter or digit.
pub open spec fn is_alphanumeric(c: char) -> bool {
    ||| 'a' <= c <= 'z'
    ||| 'A' <= c <= 'Z'
    ||| '0' <= c <= '9'
}

/// Whether every character of `text` is an ASCII letter or digit.
pub open spec fn is_alphanumeric_text(text: Seq<char>) -> bool {
    forall|i: int| 0 <= i < text.len() ==> is_alphanumeric(#[trigger] text[i])
}

/// Trusted: `rand::rngs::ThreadRng`, the handle to the generator of this
/// thread. It is carried, never read.
#[verifier::external_type_specification]
#[verifier::external_body]
pub struct ExThreadRng(ThreadRng);

/// Trusted: `rand::thread_rng`, which hands out the generator of this
/// thread. Nothing is claimed of it. Where the system offers no randomness to
/// seed it, the call panics and the process cannot go on.
pub assume_specification[ rand::thread_rng ]() -> (rng: ThreadRng);

/// Trusted: `Rng::gen_range` on a half-open range of `usize` that starts at 0.
///
/// The call panics on an empty range, which `requires` leaves out. Of the
/// number drawn only its range is claimed.
#[verifier::external_body]
fn draw_index(rng: &mut ThreadRng, bound: usize) -> (index: usize)
    requires
        bound > 0,
    ensures
        index < bound,
{
    rng.gen_range(0..bound)
}

/// Trusted: `Rng::gen` for an array of 32 bytes. Nothing is claimed of the
/// bytes drawn.
#[verifier::external_body]
fn draw_salt(rng: &mut ThreadRng) -> (salt: [u8; 32]) {
    rng.gen()
}

/// Trusted: `Rng::gen` for an array of 12 bytes. Nothing is claimed of the
/// bytes drawn.
#[verifier::external_body]
fn draw_iv(rng: &mut ThreadRng) -> (iv: [u8; 12]) {
    rng.gen()
}

/// The alphabet holds 62 characters, each of them ASCII.
pub proof fn lemma_alphabet_shape()
    ensures
        ALPHABET@.len() == ALPHABET_LEN,
        is_ascii(ALPHABET),
        is_alphanumeric_text(ALPHABET@),
{
    reveal_strlit("abcdefghijklmnopqrstuvwxyzABCDEFGHIJKLMNOPQRSTUVWXYZ0123456789");
}

/// The alphabet is exactly the ASCII letters and digits.
pub proof fn lemma_alphabet_is_alphanumeric(c: char)
    ensures
        ALPHABET@.contains(c) <==> is_alphanumeric(c),
{
    reveal_strlit("abcdefghijklmnopqrstuvwxyzABCDEFGHIJKLMNOPQRSTUVWXYZ0123456789");
    lemma_alphabet_shape();
    if is_alphanumeric(c) {
        let k: int = if 'a' <= c <= 'z' {
            c as int - 'a' as int
        } else if 'A' <= c <= 'Z' {
            c as int - 'A' as int + 26
        } else {
            c as int - '0' as int + 52
        };
        assert(ALPHABET@[k] == c);
    }
}

/// The one-character text at position `index` of the alphabet.
pub fn alphabet_symbol(index: usize) -> (symbol: &'static str)
    requires
        index < ALPHABET_LEN,
    ensures
        symbol@ == seq![ALPHABET@[index as int]],
{
    proof {
        lemma_alphabet_shape();
    }
    let symbol = ALPHABET.substring_ascii(index, index + 1);
    proof {
        assert(symbol@ =~= seq![ALPHABET@[index as int]]);
    }
    symbol
}

/// Draws a fresh 32-byte salt.
pub fn generate_salt() -> (salt: [u8; 32])
    ensures
        salt@.len() == SALT_LEN,
{
    let mut rng = rand::thread_rng();
    draw_salt(&mut rng)
}

/// Draws a fresh 12-byte nonce.
pub fn generate_iv() -> (iv: [u8; 12])
    ensures
        iv@.len() == IV_LEN,
{
    let mut rng = rand::thread_rng();
    draw_iv(&mut rng)
}

/// Draws a text of `length` characters, each taken from [`ALPHABET`].
pub fn generate_random_string(length: usize) -> (text: String)
    ensures
        text@.len() == length,
        is_alphanumeric_text(text@),
        forall|i: int| 0 <= i < text@.len() ==> ALPHABET@.contains(#[trigger] text@[i]),
{
    let mut rng = rand::thread_rng();
    let mut text = String::new();
    let mut i: usize = 0;
    proof {
        lemma_alphabet_shape();
    }
    while i < length
        invariant
            i <= length,
            text@.len() == i,
            ALPHABET@.len() == ALPHABET_LEN,
            is_alphanumeric_text(ALPHABET@),
            is_alphanumeric_text(text@),
            forall|k: int| 0 <= k < text@.len() ==> ALPHABET@.contains(#[trigger] text@[k]),
        decreases length - i,
    {
        let index = draw_index(&mut rng, ALPHABET_LEN);
        let symbol = alphabet_symbol(index);
        let ghost before = text@;
        text.append(symbol);
        proof {
            assert(text@ =~= before.push(ALPHABET@[index as int]));
            assert(ALPHABET@.contains(ALPHABET@[index as int]));
        }
        i += 1;
    }
    text
}

} // verus!
