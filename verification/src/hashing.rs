//! The hasher: SHA-256 over a byte sequence, rendered as a lowercase
//! hexadecimal string.

use sha2::{Digest, Sha256};
use vstd::prelude::*;

verus! {

/// The character for a single hexadecimal digit, lowercase.
pub open spec fn hex_digit(d: nat) -> char
    recommends
        d < 16,
{
    seq!['0', '1', '2', '3', '4', '5', '6', '7', '8', '9', 'a', 'b', 'c', 'd', 'e', 'f'][d as int]
}

/// Lowercase hexadecimal encoding of a byte sequence: each byte becomes two
/// digits, high nibble first.
pub open spec fn hex_lower(bytes: Seq<u8>) -> Seq<char>
    decreases bytes.len(),
{
    if bytes.len() == 0 {
        Seq::<char>::empty()
    } else {
        seq![
            hex_digit((bytes.first() >> 4) as nat),
            hex_digit((bytes.first() & 0x0f) as nat),
        ] + hex_lower(bytes.drop_first())
    }
}

/// A hex encoding is exactly twice as long as its input.
pub proof fn lemma_hex_lower_len(bytes: Seq<u8>)
    ensures
        hex_lower(bytes).len() == 2 * bytes.len(),
    decreases bytes.len(),
{
    if bytes.len() > 0 {
        lemma_hex_lower_len(bytes.drop_first());
    }
}

/// The SHA-256 digest of a byte sequence. The algorithm itself is not modelled
/// here; all that is relied on is that the digest is a function of the input
/// bytes alone.
pub uninterp spec fn sha256_of(bytes: Seq<u8>) -> Seq<u8>;

/// Relies on sha2's `Sha256` (through the `Digest` trait): the digest depends
/// on the input bytes alone and is 32 bytes long.
#[verifier::external_body]
fn sha256_digest(data: &[u8]) -> (r: Vec<u8>)
    ensures
        r@ == sha256_of(data@),
        r@.len() == 32,
{
    Sha256::digest(data).to_vec()
}

/// Relies on `hex::encode`: each byte becomes two lowercase hexadecimal
/// digits, high nibble first.
#[verifier::external_body]
fn hex_encode(data: &[u8]) -> (r: String)
    ensures
        r@ == hex_lower(data@),
{
    hex::encode(data)
}

/// The digest of a string: SHA-256 over its UTF-8 bytes, as lowercase hex.
pub open spec fn sha256_hex(s: Seq<char>) -> Seq<char> {
    hex_lower(sha256_of(vstd::utf8::encode_utf8(s)))
}

/// Hashes `data` with SHA-256 and renders the digest as a 64-character
/// lowercase hexadecimal string.
pub fn real_hash(data: &str) -> (r: String)
    ensures
        r@ == sha256_hex(data@),
        r@.len() == 64,
{
    let digest = sha256_digest(data.as_bytes());
    let r = hex_encode(digest.as_slice());
    proof {
        lemma_hex_lower_len(digest@);
    }
    r
}

} // verus!
