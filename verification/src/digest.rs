//! The digest that the oracle signs in place of a message.

use vstd::prelude::*;
use sha2::Digest;

verus! {

/// The SHA-256 digest of a byte string.
pub uninterp spec fn sha256(message: Seq<u8>) -> Seq<u8>;

/// The length of a digest in bytes.
pub const DIGEST_LENGTH: usize = 32;

/// `sha2::Sha256::digest`: the SHA-256 digest of the bytes, always 32 bytes long.
#[verifier::external_body]
fn sha256_digest(message: &[u8]) -> (r: Vec<u8>)
    ensures
        r@ == sha256(message@),
        r@.len() == DIGEST_LENGTH,
{
    sha2::Sha256::digest(message).to_vec()
}

/// The digest of a message text: the SHA-256 digest of its UTF-8 bytes.
pub fn message_digest(message: &str) -> (r: Vec<u8>)
    ensures
        r@ == sha256(vstd::utf8::encode_utf8(message@)),
        r@.len() == DIGEST_LENGTH,
{
    sha256_digest(message.as_bytes())
}

} // verus!
