//! The stored form of a password.

use crate::text::{hex_text, to_hex};
use vstd::prelude::*;

verus! {

/// The SHA3-256 digest of a sequence of bytes.
pub uninterp spec fn sha3_256_digest(data: Seq<u8>) -> Seq<u8>;

/// Digests `data`.
///
/// Trusted: wraps `sha3::Sha3_256::digest`, which hashes the bytes it is
/// given and returns the 32 bytes of the digest.
#[verifier::external_body]
fn sha3_256(data: &[u8]) -> (r: Vec<u8>)
    ensures
        r@ == sha3_256_digest(data@),
        r@.len() == 32,
{
    <sha3::Sha3_256 as sha3::Digest>::digest(data).to_vec()
}

/// The text that stands for a password: the digest of its UTF-8 bytes in
/// lower-case hexadecimal.
pub open spec fn password_hash_text(password: Seq<char>) -> Seq<char> {
    hex_text(sha3_256_digest(vstd::utf8::encode_utf8(password)))
}

/// A one-way hash of a password, as 64 hexadecimal digits.
#[derive(Debug, Clone, PartialEq, Eq)]
pub struct PasswordHash {
    value: String,
}

impl View for PasswordHash {
    type V = Seq<char>;

    closed spec fn view(&self) -> Seq<char> {
        self.value@
    }
}

impl PasswordHash {
    /// The hash of `password`.
    pub fn new_from_password(password: &str) -> (r: PasswordHash)
        ensures
            r@ == password_hash_text(password@),
            r@.len() == 64,
    {
        let digest = sha3_256(password.as_bytes());
        PasswordHash { value: to_hex(digest.as_slice()) }
    }

    /// The hash as text.
    pub fn as_ref(&self) -> (r: &str)
        ensures
            r@ == self@,
    {
        self.value.as_str()
    }
}

} // verus!
