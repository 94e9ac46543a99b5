//! The credential hasher: a secret goes in, a salted digest of fixed cost
//! comes out, and only the digest, encoded as printable text, is ever stored.

use vstd::prelude::*;

use crate::text::bytes_of;

verus! {

/// The salt that every digest is computed with.
pub const SALT: [u8; 16] = [
    0x3b, 0x62, 0x16, 0x1d, 0xfe, 0xb5, 0xab, 0x0e, 0x04, 0x5e, 0x01, 0x96, 0xaf, 0x49, 0x6b, 0x7a,
];

/// The work factor: the key schedule is run 2^COST times.
pub const COST: u32 = 12;

/// The number of bytes that the hasher takes at most.
pub const HASHABLE_MAX: usize = 72;

/// The number of bytes in a raw digest.
pub const DIGEST_LEN: usize = 24;

/// The number of characters in an encoded digest.
pub const DIGEST_TEXT_LEN: usize = 32;

/// What `bcrypt::bcrypt` computes from a work factor, a salt and a password.
pub uninterp spec fn bcrypt_digest(cost: u32, salt: Seq<u8>, password: Seq<u8>) -> Seq<u8>;

/// What `base64::encode` makes of a byte string.
pub uninterp spec fn base64_text(bytes: Seq<u8>) -> Seq<char>;

/// The length of the standard padded base64 encoding of `n` bytes.
pub open spec fn base64_len(n: nat) -> nat {
    4 * ((n + 2) / 3)
}

/// `bcrypt::bcrypt` panics on a work factor of 32 or more, on an empty
/// password and on one longer than 72 bytes. On all other inputs it returns
/// 24 bytes that depend on the three arguments alone.
pub assume_specification[ bcrypt::bcrypt ](cost: u32, salt: [u8; 16], password: &[u8]) -> (out:
    [u8; 24])
    requires
        cost < 32,
        0 < password@.len() <= 72,
    ensures
        out@ == bcrypt_digest(cost, salt@, password@),
;

/// `base64::encode` with the standard alphabet and padding. It panics only
/// where the length of the output would not fit in `usize`. The output
/// depends on the input alone and has four characters for every three bytes
/// of input, the last group filled up.
#[verifier::external_body]
pub(crate) fn base64_encode(bytes: &[u8]) -> (text: String)
    requires
        base64_len(bytes@.len()) <= usize::MAX,
    ensures
        text@ == base64_text(bytes@),
        text@.len() == base64_len(bytes@.len()),
{
    base64::encode(bytes)
}

/// A secret that the hasher accepts: between 1 and 72 bytes.
pub open spec fn hashable(secret: Seq<u8>) -> bool {
    0 < secret.len() <= HASHABLE_MAX
}

/// The raw digest of a secret under the fixed salt and work factor.
pub open spec fn raw_digest(secret: Seq<u8>) -> Seq<u8> {
    bcrypt_digest(COST, SALT@, secret)
}

/// The digest of a secret in the form in which it is stored.
pub open spec fn stored_digest(secret: Seq<u8>) -> Seq<char> {
    base64_text(raw_digest(secret))
}

/// Hashes a secret with the fixed salt and work factor.
pub fn hash(secret: &[u8]) -> (digest: [u8; 24])
    requires
        hashable(secret@),
    ensures
        digest@ == raw_digest(secret@),
        digest@.len() == DIGEST_LEN,
{
    bcrypt::bcrypt(COST, SALT, secret)
}

/// Hashes a secret text and encodes the digest for storage. The result has 32
/// characters, so it differs from every secret of another length.
pub fn digest(secret: &str) -> (text: String)
    requires
        hashable(bytes_of(secret@)),
    ensures
        text@ == stored_digest(bytes_of(secret@)),
        text@.len() == DIGEST_TEXT_LEN,
        secret@.len() != DIGEST_TEXT_LEN ==> text@ != secret@,
{
    let raw = hash(secret.as_bytes());
    base64_encode(raw.as_slice())
}

} // verus!
