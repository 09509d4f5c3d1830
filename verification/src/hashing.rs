//! Digests and identifiers that outside crates compute.

use vstd::prelude::*;

use crate::text;

verus! {

/// The BLAKE3 digest of `input`, in lowercase hexadecimal.
pub uninterp spec fn blake3_hex(input: Seq<u8>) -> Seq<char>;

/// The SHA-256 digest of `input`, in lowercase hexadecimal.
pub uninterp spec fn sha256_hex(input: Seq<u8>) -> Seq<char>;

/// Calls `blake3::Hasher` (`new`, one `update`, `finalize`) and `Hash::to_hex`.
/// The digest depends on the input alone, and its text is 64 lowercase
/// hexadecimal digits.
#[verifier::external_body]
pub(crate) fn blake3_digest(input: &[u8]) -> (out: String)
    ensures
        out@ == blake3_hex(input@),
        out@.len() == 64,
        text::is_lower_hex(out@),
{
    let mut hasher = blake3::Hasher::new();
    hasher.update(input);
    hasher.finalize().to_hex().to_string()
}

/// Calls `sha2::Sha256` through `Digest::digest` and writes the digest with its
/// `LowerHex`. The digest depends on the input alone, and its text is 64
/// lowercase hexadecimal digits.
#[verifier::external_body]
pub(crate) fn sha256_digest(input: &[u8]) -> (out: String)
    ensures
        out@ == sha256_hex(input@),
        out@.len() == 64,
        text::is_lower_hex(out@),
{
    format!("{:x}", <sha2::Sha256 as sha2::Digest>::digest(input))
}

/// Calls `uuid::Uuid::new_v4` and writes the identifier in its simple form: 32
/// lowercase hexadecimal digits, of which the thirteenth is the version, 4. The
/// other digits but one are random, so nothing more is said of them.
#[verifier::external_body]
pub(crate) fn fresh_id() -> (out: String)
    ensures
        out@.len() == 32,
        text::is_lower_hex(out@),
        out@[12] == '4',
{
    uuid::Uuid::new_v4().simple().to_string()
}

} // verus!
