//! Content digests of the files that a backup records.

use vstd::prelude::*;

verus! {

/// The SHA-256 digest of the bytes as lower-case hexadecimal, as
/// `format!("{:x}", sha2::Sha256::digest(bytes))` writes it.
pub uninterp spec fn sha256_hex(bytes: Seq<u8>) -> Seq<char>;

/// `sha2::Sha256::digest(bytes)` formatted with `{:x}`. The contract claims
/// that the text is the named function of the bytes.
#[verifier::external_body]
fn sha256_hex_of(bytes: &[u8]) -> (out: String)
    ensures
        out@ == sha256_hex(bytes@),
{
    format!("{:x}", <sha2::Sha256 as sha2::Digest>::digest(bytes))
}

/// The digest that a backup manifest records for a file's content.
pub fn content_digest(bytes: &Vec<u8>) -> (out: String)
    ensures
        out@ == sha256_hex(bytes@),
{
    sha256_hex_of(bytes.as_slice())
}

} // verus!
