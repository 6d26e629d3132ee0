use sha2::Digest;
use vstd::prelude::*;

use crate::encoding::hex_lower;

verus! {

/// The SHA-256 digest of a byte sequence, as the `sha2` crate computes it.
pub uninterp spec fn sha256(data: Seq<u8>) -> Seq<u8>;

/// Calls `<sha2::Sha256 as Digest>::digest` on `data`. Trusted to return the
/// SHA-256 digest of exactly the given bytes, which the crate's output type fixes
/// at 32 bytes. What those bytes are is only named, not stated.
#[verifier::external_body]
pub(crate) fn sha256_digest(data: &[u8]) -> (digest: Vec<u8>)
    ensures
        digest@ == sha256(data@),
        digest@.len() == 32,
{
    sha2::Sha256::digest(data).to_vec()
}

/// Calls `hex::encode` on `data`. Trusted to return the lowercase hexadecimal
/// text of the bytes, two digits per byte with the high nibble first, which is
/// what the crate documents and what its `HEX_CHARS_LOWER` table produces.
#[verifier::external_body]
pub(crate) fn hex_encode(data: &[u8]) -> (text: String)
    ensures
        text@ == hex_lower(data@),
{
    hex::encode(data)
}

} // verus!
