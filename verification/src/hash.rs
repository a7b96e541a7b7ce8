//! SHA-256, the hash that both the commitment and the roll are taken over.

use sha2::Digest;
use vstd::prelude::*;

verus! {

/// The SHA-256 digest (FIPS 180-4) of `input`.
pub uninterp spec fn sha256_digest(input: Seq<u8>) -> Seq<u8>;

/// Calls `sha2::Sha256::digest` on `input` and returns the 32-byte digest.
/// Trusted: the digest is `sha256_digest` of the input bytes, a function of
/// those bytes alone; nothing more is claimed of it.
#[verifier::external_body]
pub(crate) fn sha256(input: &[u8]) -> (h: [u8; 32])
    ensures
        h@ == sha256_digest(input@),
{
    sha2::Sha256::digest(input).into()
}

} // verus!
