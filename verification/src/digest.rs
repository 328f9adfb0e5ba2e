//! SHA-256 digests, computed by the `sha2` crate.
use sha2::Digest;
use vstd::prelude::*;

verus! {

/// The SHA-256 digest of a byte sequence, as `sha2` computes it.
pub uninterp spec fn sha256_digest(data: Seq<u8>) -> Seq<u8>;

/// `sha2::Sha256::digest`: the contract claims that the 32 bytes returned are
/// the SHA-256 digest of exactly the bytes handed in (the output size of
/// `Sha256` is fixed at 32 bytes by the type).
#[verifier::external_body]
pub(crate) fn sha256(data: &[u8]) -> (digest: Vec<u8>)
    ensures
        digest@ == sha256_digest(data@),
        digest@.len() == 32,
{
    sha2::Sha256::digest(data).to_vec()
}

} // verus!
