//! Identity commitments: SHA-256 digests that stand for an identity in a
//! record without revealing it.

use vstd::prelude::*;
use sha2::Digest;
use vstd::string::StringSliceAdditionalSpecFns;

verus! {

/// The SHA-256 digest of a byte string.
pub uninterp spec fn sha256_of(data: Seq<u8>) -> Seq<u8>;

/// Relies on `sha2::Sha256::digest`: the digest of `data`, 32 bytes, which
/// depends on `data` alone.
#[verifier::external_body]
fn sha256(data: &[u8]) -> (r: [u8; 32])
    ensures
        r@ == sha256_of(data@),
{
    sha2::Sha256::digest(data).into()
}

/// The 32-byte commitment to an identity given as bytes.
pub fn hash_identity(value: &[u8]) -> (r: [u8; 32])
    ensures
        r@ == sha256_of(value@),
{
    sha256(value)
}

/// The 32-byte commitment to an identity given as text: the digest of its
/// UTF-8 bytes.
pub fn compute_org_hash(org_id: &str) -> (r: [u8; 32])
    ensures
        r@ == sha256_of(org_id.spec_bytes()),
{
    hash_identity(org_id.as_bytes())
}

/// A commitment is a function of the identity alone: equal identities give
/// equal commitments, in any call.
pub proof fn lemma_commitment_deterministic(a: Seq<u8>, b: Seq<u8>)
    requires
        a == b,
    ensures
        sha256_of(a) == sha256_of(b),
{
}

} // verus!
