//! The cryptographic hash primitive behind pool identifiers and signing
//! payloads.
use vstd::prelude::*;

verus! {

/// The SHA-256 digest of a byte sequence. The digest is a pure function
/// of the input bytes alone; its value is not otherwise specified here.
pub uninterp spec fn sha256_of(data: Seq<u8>) -> Seq<u8>;

/// Relies on sha2's `Sha256::digest`: a deterministic 32-byte digest of
/// exactly the input bytes.
#[verifier::external_body]
pub fn hash(data: &[u8]) -> (r: Vec<u8>)
    ensures
        r@ == sha256_of(data@),
        r@.len() == 32,
{
    let digest = <sha2::Sha256 as sha2::Digest>::digest(data);
    digest.to_vec()
}

} // verus!
