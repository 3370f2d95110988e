use vstd::prelude::*;
use sha2::Digest;

verus! {

/// The SHA-256 digest of a byte sequence; a function of its argument alone.
pub uninterp spec fn sha256_of(data: Seq<u8>) -> Seq<u8>;

/// One round of SHA-256 applied to its own output.
pub open spec fn hash2_of(data: Seq<u8>) -> Seq<u8> {
    sha256_of(sha256_of(data))
}

/// Relies on sha2::Sha256::digest: the SHA-256 digest, 32 bytes, a function
/// of the input bytes alone.
#[verifier::external_body]
fn sha256(data: &[u8]) -> (r: Vec<u8>)
    ensures
        r@ == sha256_of(data@),
        r@.len() == 32,
{
    sha2::Sha256::digest(data).to_vec()
}

/// SHA-256 applied twice, Bitcoin's node-hashing primitive.
pub fn double_sha256(data: &[u8]) -> (r: Vec<u8>)
    ensures
        r@ == hash2_of(data@),
        r@.len() == 32,
{
    let first = sha256(data);
    sha256(first.as_slice())
}

} // verus!
