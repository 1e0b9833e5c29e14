//! The digests that the signature schemes are built on. Each is computed by
//! an outside crate; the library names its result and relies on its length.

use vstd::prelude::*;
use sha2::Digest;

verus! {

/// SHA-256 of `b`.
pub uninterp spec fn sha256_of(b: Seq<u8>) -> Seq<u8>;

/// SHA-256 applied twice to `b`.
pub uninterp spec fn sha256d_of(b: Seq<u8>) -> Seq<u8>;

/// RIPEMD-160 of `b`.
pub uninterp spec fn ripemd160_of(b: Seq<u8>) -> Seq<u8>;

/// Keccak-256 of `b`.
pub uninterp spec fn keccak256_of(b: Seq<u8>) -> Seq<u8>;

/// The CKB hash of `b`: 32-byte BLAKE2b personalised with `ckb-default-hash`.
pub uninterp spec fn ckb_hash_of(b: Seq<u8>) -> Seq<u8>;

/// Relies on sha2's `Sha256::digest`: a 32-byte digest.
#[verifier::external_body]
pub(crate) fn sha256(b: &[u8]) -> (r: Vec<u8>)
    ensures
        r@ == sha256_of(b@),
        r@.len() == 32,
{
    sha2::Sha256::digest(b).to_vec()
}

/// Relies on bitcoin's `sha256d::Hash::hash`: a 32-byte digest.
#[verifier::external_body]
pub(crate) fn sha256d(b: &[u8]) -> (r: Vec<u8>)
    ensures
        r@ == sha256d_of(b@),
        r@.len() == 32,
{
    bitcoin::hashes::Hash::to_byte_array(<bitcoin::hashes::sha256d::Hash as bitcoin::hashes::Hash>::hash(b)).to_vec()
}

/// Relies on bitcoin's `ripemd160::Hash::hash`: a 20-byte digest.
#[verifier::external_body]
pub(crate) fn ripemd160(b: &[u8]) -> (r: Vec<u8>)
    ensures
        r@ == ripemd160_of(b@),
        r@.len() == 20,
{
    bitcoin::hashes::Hash::to_byte_array(<bitcoin::hashes::ripemd160::Hash as bitcoin::hashes::Hash>::hash(b)).to_vec()
}

/// Relies on ethers-core's `utils::keccak256`: a 32-byte digest.
#[verifier::external_body]
pub(crate) fn keccak256(b: &[u8]) -> (r: Vec<u8>)
    ensures
        r@ == keccak256_of(b@),
        r@.len() == 32,
{
    ethers_core::utils::keccak256(b).to_vec()
}

/// Relies on ckb-hash's `blake2b_256`, the chain's personalised hash: a
/// 32-byte digest.
#[verifier::external_body]
pub(crate) fn hash_ckb(b: &[u8]) -> (r: Vec<u8>)
    ensures
        r@ == ckb_hash_of(b@),
        r@.len() == 32,
{
    ckb_hash::blake2b_256(b).to_vec()
}

/// The public-key hash of Bitcoin-style addresses: RIPEMD-160 of SHA-256.
pub open spec fn hash160_of(b: Seq<u8>) -> Seq<u8> {
    ripemd160_of(sha256_of(b))
}

/// RIPEMD-160 of the SHA-256 of `b`.
pub fn hash160(b: &[u8]) -> (r: Vec<u8>)
    ensures
        r@ == hash160_of(b@),
        r@.len() == 20,
{
    let inner = sha256(b);
    ripemd160(inner.as_slice())
}

} // verus!
