//! Elliptic-curve and RSA primitives: public-key recovery on secp256k1 and
//! plain verification for P-256 (ES256) and RSA PKCS#1 v1.5 (RS256).

use vstd::prelude::*;

verus! {

/// The uncompressed (65-byte, `0x04`-led) secp256k1 public key recovered
/// from a 32-byte digest, a 64-byte compact `r ‖ s` signature and a
/// recovery id, if recovery succeeds.
pub uninterp spec fn secp256k1_recovered(digest: Seq<u8>, compact: Seq<u8>, recid: u8) -> Option<Seq<u8>>;

/// Whether the DER-encoded P-256 signature `der` is valid for `message`
/// (hashed with SHA-256) under the SEC1-encoded public key `key`.
pub uninterp spec fn es256_valid(key: Seq<u8>, message: Seq<u8>, der: Seq<u8>) -> bool;

/// Whether `signature` is a valid RSASSA-PKCS1-v1_5 / SHA-256 signature of
/// `message` under the key with big-endian `modulus` and `exponent`.
pub uninterp spec fn rs256_valid(modulus: Seq<u8>, exponent: Seq<u8>, message: Seq<u8>, signature: Seq<u8>) -> bool;

/// Relies on secp256k1's `RecoveryId::try_from`, `RecoverableSignature::from_compact`,
/// `Message::from_digest_slice` and `Secp256k1::recover_ecdsa`, whose errors
/// (recovery id above 3, signature not 64 bytes, digest not 32 bytes, failed
/// recovery) become `None`; a recovered key is serialised uncompressed.
#[verifier::external_body]
pub(crate) fn secp256k1_recover(digest: &[u8], compact: &[u8], recid: u8) -> (r: Option<Vec<u8>>)
    ensures
        r matches Some(k) ==> secp256k1_recovered(digest@, compact@, recid) == Some(k@),
        r is None ==> secp256k1_recovered(digest@, compact@, recid) is None,
        r matches Some(k) ==> k@.len() == 65 && k@[0] == 4,
        recid > 3 || compact@.len() != 64 || digest@.len() != 32 ==> r is None,
{
    let id = secp256k1::ecdsa::RecoveryId::try_from(recid as i32).ok()?;
    let sig = secp256k1::ecdsa::RecoverableSignature::from_compact(compact, id).ok()?;
    let msg = secp256k1::Message::from_digest_slice(digest).ok()?;
    let key = secp256k1::Secp256k1::verification_only().recover_ecdsa(&msg, &sig).ok()?;
    Some(key.serialize_uncompressed().to_vec())
}

/// Relies on p256's `VerifyingKey::from_sec1_bytes`, `Signature::from_der`
/// and `Verifier::verify`; a key or signature that does not parse fails.
#[verifier::external_body]
pub(crate) fn es256_verify(key: &[u8], message: &[u8], der: &[u8]) -> (r: bool)
    ensures
        r == es256_valid(key@, message@, der@),
{
    match (p256::ecdsa::VerifyingKey::from_sec1_bytes(key), p256::ecdsa::Signature::from_der(der)) {
        (Ok(k), Ok(s)) => p256::ecdsa::signature::Verifier::verify(&k, message, &s).is_ok(),
        _ => false,
    }
}

/// Relies on rsa's `RsaPublicKey::new` over `BigUint::from_bytes_be`,
/// `pkcs1v15::Signature::try_from` and `pkcs1v15::VerifyingKey::<Sha256>::verify`;
/// a key or signature that is refused fails.
#[verifier::external_body]
pub(crate) fn rs256_verify(modulus: &[u8], exponent: &[u8], message: &[u8], signature: &[u8]) -> (r: bool)
    ensures
        r == rs256_valid(modulus@, exponent@, message@, signature@),
{
    let key = rsa::RsaPublicKey::new(rsa::BigUint::from_bytes_be(modulus), rsa::BigUint::from_bytes_be(exponent));
    match (key, rsa::pkcs1v15::Signature::try_from(signature)) {
        (Ok(k), Ok(s)) => {
            let vk = rsa::pkcs1v15::VerifyingKey::<sha2::Sha256>::new(k);
            rsa::signature::Verifier::verify(&vk, message, &s).is_ok()
        },
        _ => false,
    }
}

/// The 33-byte SEC1 compressed form of a 65-byte uncompressed key: a
/// parity byte (`2` for even `y`, `3` for odd) followed by `x`.
pub open spec fn compressed_key(u: Seq<u8>) -> Seq<u8> {
    seq![if u[64] % 2 == 0 { 2u8 } else { 3u8 }] + u.subrange(1, 33)
}

/// Compresses an uncompressed secp256k1 public key.
pub fn compress_key(u: &[u8]) -> (r: Vec<u8>)
    requires
        u@.len() == 65,
    ensures
        r@ == compressed_key(u@),
        r@.len() == 33,
{
    let parity: u8 = if u[64] % 2 == 0 { 2 } else { 3 };
    let mut out: Vec<u8> = vec![parity];
    let mut i: usize = 1;
    while i < 33
        invariant
            1 <= i <= 33,
            u@.len() == 65,
            out@ == seq![parity] + u@.subrange(1, i as int),
        decreases 33 - i,
    {
        out.push(u[i]);
        i = i + 1;
        assert(out@ =~= seq![parity] + u@.subrange(1, i as int));
    }
    out
}

} // verus!
