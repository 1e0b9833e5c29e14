//! Dogecoin message signatures: Bitcoin's construction with Dogecoin's
//! magic text, and a header byte that is the recovery id plus 31 (the
//! compressed-key range of Bitcoin's header).

use vstd::prelude::*;
use vstd::utf8::encode_utf8;
use crate::btc::{recovered_hash_check, recovered_hash_outcome, signed_message, signed_message_bytes};
use crate::encoding::{base64_decode, base64_decoded};
use crate::hashes::{sha256d, sha256d_of};
use crate::types::{SignData, VerifyFailure};

verus! {

/// Dogecoin's prefix: its length byte, then the magic text.
pub open spec fn dogecoin_prefix() -> Seq<u8> {
    encode_utf8("\x19Dogecoin Signed Message:\n"@)
}

/// The recovery id that a Dogecoin header byte encodes: the byte less 31,
/// which must be 0 to 3.
pub open spec fn dogecoin_recovery_id(h: u8) -> Option<u8> {
    if 31 <= h <= 34 {
        Some((h - 31) as u8)
    } else {
        None
    }
}

/// How checking a Dogecoin message signature (base64 text) by the key of
/// `address` over `message` ends.
pub open spec fn dogecoin_outcome(message: Seq<char>, signature: Seq<char>, address: Seq<char>) -> Result<(), VerifyFailure> {
    match base64_decoded(encode_utf8(signature)) {
        Some(sig) => if sig.len() != 65 {
            Err(VerifyFailure::InvalidSignatureEncoding)
        } else {
            match dogecoin_recovery_id(sig[0]) {
                Some(recid) => recovered_hash_outcome(
                    sha256d_of(signed_message(dogecoin_prefix(), encode_utf8(message))),
                    sig,
                    recid,
                    true,
                    encode_utf8(address),
                ),
                None => Err(VerifyFailure::InvalidSignatureEncoding),
            }
        },
        None => Err(VerifyFailure::InvalidSignatureEncoding),
    }
}

/// A Dogecoin message signature (base64 text) by the key of `address` over
/// `message`.
pub open spec fn dogecoin_signature_valid(message: Seq<char>, signature: Seq<char>, address: Seq<char>) -> bool {
    dogecoin_outcome(message, signature, address) is Ok
}

/// The digest that a Dogecoin wallet signs for `msg`.
pub fn signed_msg_hash(msg: &str) -> (r: Vec<u8>)
    ensures
        r@ == sha256d_of(signed_message(dogecoin_prefix(), encode_utf8(msg@))),
        r@.len() == 32,
{
    let preimage = signed_message_bytes("\x19Dogecoin Signed Message:\n".as_bytes(), msg.as_bytes());
    sha256d(preimage.as_slice())
}

fn verify_message_doge_ecdsa(message: &str, signature: &str, address: &str) -> (r: Result<(), VerifyFailure>)
    ensures
        r == dogecoin_outcome(message@, signature@, address@),
{
    let sig = match base64_decode(signature.as_bytes()) {
        Some(s) => s,
        None => return Err(VerifyFailure::InvalidSignatureEncoding),
    };
    if sig.len() != 65 {
        return Err(VerifyFailure::InvalidSignatureEncoding);
    }
    if sig[0] < 31 || sig[0] > 34 {
        return Err(VerifyFailure::InvalidSignatureEncoding);
    }
    let recid: u8 = sig[0] - 31;
    let digest = signed_msg_hash(message);
    recovered_hash_check(digest.as_slice(), sig.as_slice(), recid, true, address)
}

/// Checks a Dogecoin message signature: `data.signature` is the base64 of
/// the 65-byte signature and `data.identity` the claimed address.
pub fn check_message(challenge: &str, data: &SignData) -> (r: Result<(), VerifyFailure>)
    ensures
        r == dogecoin_outcome(challenge@, data.signature@, data.identity@),
{
    verify_message_doge_ecdsa(challenge, data.signature.as_str(), data.identity.as_str())
}

/// Verifies a Dogecoin message signature: `data.signature` is the base64 of
/// the 65-byte signature and `data.identity` the claimed address. Any
/// decoding failure gives `false`.
pub fn verify_message(challenge: &str, data: SignData) -> (r: bool)
    ensures
        r == dogecoin_signature_valid(challenge@, data.signature@, data.identity@),
{
    check_message(challenge, &data).is_ok()
}

} // verus!
