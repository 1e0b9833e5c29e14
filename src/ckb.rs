//! CKB recoverable signatures: `"Nervos Message:"` and the challenge,
//! hashed with the chain's personalised BLAKE2b, signed as 65 bytes
//! `r ‖ s ‖ recovery id`. The recovered key's full-format address on the
//! configured network must equal the claimed address exactly.

use vstd::prelude::*;
use vstd::utf8::encode_utf8;
use crate::btc::append_bytes;
use crate::crypto::{compress_key, compressed_key, secp256k1_recover, secp256k1_recovered};
use crate::encoding::{hex_decode, hex_decoded, remove_0x, slice_range, without_0x};
use crate::hashes::{ckb_hash_of, hash_ckb};
use crate::types::{opt_text, SignData, VerifyFailure};

verus! {

/// The CKB network whose address prefix (`ckb` or `ckt`) is in use.
#[derive(PartialEq, Eq, Structural, Clone, Copy, Debug)]
pub enum CkbNetwork {
    Mainnet,
    Testnet,
}

/// The full-format (bech32m) address, on the main network or the test
/// network, of the secp256k1 sighash lock for the compressed key `key`.
pub uninterp spec fn ckb_address_text(mainnet: bool, key: Seq<u8>) -> Option<Seq<char>>;

/// Relies on secp256k1's `PublicKey::from_slice` and ckb-sdk's
/// `AddressPayload::from_pubkey`, `Address::new(.., true)` and its `Display`.
#[verifier::external_body]
fn ckb_full_address(network: CkbNetwork, key: &[u8]) -> (r: Option<String>)
    ensures
        r matches Some(s) ==> ckb_address_text(network == CkbNetwork::Mainnet, key@) == Some(s@),
        r is None ==> ckb_address_text(network == CkbNetwork::Mainnet, key@) is None,
{
    let pk = secp256k1::PublicKey::from_slice(key).ok()?;
    let net = match network {
        CkbNetwork::Mainnet => ckb_sdk::NetworkType::Mainnet,
        CkbNetwork::Testnet => ckb_sdk::NetworkType::Testnet,
    };
    Some(ckb_sdk::Address::new(net, ckb_sdk::AddressPayload::from_pubkey(&pk), true).to_string())
}

/// The text that a CKB wallet hashes and signs for `challenge`.
pub open spec fn nervos_message(challenge: Seq<u8>) -> Seq<u8> {
    encode_utf8("Nervos Message:"@) + challenge
}

/// How checking a CKB signature (hex text, any `0x` removed) over
/// `challenge` by the key whose address on `network` is `address` ends.
pub open spec fn ckb_outcome(network: CkbNetwork, challenge: Seq<char>, signature: Seq<char>, address: Option<Seq<char>>) -> Result<(), VerifyFailure> {
    match (hex_decoded(without_0x(encode_utf8(signature))), address) {
        (Some(sig), Some(addr)) => if sig.len() != 65 {
            Err(VerifyFailure::InvalidSignatureEncoding)
        } else {
            match secp256k1_recovered(ckb_hash_of(nervos_message(encode_utf8(challenge))), sig.subrange(0, 64), sig[64]) {
                Some(k) => match ckb_address_text(network == CkbNetwork::Mainnet, compressed_key(k)) {
                    Some(a) => if a == addr {
                        Ok(())
                    } else {
                        Err(VerifyFailure::AddressMismatch)
                    },
                    None => Err(VerifyFailure::RecoveryFailure),
                },
                None => Err(VerifyFailure::RecoveryFailure),
            }
        },
        _ => Err(VerifyFailure::InvalidSignatureEncoding),
    }
}

/// A CKB signature (hex text, any `0x` removed) over `challenge` by the
/// key whose address on `network` is `address`.
pub open spec fn ckb_signature_valid(network: CkbNetwork, challenge: Seq<char>, signature: Seq<char>, address: Option<Seq<char>>) -> bool {
    ckb_outcome(network, challenge, signature, address) is Ok
}

/// Checks a CKB signature: `data.signature` is the hex of the 65 bytes and
/// `data.ckb_address` the claimed address.
pub fn check_signature(challenge: &str, data: &SignData, network: CkbNetwork) -> (r: Result<(), VerifyFailure>)
    ensures
        r == ckb_outcome(network, challenge@, data.signature@, opt_text(data.ckb_address)),
{
    let sig_hex = remove_0x(data.signature.as_str().as_bytes());
    let sig = match hex_decode(sig_hex.as_slice()) {
        Some(s) => s,
        None => return Err(VerifyFailure::InvalidSignatureEncoding),
    };
    let claimed = match &data.ckb_address {
        Some(a) => a,
        None => return Err(VerifyFailure::InvalidSignatureEncoding),
    };
    if sig.len() != 65 {
        return Err(VerifyFailure::InvalidSignatureEncoding);
    }
    let mut message: Vec<u8> = Vec::new();
    append_bytes(&mut message, "Nervos Message:".as_bytes());
    append_bytes(&mut message, challenge.as_bytes());
    let digest = hash_ckb(message.as_slice());
    let compact = slice_range(sig.as_slice(), 0, 64);
    let key = match secp256k1_recover(digest.as_slice(), compact.as_slice(), sig[64]) {
        Some(k) => k,
        None => return Err(VerifyFailure::RecoveryFailure),
    };
    let compressed = compress_key(key.as_slice());
    match ckb_full_address(network, compressed.as_slice()) {
        Some(addr) => if addr == *claimed {
            Ok(())
        } else {
            Err(VerifyFailure::AddressMismatch)
        },
        None => Err(VerifyFailure::RecoveryFailure),
    }
}

/// Verifies a CKB signature: `data.signature` is the hex of the 65 bytes and
/// `data.ckb_address` the claimed address. Any decoding failure, or a
/// missing address, gives `false`.
pub fn verify_signature(challenge: &str, data: SignData, network: CkbNetwork) -> (r: bool)
    ensures
        r == ckb_signature_valid(network, challenge@, data.signature@, opt_text(data.ckb_address)),
{
    check_signature(challenge, &data, network).is_ok()
}

} // verus!
