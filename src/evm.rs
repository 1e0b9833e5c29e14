//! Ethereum personal-sign signatures: the message is prefixed with
//! `"\x19Ethereum Signed Message:\n"` and its decimal byte length, hashed
//! with Keccak-256, and signed as 65 bytes `r ‖ s ‖ v`. The signer's
//! address (the low 20 bytes of the Keccak-256 of its uncompressed key) must
//! equal the claimed hex address, whatever the case of its digits.

use vstd::prelude::*;
use vstd::utf8::encode_utf8;
use crate::btc::append_bytes;
use crate::encoding::{bytes_equal, hex_decode, hex_decoded, strip_0x, strip_0x_prefix};
use crate::hashes::{keccak256, keccak256_of};
use crate::types::{SignData, VerifyFailure};

verus! {

/// The decimal digits of `n`, most significant first.
pub open spec fn decimal(n: nat) -> Seq<u8>
    decreases n,
{
    if n < 10 {
        seq![(48 + n) as u8]
    } else {
        decimal(n / 10) + seq![(48 + n % 10) as u8]
    }
}

/// The text that an Ethereum wallet hashes and signs for `msg`.
pub open spec fn ethereum_message(msg: Seq<u8>) -> Seq<u8> {
    encode_utf8("\x19Ethereum Signed Message:\n"@) + decimal(msg.len()) + msg
}

/// The 20-byte address whose key made the 65-byte signature `sig` over the
/// 32-byte `digest`, if one can be recovered.
pub uninterp spec fn evm_signer_of(sig: Seq<u8>, digest: Seq<u8>) -> Option<Seq<u8>>;

/// How checking a personal-sign signature (hex text, `0x` optional) over
/// `challenge` by the key of the hex `address` (`0x` optional, digits of
/// either case) ends.
pub open spec fn ethereum_outcome(challenge: Seq<char>, signature: Seq<char>, address: Seq<char>) -> Result<(), VerifyFailure> {
    match (hex_decoded(strip_0x(encode_utf8(signature))), hex_decoded(strip_0x(encode_utf8(address)))) {
        (Some(sig), Some(addr)) => match evm_signer_of(sig, keccak256_of(ethereum_message(encode_utf8(challenge)))) {
            Some(a) => if a == addr {
                Ok(())
            } else {
                Err(VerifyFailure::AddressMismatch)
            },
            None => Err(VerifyFailure::RecoveryFailure),
        },
        _ => Err(VerifyFailure::InvalidSignatureEncoding),
    }
}

/// A personal-sign signature (hex text, `0x` optional) over `challenge` by
/// the key of the hex `address` (`0x` optional, digits of either case).
pub open spec fn ethereum_signature_valid(challenge: Seq<char>, signature: Seq<char>, address: Seq<char>) -> bool {
    ethereum_outcome(challenge, signature, address) is Ok
}

/// Relies on ethers-core's `Signature::try_from(&[u8])` (exactly 65 bytes)
/// and `Signature::recover` over a 32-byte hash, which yields the 20-byte
/// address of the recovered key.
#[verifier::external_body]
fn evm_recover(sig: &[u8], digest: &[u8]) -> (r: Option<Vec<u8>>)
    requires
        digest@.len() == 32,
    ensures
        r matches Some(a) ==> evm_signer_of(sig@, digest@) == Some(a@) && a@.len() == 20,
        r is None ==> evm_signer_of(sig@, digest@) is None,
        sig@.len() != 65 ==> r is None,
{
    let s = ethers_core::types::Signature::try_from(sig).ok()?;
    let a = s.recover(ethers_core::types::H256::from_slice(digest)).ok()?;
    Some(a.as_bytes().to_vec())
}

/// Appends the decimal digits of `n`.
pub fn push_decimal(out: &mut Vec<u8>, n: u64)
    ensures
        final(out)@ == old(out)@ + decimal(n as nat),
    decreases n,
{
    if n >= 10 {
        push_decimal(out, n / 10);
    }
    out.push((48 + n % 10) as u8);
    assert(final(out)@ =~= old(out)@ + decimal(n as nat)) by {
        if n >= 10 {
            assert(decimal(n as nat) == decimal((n / 10) as nat) + seq![(48 + n % 10) as u8]);
        }
    }
}

/// The bytes that an Ethereum wallet signs for `challenge`.
pub fn ethereum_message_bytes(challenge: &[u8]) -> (r: Vec<u8>)
    ensures
        r@ == ethereum_message(challenge@),
{
    let mut out: Vec<u8> = Vec::new();
    append_bytes(&mut out, "\x19Ethereum Signed Message:\n".as_bytes());
    push_decimal(&mut out, challenge.len() as u64);
    append_bytes(&mut out, challenge);
    assert(out@ =~= ethereum_message(challenge@));
    out
}

/// Checks a personal-sign signature: `data.signature` is the hex of
/// `r ‖ s ‖ v` and `data.identity` the claimed address.
pub fn check_message(challenge: &str, data: &SignData) -> (r: Result<(), VerifyFailure>)
    ensures
        r == ethereum_outcome(challenge@, data.signature@, data.identity@),
{
    let message = ethereum_message_bytes(challenge.as_bytes());
    let digest = keccak256(message.as_slice());
    let sig_hex = strip_0x_prefix(data.signature.as_str().as_bytes());
    let sig = match hex_decode(sig_hex.as_slice()) {
        Some(s) => s,
        None => return Err(VerifyFailure::InvalidSignatureEncoding),
    };
    let addr_hex = strip_0x_prefix(data.identity.as_str().as_bytes());
    let claimed = match hex_decode(addr_hex.as_slice()) {
        Some(a) => a,
        None => return Err(VerifyFailure::InvalidSignatureEncoding),
    };
    match evm_recover(sig.as_slice(), digest.as_slice()) {
        Some(a) => if bytes_equal(a.as_slice(), claimed.as_slice()) {
            Ok(())
        } else {
            Err(VerifyFailure::AddressMismatch)
        },
        None => Err(VerifyFailure::RecoveryFailure),
    }
}

/// Verifies a personal-sign signature: `data.signature` is the hex of
/// `r ‖ s ‖ v` and `data.identity` the claimed address. Any decoding
/// failure gives `false`.
pub fn verify_message(challenge: &str, data: SignData) -> (r: bool)
    ensures
        r == ethereum_signature_valid(challenge@, data.signature@, data.identity@),
{
    check_message(challenge, &data).is_ok()
}

} // verus!
