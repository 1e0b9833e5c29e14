//! Dispatch of a submission to the verifier of the scheme it names.

use vstd::prelude::*;
use vstd::utf8::encode_utf8;
use crate::btc::{address_key_hash, bitcoin_outcome, bitcoin_signature_valid};
use crate::ckb::{ckb_outcome, ckb_signature_valid, CkbNetwork};
use crate::doge::{dogecoin_outcome, dogecoin_signature_valid};
use crate::encoding::{hex_decoded, strip_0x};
use crate::evm::{ethereum_outcome, ethereum_signature_valid};
use crate::joyid::joyid_outcome;
use crate::types::{opt_text, parse_scheme, scheme_of, SignData, SignatureScheme, VerifyFailure};

verus! {

/// How checking `data` under the scheme it names ends; an unknown scheme
/// is unsupported.
pub open spec fn signature_outcome(challenge: Seq<char>, data: SignData, network: CkbNetwork) -> Result<(), VerifyFailure> {
    match scheme_of(data.sign_type@) {
        Some(SignatureScheme::BitcoinMessage) => bitcoin_outcome(challenge, data.signature@, data.identity@),
        Some(SignatureScheme::EthereumPersonalSign) => ethereum_outcome(challenge, data.signature@, data.identity@),
        Some(SignatureScheme::WebAuthnAssertion) => joyid_outcome(challenge, data.identity@, data.signature@),
        Some(SignatureScheme::CkbRecoverable) => ckb_outcome(network, challenge, data.signature@, opt_text(data.ckb_address)),
        Some(SignatureScheme::DogecoinMessage) => dogecoin_outcome(challenge, data.signature@, data.identity@),
        None => Err(VerifyFailure::UnsupportedScheme),
    }
}

/// Whether `data` proves, under the scheme it names, that its signer holds
/// the claimed identity; an unknown scheme never does.
pub open spec fn signature_valid(challenge: Seq<char>, data: SignData, network: CkbNetwork) -> bool {
    signature_outcome(challenge, data, network) is Ok
}

/// Checks `data` over `challenge` with the scheme that `data.sign_type`
/// names (in any case), and says why it fails when it does. `network` is
/// the CKB network that CKB addresses belong to.
pub fn check_message(challenge: &str, data: &SignData, network: CkbNetwork) -> (r: Result<(), VerifyFailure>)
    ensures
        r == signature_outcome(challenge@, *data, network),
{
    match parse_scheme(data.sign_type.as_str()) {
        Some(SignatureScheme::BitcoinMessage) => crate::btc::check_message(challenge, data),
        Some(SignatureScheme::EthereumPersonalSign) => crate::evm::check_message(challenge, data),
        Some(SignatureScheme::WebAuthnAssertion) => crate::joyid::check_signature(challenge, data.identity.as_str(), data.signature.as_str()),
        Some(SignatureScheme::CkbRecoverable) => crate::ckb::check_signature(challenge, data, network),
        Some(SignatureScheme::DogecoinMessage) => crate::doge::check_message(challenge, data),
        None => Err(VerifyFailure::UnsupportedScheme),
    }
}

/// Verifies `data` over `challenge` with the scheme that `data.sign_type`
/// names (in any case). Never panics: malformed input and unknown schemes
/// give `false`. `network` is the CKB network that CKB addresses belong to.
pub fn verify_message(challenge: &str, data: SignData, network: CkbNetwork) -> (r: bool)
    ensures
        r == signature_valid(challenge@, data, network),
{
    check_message(challenge, &data, network).is_ok()
}

/// A personal-sign signature over a challenge vouches for one address at
/// most: two claimed addresses that it verifies for spell the same 20 bytes
/// (they may differ only in letter case and the `0x` marker), so it fails
/// for every other address.
pub proof fn ethereum_signature_binds_one_address(challenge: Seq<char>, signature: Seq<char>, a1: Seq<char>, a2: Seq<char>)
    requires
        ethereum_signature_valid(challenge, signature, a1),
        ethereum_signature_valid(challenge, signature, a2),
    ensures
        hex_decoded(strip_0x(encode_utf8(a1))) == hex_decoded(strip_0x(encode_utf8(a2))),
{
}

/// A Bitcoin message signature over a challenge vouches for one key hash
/// at most: two claimed addresses that it verifies for carry the same hash.
pub proof fn bitcoin_signature_binds_one_key_hash(challenge: Seq<char>, signature: Seq<char>, a1: Seq<char>, a2: Seq<char>)
    requires
        bitcoin_signature_valid(challenge, signature, a1),
        bitcoin_signature_valid(challenge, signature, a2),
    ensures
        address_key_hash(encode_utf8(a1)) == address_key_hash(encode_utf8(a2)),
{
}

/// A Dogecoin message signature over a challenge vouches for one key hash
/// at most: two claimed addresses that it verifies for carry the same hash.
pub proof fn dogecoin_signature_binds_one_key_hash(challenge: Seq<char>, signature: Seq<char>, a1: Seq<char>, a2: Seq<char>)
    requires
        dogecoin_signature_valid(challenge, signature, a1),
        dogecoin_signature_valid(challenge, signature, a2),
    ensures
        address_key_hash(encode_utf8(a1)) == address_key_hash(encode_utf8(a2)),
{
}

/// A CKB signature over a challenge, on one network, vouches for one
/// address at most: it fails for every address but the recovered one.
pub proof fn ckb_signature_binds_one_address(network: CkbNetwork, challenge: Seq<char>, signature: Seq<char>, a1: Seq<char>, a2: Seq<char>)
    requires
        ckb_signature_valid(network, challenge, signature, Some(a1)),
        ckb_signature_valid(network, challenge, signature, Some(a2)),
    ensures
        a1 == a2,
{
}

} // verus!
