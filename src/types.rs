//! The verification submission and the registry of signature schemes.

use vstd::prelude::*;
use crate::encoding::{json_string, json_string_field, same_text};

verus! {

pub const BTC_ECDSA: &'static str = "btcecdsa";
pub const EVM_PERSONAL: &'static str = "evmpersonal";
pub const JOY_ID: &'static str = "joyid";
pub const CKB_SECP256K1: &'static str = "ckbsecp256k1";
pub const DOGE_ECDSA: &'static str = "dogeecdsa";

/// A verification submission: the signature, the identity it claims
/// (an address, or a JSON-encoded key for WebAuthn), the scheme's name, and
/// the CKB address where the scheme needs one.
pub struct SignData {
    pub signature: String,
    pub identity: String,
    pub sign_type: String,
    pub ckb_address: Option<String>,
}

/// The fields of a submission's JSON text: `signature`, `identity`,
/// `signType`, and `ckbAddress` where it is a string.
pub open spec fn sign_data_fields(json: Seq<char>) -> Option<(Seq<char>, Seq<char>, Seq<char>, Option<Seq<char>>)> {
    match (json_string_field(json, "signature"@), json_string_field(json, "identity"@), json_string_field(json, "signType"@)) {
        (Some(s), Some(i), Some(t)) => Some((s, i, t, json_string_field(json, "ckbAddress"@))),
        _ => None,
    }
}

impl SignData {
    /// Reads a submission from its JSON text; `None` when a required field
    /// is missing or not a string.
    pub fn from(data: &str) -> (r: Option<SignData>)
        ensures
            r matches Some(d) ==> sign_data_fields(data@) == Some((d.signature@, d.identity@, d.sign_type@, opt_text(d.ckb_address))),
            r is None ==> sign_data_fields(data@) is None,
    {
        let signature = match json_string(data, "signature") {
            Some(s) => s,
            None => return None,
        };
        let identity = match json_string(data, "identity") {
            Some(i) => i,
            None => return None,
        };
        let sign_type = match json_string(data, "signType") {
            Some(t) => t,
            None => return None,
        };
        let ckb_address = json_string(data, "ckbAddress");
        Some(SignData { signature, identity, sign_type, ckb_address })
    }
}

/// The text of an optional string.
pub open spec fn opt_text(o: Option<String>) -> Option<Seq<char>> {
    match o {
        Some(s) => Some(s@),
        None => None,
    }
}

/// Why a submission failed verification.
#[derive(PartialEq, Eq, Structural, Clone, Copy, Debug)]
pub enum VerifyFailure {
    /// The submission names no known scheme, or an algorithm the scheme does
    /// not use.
    UnsupportedScheme,
    /// A signature, key, address or JSON text does not decode, or has the
    /// wrong length.
    InvalidSignatureEncoding,
    /// Recovering or checking the key failed.
    RecoveryFailure,
    /// The key is fine but belongs to another identity than the one claimed.
    AddressMismatch,
}

/// The signature schemes that a submission may name.
#[derive(PartialEq, Eq, Structural, Clone, Copy, Debug)]
pub enum SignatureScheme {
    BitcoinMessage,
    EthereumPersonalSign,
    WebAuthnAssertion,
    CkbRecoverable,
    DogecoinMessage,
}

/// The lower-case form of `s`, character by character, as Unicode defines it.
pub uninterp spec fn lower_of(s: Seq<char>) -> Seq<char>;

/// Relies on `str::to_lowercase`, whose result depends on the characters alone.
#[verifier::external_body]
pub(crate) fn lowercase(s: &str) -> (r: String)
    ensures
        r@ == lower_of(s@),
{
    s.to_lowercase()
}

/// The scheme that an already lower-cased name selects.
pub open spec fn scheme_named(name: Seq<char>) -> Option<SignatureScheme> {
    if name == BTC_ECDSA@ {
        Some(SignatureScheme::BitcoinMessage)
    } else if name == EVM_PERSONAL@ {
        Some(SignatureScheme::EthereumPersonalSign)
    } else if name == JOY_ID@ {
        Some(SignatureScheme::WebAuthnAssertion)
    } else if name == CKB_SECP256K1@ {
        Some(SignatureScheme::CkbRecoverable)
    } else if name == DOGE_ECDSA@ {
        Some(SignatureScheme::DogecoinMessage)
    } else {
        None
    }
}

/// The scheme that a submission's `sign_type` names, compared without
/// regard to case.
pub open spec fn scheme_of(sign_type: Seq<char>) -> Option<SignatureScheme> {
    scheme_named(lower_of(sign_type))
}


/// The scheme that a lower-case name selects; `None` for an unknown name.
pub fn scheme_from_name(name: &str) -> (r: Option<SignatureScheme>)
    ensures
        r == scheme_named(name@),
{
    if same_text(name, BTC_ECDSA) {
        Some(SignatureScheme::BitcoinMessage)
    } else if same_text(name, EVM_PERSONAL) {
        Some(SignatureScheme::EthereumPersonalSign)
    } else if same_text(name, JOY_ID) {
        Some(SignatureScheme::WebAuthnAssertion)
    } else if same_text(name, CKB_SECP256K1) {
        Some(SignatureScheme::CkbRecoverable)
    } else if same_text(name, DOGE_ECDSA) {
        Some(SignatureScheme::DogecoinMessage)
    } else {
        None
    }
}

/// The scheme that `sign_type` names, whatever its case.
pub fn parse_scheme(sign_type: &str) -> (r: Option<SignatureScheme>)
    ensures
        r == scheme_of(sign_type@),
{
    let lowered = lowercase(sign_type);
    scheme_from_name(lowered.as_str())
}

} // verus!
