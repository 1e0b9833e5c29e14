//! JoyID (WebAuthn) assertions. A native key (ES256) signs
//! `authenticator_data ‖ sha256(client_data)`, where the client data must
//! carry the challenge in URL-safe base64; a session key (RS256) signs the
//! challenge itself, under an RSA key packed as a 3-byte big-endian exponent
//! followed by the modulus.

use vstd::prelude::*;
use vstd::utf8::encode_utf8;
use crate::btc::append_bytes;
use crate::crypto::{es256_valid, es256_verify, rs256_valid, rs256_verify};
use crate::encoding::{base64url_decode, base64url_decoded, base64url_encode, base64url_text, contains_run, find_run, hex_decode, hex_decoded, json_integer, json_integer_field, json_string, json_string_field, same_text, slice_from, slice_range};
use crate::hashes::{sha256, sha256_of};
use crate::types::VerifyFailure;

verus! {

/// The COSE algorithms that a JoyID signature may name.
#[derive(PartialEq, Eq, Structural, Clone, Copy, Debug)]
pub enum SigningAlg {
    RS256,
    ES256,
}

impl SigningAlg {
    /// The COSE algorithm number.
    pub open spec fn spec_code(self) -> int {
        match self {
            SigningAlg::RS256 => -257,
            SigningAlg::ES256 => -7,
        }
    }

    /// The COSE algorithm number.
    pub fn code(self) -> (r: i16)
        ensures
            r == self.spec_code(),
    {
        match self {
            SigningAlg::RS256 => -257,
            SigningAlg::ES256 => -7,
        }
    }

    /// The algorithm with COSE number `code`, if it is one of these.
    pub fn from_code(code: i16) -> (r: Option<SigningAlg>)
        ensures
            r matches Some(a) ==> a.spec_code() == code,
            r is None ==> code != -257 && code != -7,
    {
        if code == -257 {
            Some(SigningAlg::RS256)
        } else if code == -7 {
            Some(SigningAlg::ES256)
        } else {
            None
        }
    }
}

/// The key that signed: its class (`main_key`, `sub_key`, or a session
/// key) and its public key in hex.
pub struct JoyIdIdentity {
    pub key_type: String,
    pub public_key: String,
}

/// The signature (URL-safe base64), the signed message (URL-safe base64)
/// and the COSE algorithm number.
pub struct JoyIdSignature {
    pub signature: String,
    pub message: String,
    pub alg: i16,
}

/// A JoyID submission: the signature and identity as JSON texts.
pub struct JoyIdData {
    pub signature: String,
    pub identity: String,
    pub sign_type: String,
}

/// The fields of an identity text: `keyType` and `publicKey`.
pub open spec fn identity_fields(json: Seq<char>) -> Option<(Seq<char>, Seq<char>)> {
    match (json_string_field(json, "keyType"@), json_string_field(json, "publicKey"@)) {
        (Some(k), Some(p)) => Some((k, p)),
        _ => None,
    }
}

/// The fields of a signature text: `signature`, `message`, and `alg`, which
/// must fit in 16 bits.
pub open spec fn signature_fields(json: Seq<char>) -> Option<(Seq<char>, Seq<char>, i16)> {
    match (json_string_field(json, "signature"@), json_string_field(json, "message"@), json_integer_field(json, "alg"@)) {
        (Some(s), Some(m), Some(a)) => if i16::MIN <= a <= i16::MAX {
            Some((s, m, a as i16))
        } else {
            None
        },
        _ => None,
    }
}

/// The fields of a submission text: `signature`, `identity`, `signType`.
pub open spec fn data_fields(json: Seq<char>) -> Option<(Seq<char>, Seq<char>, Seq<char>)> {
    match (json_string_field(json, "signature"@), json_string_field(json, "identity"@), json_string_field(json, "signType"@)) {
        (Some(s), Some(i), Some(t)) => Some((s, i, t)),
        _ => None,
    }
}

impl JoyIdIdentity {
    /// Reads an identity from its JSON text; `None` when a field is missing.
    pub fn from(data: &str) -> (r: Option<JoyIdIdentity>)
        ensures
            r matches Some(id) ==> identity_fields(data@) == Some((id.key_type@, id.public_key@)),
            r is None ==> identity_fields(data@) is None,
    {
        let key_type = match json_string(data, "keyType") {
            Some(k) => k,
            None => return None,
        };
        let public_key = match json_string(data, "publicKey") {
            Some(p) => p,
            None => return None,
        };
        Some(JoyIdIdentity { key_type, public_key })
    }
}

impl JoyIdSignature {
    /// Reads a signature from its JSON text; `None` when a field is missing
    /// or `alg` does not fit in 16 bits.
    pub fn from(data: &str) -> (r: Option<JoyIdSignature>)
        ensures
            r matches Some(s) ==> signature_fields(data@) == Some((s.signature@, s.message@, s.alg)),
            r is None ==> signature_fields(data@) is None,
    {
        let signature = match json_string(data, "signature") {
            Some(s) => s,
            None => return None,
        };
        let message = match json_string(data, "message") {
            Some(m) => m,
            None => return None,
        };
        let alg = match json_integer(data, "alg") {
            Some(a) => a,
            None => return None,
        };
        if alg < -32768 || alg > 32767 {
            return None;
        }
        Some(JoyIdSignature { signature, message, alg: alg as i16 })
    }
}

impl JoyIdData {
    /// Reads a submission from its JSON text; `None` when a field is missing.
    pub fn from(data: &str) -> (r: Option<JoyIdData>)
        ensures
            r matches Some(d) ==> data_fields(data@) == Some((d.signature@, d.identity@, d.sign_type@)),
            r is None ==> data_fields(data@) is None,
    {
        let signature = match json_string(data, "signature") {
            Some(s) => s,
            None => return None,
        };
        let identity = match json_string(data, "identity") {
            Some(i) => i,
            None => return None,
        };
        let sign_type = match json_string(data, "signType") {
            Some(t) => t,
            None => return None,
        };
        Some(JoyIdData { signature, identity, sign_type })
    }
}

/// Length of the authenticator data that leads a native-key message.
pub const AUTH_DATA_LEN: usize = 37;

/// A raw 64-byte P-256 key gets the `0x04` tag of an uncompressed SEC1 key.
pub open spec fn sec1_key(pk: Seq<u8>) -> Seq<u8> {
    if pk.len() == 64 {
        seq![4u8] + pk
    } else {
        pk
    }
}

/// What an ES256 assertion signs: the authenticator data, then the SHA-256
/// of the client data.
pub open spec fn assertion_payload(message: Seq<u8>) -> Seq<u8> {
    message.subrange(0, AUTH_DATA_LEN as int) + sha256_of(message.subrange(AUTH_DATA_LEN as int, message.len() as int))
}

/// How checking a native-key assertion for the encoded challenge
/// `challenge_b64` ends: the client data must carry the challenge, the
/// algorithm must be ES256, and the signature must hold.
pub open spec fn native_key_outcome(challenge_b64: Seq<u8>, public_key: Seq<char>, signature: Seq<char>, message: Seq<char>, alg: i16) -> Result<(), VerifyFailure> {
    match (hex_decoded(encode_utf8(public_key)), base64url_decoded(encode_utf8(message)), base64url_decoded(encode_utf8(signature))) {
        (Some(pk), Some(m), Some(s)) => if m.len() < AUTH_DATA_LEN {
            Err(VerifyFailure::InvalidSignatureEncoding)
        } else if !contains_run(m.subrange(AUTH_DATA_LEN as int, m.len() as int), challenge_b64) {
            Err(VerifyFailure::RecoveryFailure)
        } else if alg != SigningAlg::ES256.spec_code() {
            Err(VerifyFailure::UnsupportedScheme)
        } else if es256_valid(sec1_key(pk), assertion_payload(m), s) {
            Ok(())
        } else {
            Err(VerifyFailure::RecoveryFailure)
        },
        _ => Err(VerifyFailure::InvalidSignatureEncoding),
    }
}

/// A native-key assertion is valid for the encoded challenge `challenge_b64`.
pub open spec fn native_key_valid(challenge_b64: Seq<u8>, public_key: Seq<char>, signature: Seq<char>, message: Seq<char>, alg: i16) -> bool {
    native_key_outcome(challenge_b64, public_key, signature, message, alg) is Ok
}

/// How checking a session-key signature over `message` ends.
pub open spec fn session_key_outcome(message: Seq<u8>, signature: Seq<char>, public_key: Seq<char>) -> Result<(), VerifyFailure> {
    match (hex_decoded(encode_utf8(public_key)), base64url_decoded(encode_utf8(signature))) {
        (Some(k), Some(s)) => if k.len() < 3 {
            Err(VerifyFailure::InvalidSignatureEncoding)
        } else if rs256_valid(k.subrange(3, k.len() as int), k.subrange(0, 3), message, s) {
            Ok(())
        } else {
            Err(VerifyFailure::RecoveryFailure)
        },
        _ => Err(VerifyFailure::InvalidSignatureEncoding),
    }
}

/// A session-key signature over `message` is valid.
pub open spec fn session_key_valid(message: Seq<u8>, signature: Seq<char>, public_key: Seq<char>) -> bool {
    session_key_outcome(message, signature, public_key) is Ok
}

/// The key class names a native (passkey) key.
pub open spec fn is_native_key(key_type: Seq<char>) -> bool {
    key_type == "main_key"@ || key_type == "sub_key"@
}

/// How checking a JoyID submission with identity and signature texts for
/// `challenge` ends.
pub open spec fn joyid_outcome(challenge: Seq<char>, identity: Seq<char>, signature: Seq<char>) -> Result<(), VerifyFailure> {
    match (identity_fields(identity), signature_fields(signature)) {
        (Some((key_type, public_key)), Some((sig, msg, alg))) => if is_native_key(key_type) {
            native_key_outcome(encode_utf8(base64url_text(encode_utf8(challenge))), public_key, sig, msg, alg)
        } else {
            session_key_outcome(encode_utf8(challenge), sig, public_key)
        },
        _ => Err(VerifyFailure::InvalidSignatureEncoding),
    }
}

/// A JoyID submission with identity and signature texts is valid for `challenge`.
pub open spec fn joyid_valid(challenge: Seq<char>, identity: Seq<char>, signature: Seq<char>) -> bool {
    joyid_outcome(challenge, identity, signature) is Ok
}

fn verify_native_key_signature(challenge: &str, identity: &JoyIdIdentity, signature: &JoyIdSignature) -> (r: Result<(), VerifyFailure>)
    ensures
        r == native_key_outcome(encode_utf8(challenge@), identity.public_key@, signature.signature@, signature.message@, signature.alg),
{
    let mut pub_key_bytes = match hex_decode(identity.public_key.as_str().as_bytes()) {
        Some(k) => k,
        None => return Err(VerifyFailure::InvalidSignatureEncoding),
    };
    let message_bytes = match base64url_decode(signature.message.as_str().as_bytes()) {
        Some(m) => m,
        None => return Err(VerifyFailure::InvalidSignatureEncoding),
    };
    let sig_bytes = match base64url_decode(signature.signature.as_str().as_bytes()) {
        Some(s) => s,
        None => return Err(VerifyFailure::InvalidSignatureEncoding),
    };
    let ghost decoded = pub_key_bytes@;
    if pub_key_bytes.len() == 64 {
        pub_key_bytes.insert(0, 4u8);
        assert(pub_key_bytes@ =~= seq![4u8] + decoded);
    }
    if message_bytes.len() < AUTH_DATA_LEN {
        return Err(VerifyFailure::InvalidSignatureEncoding);
    }
    let auth_data = slice_range(message_bytes.as_slice(), 0, AUTH_DATA_LEN);
    let client_data = slice_from(message_bytes.as_slice(), AUTH_DATA_LEN);
    if !find_run(client_data.as_slice(), challenge.as_bytes()) {
        return Err(VerifyFailure::RecoveryFailure);
    }
    if signature.alg != SigningAlg::ES256.code() {
        return Err(VerifyFailure::UnsupportedScheme);
    }
    let client_data_hash = sha256(client_data.as_slice());
    let mut signature_base = auth_data;
    append_bytes(&mut signature_base, client_data_hash.as_slice());
    if es256_verify(pub_key_bytes.as_slice(), signature_base.as_slice(), sig_bytes.as_slice()) {
        Ok(())
    } else {
        Err(VerifyFailure::RecoveryFailure)
    }
}

fn verify_session_key_signature(message: &[u8], signature: &str, pubkey_hex: &str) -> (r: Result<(), VerifyFailure>)
    ensures
        r == session_key_outcome(message@, signature@, pubkey_hex@),
{
    let pub_key_bytes = match hex_decode(pubkey_hex.as_bytes()) {
        Some(k) => k,
        None => return Err(VerifyFailure::InvalidSignatureEncoding),
    };
    let sig_bytes = match base64url_decode(signature.as_bytes()) {
        Some(s) => s,
        None => return Err(VerifyFailure::InvalidSignatureEncoding),
    };
    if pub_key_bytes.len() < 3 {
        return Err(VerifyFailure::InvalidSignatureEncoding);
    }
    let e = slice_range(pub_key_bytes.as_slice(), 0, 3);
    let n = slice_from(pub_key_bytes.as_slice(), 3);
    if rs256_verify(n.as_slice(), e.as_slice(), message, sig_bytes.as_slice()) {
        Ok(())
    } else {
        Err(VerifyFailure::RecoveryFailure)
    }
}

/// Checks a JoyID submission whose `identity` and `signature` are JSON
/// texts: a `main_key` or `sub_key` identity is checked as an ES256
/// assertion, any other as an RS256 session key.
pub fn check_signature(challenge: &str, identity: &str, signature: &str) -> (r: Result<(), VerifyFailure>)
    ensures
        r == joyid_outcome(challenge@, identity@, signature@),
{
    let identity = match JoyIdIdentity::from(identity) {
        Some(i) => i,
        None => return Err(VerifyFailure::InvalidSignatureEncoding),
    };
    let signature = match JoyIdSignature::from(signature) {
        Some(s) => s,
        None => return Err(VerifyFailure::InvalidSignatureEncoding),
    };
    if same_text(identity.key_type.as_str(), "main_key") || same_text(identity.key_type.as_str(), "sub_key") {
        let challenge_b64 = base64url_encode(challenge.as_bytes());
        verify_native_key_signature(challenge_b64.as_str(), &identity, &signature)
    } else {
        verify_session_key_signature(challenge.as_bytes(), signature.signature.as_str(), identity.public_key.as_str())
    }
}

/// Verifies a JoyID submission whose `identity` and `signature` are JSON
/// texts: a `main_key` or `sub_key` identity is checked as an ES256
/// assertion, any other as an RS256 session key. Malformed input gives
/// `false`.
pub fn verify_signature(challenge: &str, data: JoyIdData) -> (r: bool)
    ensures
        r == joyid_valid(challenge@, data.identity@, data.signature@),
{
    check_signature(challenge, data.identity.as_str(), data.signature.as_str()).is_ok()
}

} // verus!
