//! Bitcoin-style message signatures: a length-prefixed magic text, the
//! message length as a compact size, the message, hashed with double SHA-256
//! and signed with a 65-byte recoverable signature whose first byte encodes
//! the recovery id. The recovered key's hash160 must equal the hash carried
//! by the claimed base58check (P2PKH) address.

use vstd::prelude::*;
use vstd::utf8::encode_utf8;
use crate::crypto::{compress_key, compressed_key, secp256k1_recover, secp256k1_recovered};
use crate::encoding::{base58check_decode, base58check_payload, base64_decode, base64_decoded, bytes_equal, slice_from, slice_range};
use crate::hashes::{hash160, hash160_of, sha256d, sha256d_of};
use crate::types::{SignData, VerifyFailure};

verus! {

/// The `k` low-order bytes of `n`, least significant first.
pub open spec fn le_bytes(n: nat, k: nat) -> Seq<u8>
    decreases k,
{
    if k == 0 {
        seq![]
    } else {
        seq![(n % 256) as u8] + le_bytes(n / 256, (k - 1) as nat)
    }
}

/// Bitcoin's compact-size encoding of `n`.
pub open spec fn compact_size(n: nat) -> Seq<u8> {
    if n < 0xfd {
        seq![n as u8]
    } else if n <= 0xffff {
        seq![0xfdu8] + le_bytes(n, 2)
    } else if n <= 0xffff_ffff {
        seq![0xfeu8] + le_bytes(n, 4)
    } else {
        seq![0xffu8] + le_bytes(n, 8)
    }
}

/// The text that is hashed and signed: the chain's prefix, the message
/// length as a compact size, then the message.
pub open spec fn signed_message(prefix: Seq<u8>, msg: Seq<u8>) -> Seq<u8> {
    prefix + compact_size(msg.len()) + msg
}

/// Bitcoin's prefix: its length byte, then the magic text.
pub open spec fn bitcoin_prefix() -> Seq<u8> {
    encode_utf8("\x18Bitcoin Signed Message:\n"@)
}

/// The recovery id and key form that a Bitcoin header byte encodes: the
/// byte is at least 27; less 27, its two low bits are the recovery id and
/// its third bit marks a compressed key.
pub open spec fn bitcoin_header(h: u8) -> Option<(u8, bool)> {
    if h < 27 {
        None
    } else {
        Some((((h - 27) % 4) as u8, ((h - 27) / 4) % 2 == 1))
    }
}

/// The public-key hash that a base58check P2PKH address carries: its
/// payload after the version byte.
pub open spec fn address_key_hash(address: Seq<u8>) -> Option<Seq<u8>> {
    match base58check_payload(address) {
        Some(p) => if p.len() >= 2 {
            Some(p.subrange(1, p.len() as int))
        } else {
            None
        },
        None => None,
    }
}

/// How checking the key recovered from `sig` (header byte, then compact
/// `r ‖ s`) over `digest` against the key hash of `address` ends.
pub open spec fn recovered_hash_outcome(digest: Seq<u8>, sig: Seq<u8>, recid: u8, compressed: bool, address: Seq<u8>) -> Result<(), VerifyFailure> {
    match address_key_hash(address) {
        None => Err(VerifyFailure::InvalidSignatureEncoding),
        Some(h) => match secp256k1_recovered(digest, sig.subrange(1, 65), recid) {
            None => Err(VerifyFailure::RecoveryFailure),
            Some(k) => if hash160_of(if compressed { compressed_key(k) } else { k }) == h {
                Ok(())
            } else {
                Err(VerifyFailure::AddressMismatch)
            },
        },
    }
}

/// How checking a Bitcoin message signature (base64 text) by the key of
/// `address` over `challenge` ends.
pub open spec fn bitcoin_outcome(challenge: Seq<char>, signature: Seq<char>, address: Seq<char>) -> Result<(), VerifyFailure> {
    match base64_decoded(encode_utf8(signature)) {
        Some(sig) => if sig.len() != 65 {
            Err(VerifyFailure::InvalidSignatureEncoding)
        } else {
            match bitcoin_header(sig[0]) {
                Some((recid, compressed)) => recovered_hash_outcome(
                    sha256d_of(signed_message(bitcoin_prefix(), encode_utf8(challenge))),
                    sig,
                    recid,
                    compressed,
                    encode_utf8(address),
                ),
                None => Err(VerifyFailure::InvalidSignatureEncoding),
            }
        },
        None => Err(VerifyFailure::InvalidSignatureEncoding),
    }
}

/// A Bitcoin message signature (base64 text) by the key of `address`
/// over `challenge`.
pub open spec fn bitcoin_signature_valid(challenge: Seq<char>, signature: Seq<char>, address: Seq<char>) -> bool {
    bitcoin_outcome(challenge, signature, address) is Ok
}

/// Appends the `k` low-order bytes of `n`, least significant first.
pub fn push_le(out: &mut Vec<u8>, n: u128, k: usize)
    requires
        k <= 16,
    ensures
        final(out)@ == old(out)@ + le_bytes(n as nat, k as nat),
{
    let mut v: u128 = n;
    let mut i: usize = 0;
    while i < k
        invariant
            i <= k <= 16,
            out@ + le_bytes(v as nat, (k - i) as nat) == old(out)@ + le_bytes(n as nat, k as nat),
        decreases k - i,
    {
        let ghost before = out@;
        out.push((v % 256) as u8);
        assert(le_bytes(v as nat, (k - i) as nat) == seq![(v % 256) as u8] + le_bytes((v / 256) as nat, (k - i - 1) as nat));
        assert(before + le_bytes(v as nat, (k - i) as nat) == out@ + le_bytes((v / 256) as nat, (k - i - 1) as nat));
        v = v / 256;
        i = i + 1;
    }
    assert(out@ + le_bytes(v as nat, 0) == out@);
}

/// Appends the compact-size encoding of `n`.
pub fn push_compact_size(out: &mut Vec<u8>, n: u64)
    ensures
        final(out)@ == old(out)@ + compact_size(n as nat),
{
    if n < 0xfd {
        out.push(n as u8);
    } else if n <= 0xffff {
        out.push(0xfdu8);
        push_le(out, n as u128, 2);
    } else if n <= 0xffff_ffff {
        out.push(0xfeu8);
        push_le(out, n as u128, 4);
    } else {
        out.push(0xffu8);
        push_le(out, n as u128, 8);
    }
}

/// Appends `b` to `out`.
pub fn append_bytes(out: &mut Vec<u8>, b: &[u8])
    ensures
        final(out)@ == old(out)@ + b@,
{
    let mut i: usize = 0;
    while i < b.len()
        invariant
            i <= b@.len(),
            out@ == old(out)@ + b@.subrange(0, i as int),
        decreases b@.len() - i,
    {
        out.push(b[i]);
        i = i + 1;
        assert(out@ =~= old(out)@ + b@.subrange(0, i as int));
    }
    assert(b@.subrange(0, b@.len() as int) == b@);
}

/// The bytes of the signed-message text for `msg` under `prefix`.
pub fn signed_message_bytes(prefix: &[u8], msg: &[u8]) -> (r: Vec<u8>)
    ensures
        r@ == signed_message(prefix@, msg@),
{
    let mut out: Vec<u8> = Vec::new();
    append_bytes(&mut out, prefix);
    push_compact_size(&mut out, msg.len() as u64);
    append_bytes(&mut out, msg);
    assert(out@ =~= signed_message(prefix@, msg@));
    out
}

/// The key hash carried by a base58check P2PKH address; `None` when the
/// checksum fails or nothing follows the version byte.
pub fn btc_public_key_from_p2pkh_address(address: &str) -> (r: Option<Vec<u8>>)
    ensures
        r matches Some(h) ==> address_key_hash(encode_utf8(address@)) == Some(h@),
        r is None ==> address_key_hash(encode_utf8(address@)) is None,
{
    match base58check_decode(address.as_bytes()) {
        Some(p) => if p.len() >= 2 {
            Some(slice_from(p.as_slice(), 1))
        } else {
            None
        },
        None => None,
    }
}

/// Checks the key recovered from the 65-byte `sig` over `digest` against
/// the key hash of `address`.
pub fn recovered_hash_check(digest: &[u8], sig: &[u8], recid: u8, compressed: bool, address: &str) -> (r: Result<(), VerifyFailure>)
    requires
        sig@.len() == 65,
    ensures
        r == recovered_hash_outcome(digest@, sig@, recid, compressed, encode_utf8(address@)),
{
    let expected = match btc_public_key_from_p2pkh_address(address) {
        Some(h) => h,
        None => return Err(VerifyFailure::InvalidSignatureEncoding),
    };
    let compact = slice_range(sig, 1, 65);
    let key = match secp256k1_recover(digest, compact.as_slice(), recid) {
        Some(k) => k,
        None => return Err(VerifyFailure::RecoveryFailure),
    };
    let serialized = if compressed {
        compress_key(key.as_slice())
    } else {
        key
    };
    let actual = hash160(serialized.as_slice());
    if bytes_equal(actual.as_slice(), expected.as_slice()) {
        Ok(())
    } else {
        Err(VerifyFailure::AddressMismatch)
    }
}

/// Checks a Bitcoin message signature: `data.signature` is the base64 of
/// the 65-byte signature and `data.identity` the claimed P2PKH address.
pub fn check_message(challenge: &str, data: &SignData) -> (r: Result<(), VerifyFailure>)
    ensures
        r == bitcoin_outcome(challenge@, data.signature@, data.identity@),
{
    let sig = match base64_decode(data.signature.as_str().as_bytes()) {
        Some(s) => s,
        None => return Err(VerifyFailure::InvalidSignatureEncoding),
    };
    if sig.len() != 65 {
        return Err(VerifyFailure::InvalidSignatureEncoding);
    }
    if sig[0] < 27 {
        return Err(VerifyFailure::InvalidSignatureEncoding);
    }
    let recid: u8 = (sig[0] - 27) % 4;
    let compressed: bool = ((sig[0] - 27) / 4) % 2 == 1;
    let preimage = signed_message_bytes("\x18Bitcoin Signed Message:\n".as_bytes(), challenge.as_bytes());
    let digest = sha256d(preimage.as_slice());
    recovered_hash_check(digest.as_slice(), sig.as_slice(), recid, compressed, data.identity.as_str())
}

/// Verifies a Bitcoin message signature: `data.signature` is the base64 of
/// the 65-byte signature and `data.identity` the claimed P2PKH address.
/// Any decoding failure gives `false`.
pub fn verify_message(challenge: &str, data: SignData) -> (r: bool)
    ensures
        r == bitcoin_signature_valid(challenge@, data.signature@, data.identity@),
{
    check_message(challenge, &data).is_ok()
}

} // verus!
