//! Encodings shared by the signature schemes: hexadecimal, base64,
//! base58check, the `0x` marker that wallets put in front of hex, decimal
//! digits, and string and integer fields of JSON texts.

use vstd::prelude::*;
use vstd::utf8::encode_utf8;
use base64::Engine;

verus! {

broadcast use vstd::utf8::encode_utf8_decode_utf8;

/// The value of one hexadecimal digit (either case), if `c` is one.
pub open spec fn hex_digit(c: u8) -> Option<u8> {
    if 48 <= c <= 57 {
        Some((c - 48) as u8)
    } else if 97 <= c <= 102 {
        Some((c - 87) as u8)
    } else if 65 <= c <= 70 {
        Some((c - 55) as u8)
    } else {
        None
    }
}

/// `s` is an even number of hexadecimal digits.
pub open spec fn is_hex(s: Seq<u8>) -> bool {
    &&& s.len() % 2 == 0
    &&& forall|i: int| 0 <= i < s.len() ==> (#[trigger] hex_digit(s[i])) is Some
}

/// The bytes that a string of hex digits spells, two digits per byte,
/// high nibble first.
pub open spec fn hex_bytes(s: Seq<u8>) -> Seq<u8> {
    Seq::new(
        s.len() / 2,
        |i: int| (hex_digit(s[2 * i])->0 * 16 + hex_digit(s[2 * i + 1])->0) as u8,
    )
}

/// What decoding `s` as hex gives: the bytes, or nothing when `s` is not hex.
pub open spec fn hex_decoded(s: Seq<u8>) -> Option<Seq<u8>> {
    if is_hex(s) {
        Some(hex_bytes(s))
    } else {
        None
    }
}

/// `s` with every occurrence of `0x` removed, scanning left to right.
pub open spec fn without_0x(s: Seq<u8>) -> Seq<u8>
    decreases s.len(),
{
    if s.len() == 0 {
        s
    } else if s.len() >= 2 && s[0] == 48 && s[1] == 120 {
        without_0x(s.subrange(2, s.len() as int))
    } else {
        seq![s[0]] + without_0x(s.subrange(1, s.len() as int))
    }
}

/// `s` without one leading `0x`, if it has one.
pub open spec fn strip_0x(s: Seq<u8>) -> Seq<u8> {
    if s.len() >= 2 && s[0] == 48 && s[1] == 120 {
        s.subrange(2, s.len() as int)
    } else {
        s
    }
}

/// `needle` occurs in `hay` as a contiguous run of bytes.
pub open spec fn contains_run(hay: Seq<u8>, needle: Seq<u8>) -> bool {
    exists|k: int| 0 <= k && k + needle.len() <= hay.len() && #[trigger] hay.subrange(k, k + needle.len()) == needle
}

/// What the standard base64 alphabet, with padding, decodes `s` to.
pub uninterp spec fn base64_decoded(s: Seq<u8>) -> Option<Seq<u8>>;

/// What the URL-safe base64 alphabet, without padding, decodes `s` to.
pub uninterp spec fn base64url_decoded(s: Seq<u8>) -> Option<Seq<u8>>;

/// The URL-safe base64 text, without padding, of `b`.
pub uninterp spec fn base64url_text(b: Seq<u8>) -> Seq<char>;

/// The payload (version byte included, checksum removed) that the
/// base58check text `s` carries, if its checksum holds.
pub uninterp spec fn base58check_payload(s: Seq<u8>) -> Option<Seq<u8>>;

/// Relies on `hex::decode`: an even number of digits `0-9a-fA-F`, two per
/// byte with the high nibble first; anything else is an error.
#[verifier::external_body]
pub(crate) fn hex_decode(s: &[u8]) -> (r: Option<Vec<u8>>)
    ensures
        r is Some <==> is_hex(s@),
        r matches Some(v) ==> v@ == hex_bytes(s@),
{
    hex::decode(s).ok()
}

/// Relies on base64's `STANDARD` engine `decode`.
#[verifier::external_body]
pub(crate) fn base64_decode(s: &[u8]) -> (r: Option<Vec<u8>>)
    ensures
        r matches Some(v) ==> base64_decoded(s@) == Some(v@),
        r is None ==> base64_decoded(s@) is None,
{
    base64::engine::general_purpose::STANDARD.decode(s).ok()
}

/// Relies on base64's `URL_SAFE_NO_PAD` engine `decode`.
#[verifier::external_body]
pub(crate) fn base64url_decode(s: &[u8]) -> (r: Option<Vec<u8>>)
    ensures
        r matches Some(v) ==> base64url_decoded(s@) == Some(v@),
        r is None ==> base64url_decoded(s@) is None,
{
    base64::engine::general_purpose::URL_SAFE_NO_PAD.decode(s).ok()
}

/// Relies on base64's `URL_SAFE_NO_PAD` engine `encode`.
#[verifier::external_body]
pub(crate) fn base64url_encode(b: &[u8]) -> (r: String)
    ensures
        r@ == base64url_text(b@),
{
    base64::engine::general_purpose::URL_SAFE_NO_PAD.encode(b)
}

/// Relies on `bs58::decode(..).with_check(None).into_vec()`: the decoded
/// bytes with the four checksum bytes taken off, once the checksum matches.
#[verifier::external_body]
pub(crate) fn base58check_decode(s: &[u8]) -> (r: Option<Vec<u8>>)
    ensures
        r matches Some(v) ==> base58check_payload(s@) == Some(v@),
        r is None ==> base58check_payload(s@) is None,
{
    bs58::decode(s).with_check(None).into_vec().ok()
}

/// Removes every `0x` from `s`, as a wallet's hex text may carry it.
pub fn remove_0x(s: &[u8]) -> (r: Vec<u8>)
    ensures
        r@ == without_0x(s@),
{
    let mut out: Vec<u8> = Vec::new();
    let mut i: usize = 0;
    assert(s@.subrange(0, s@.len() as int) == s@);
    assert(out@ + without_0x(s@) == without_0x(s@));
    while i < s.len()
        invariant
            i <= s@.len(),
            out@ + without_0x(s@.subrange(i as int, s@.len() as int)) == without_0x(s@),
        decreases s@.len() - i,
    {
        let rest = Ghost(s@.subrange(i as int, s@.len() as int));
        if i + 1 < s.len() && s[i] == 48u8 && s[i + 1] == 120u8 {
            assert(rest@.subrange(2, rest@.len() as int) == s@.subrange(i + 2, s@.len() as int));
            i = i + 2;
        } else {
            assert(rest@.subrange(1, rest@.len() as int) == s@.subrange(i + 1, s@.len() as int));
            out.push(s[i]);
            i = i + 1;
        }
    }
    assert(s@.subrange(i as int, s@.len() as int).len() == 0);
    assert(out@ + seq![] == out@);
    out
}

/// `s` without one leading `0x`.
pub fn strip_0x_prefix(s: &[u8]) -> (r: Vec<u8>)
    ensures
        r@ == strip_0x(s@),
{
    let start: usize = if s.len() >= 2 && s[0] == 48u8 && s[1] == 120u8 {
        2
    } else {
        0
    };
    slice_from(s, start)
}

/// The bytes of `s` from `start` on.
pub fn slice_from(s: &[u8], start: usize) -> (r: Vec<u8>)
    requires
        start <= s@.len(),
    ensures
        r@ == s@.subrange(start as int, s@.len() as int),
{
    slice_range(s, start, s.len())
}

/// The bytes of `s` from `start` up to `end`.
pub fn slice_range(s: &[u8], start: usize, end: usize) -> (r: Vec<u8>)
    requires
        start <= end <= s@.len(),
    ensures
        r@ == s@.subrange(start as int, end as int),
{
    let mut out: Vec<u8> = Vec::new();
    let mut i: usize = start;
    while i < end
        invariant
            start <= i <= end <= s@.len(),
            out@ == s@.subrange(start as int, i as int),
        decreases end - i,
    {
        out.push(s[i]);
        i = i + 1;
        assert(out@ == s@.subrange(start as int, i as int));
    }
    out
}

/// Byte-for-byte equality.
pub fn bytes_equal(a: &[u8], b: &[u8]) -> (r: bool)
    ensures
        r == (a@ == b@),
{
    if a.len() != b.len() {
        return false;
    }
    let mut i: usize = 0;
    while i < a.len()
        invariant
            i <= a@.len() == b@.len(),
            forall|j: int| 0 <= j < i ==> a@[j] == b@[j],
        decreases a@.len() - i,
    {
        if a[i] != b[i] {
            return false;
        }
        i = i + 1;
    }
    assert(a@ =~= b@);
    true
}

/// Whether two texts are the same.
pub fn same_text(a: &str, b: &str) -> (r: bool)
    ensures
        r == (a@ == b@),
{
    let r = bytes_equal(a.as_bytes(), b.as_bytes());
    proof {
        if r {
            assert(vstd::utf8::decode_utf8(encode_utf8(a@)) == a@);
            assert(vstd::utf8::decode_utf8(encode_utf8(b@)) == b@);
        }
    }
    r
}

/// Whether `needle` occurs in `hay` as a contiguous run.
pub fn find_run(hay: &[u8], needle: &[u8]) -> (r: bool)
    ensures
        r == contains_run(hay@, needle@),
{
    if needle.len() > hay.len() {
        return false;
    }
    let mut k: usize = 0;
    while k <= hay.len() - needle.len()
        invariant
            needle@.len() <= hay@.len() <= usize::MAX,
            k <= hay@.len() - needle@.len() + 1,
            forall|j: int| 0 <= j < k ==> #[trigger] hay@.subrange(j, j + needle@.len()) != needle@,
        decreases hay@.len() - k,
    {
        let mut i: usize = 0;
        let mut same = true;
        while i < needle.len()
            invariant
                k + needle@.len() <= hay@.len() <= usize::MAX,
                i <= needle@.len(),
                same == (forall|j: int| 0 <= j < i ==> hay@[k + j] == needle@[j]),
            decreases needle@.len() - i,
        {
            let at: usize = k + i;
            if hay[at] != needle[i] {
                same = false;
            }
            i = i + 1;
        }
        if same {
            assert(hay@.subrange(k as int, k + needle@.len()) =~= needle@);
            return true;
        }
        assert(hay@.subrange(k as int, k + needle@.len()) != needle@) by {
            if hay@.subrange(k as int, k + needle@.len()) == needle@ {
                assert forall|j: int| 0 <= j < needle@.len() implies hay@[k + j] == needle@[j] by {
                    assert(hay@.subrange(k as int, k + needle@.len())[j] == hay@[k + j]);
                }
            }
        }
        k = k + 1;
    }
    assert forall|j: int| 0 <= j && j + needle@.len() <= hay@.len() implies #[trigger] hay@.subrange(j, j + needle@.len()) != needle@ by {
        assert(j < k);
    }
    false
}

/// `s` is a non-empty run of decimal digits.
pub open spec fn all_digits(s: Seq<u8>) -> bool {
    s.len() > 0 && forall|i: int| 0 <= i < s.len() ==> 48 <= #[trigger] s[i] <= 57
}

/// The number that decimal digits spell.
pub open spec fn digits_value(s: Seq<u8>) -> nat
    decreases s.len(),
{
    if s.len() == 0 {
        0
    } else {
        (digits_value(s.drop_last()) * 10 + (s.last() - 48)) as nat
    }
}

/// The number that the text `s` spells in decimal digits, if it is one no
/// larger than `max`.
pub open spec fn decimal_number(s: Seq<u8>, max: nat) -> Option<nat> {
    if all_digits(s) && digits_value(s) <= max {
        Some(digits_value(s))
    } else {
        None
    }
}

/// Reads a run of decimal digits as a `u128`; `None` for anything else,
/// or a number that does not fit.
pub fn parse_digits(s: &[u8]) -> (r: Option<u128>)
    ensures
        r matches Some(v) ==> decimal_number(s@, u128::MAX as nat) == Some(v as nat),
        r is None ==> decimal_number(s@, u128::MAX as nat) is None,
{
    if s.len() == 0 {
        return None;
    }
    let mut v: u128 = 0;
    let mut i: usize = 0;
    while i < s.len()
        invariant
            0 < s@.len(),
            i <= s@.len(),
            all_digits(s@.subrange(0, i as int)) || i == 0,
            v == digits_value(s@.subrange(0, i as int)),
        decreases s@.len() - i,
    {
        let ghost prefix = s@.subrange(0, i + 1);
        assert(prefix.drop_last() == s@.subrange(0, i as int));
        let c = s[i];
        if c < 48 || c > 57 {
            proof {
                assert(!all_digits(s@)) by {
                    assert(!(48 <= s@[i as int] <= 57));
                }
            }
            return None;
        }
        let d: u128 = (c - 48) as u128;
        if v > (u128::MAX - d) / 10 {
            proof {
                assert(v * 10 + d > u128::MAX) by (nonlinear_arith)
                    requires
                        v > (u128::MAX - d) / 10,
                        d <= 9,
                ;
                if all_digits(s@) {
                    lemma_digits_grow(s@, i as int + 1);
                    assert(digits_value(prefix) == v * 10 + d);
                }
            }
            return None;
        }
        assert(v * 10 + d <= u128::MAX) by (nonlinear_arith)
            requires
                v <= (u128::MAX - d) / 10,
                d <= 9,
        ;
        v = v * 10 + d;
        i = i + 1;
        assert(all_digits(s@.subrange(0, i as int))) by {
            assert forall|j: int| 0 <= j < i implies 48 <= #[trigger] s@.subrange(0, i as int)[j] <= 57 by {
                if j < i - 1 {
                    assert(s@.subrange(0, i as int)[j] == s@.subrange(0, i - 1)[j]);
                }
            }
        }
    }
    assert(s@.subrange(0, s@.len() as int) == s@);
    Some(v)
}

proof fn lemma_digits_grow(s: Seq<u8>, n: int)
    requires
        0 < n <= s.len(),
        all_digits(s),
    ensures
        digits_value(s) >= digits_value(s.subrange(0, n)),
    decreases s.len() - n,
{
    if n < s.len() {
        lemma_digits_grow(s, n + 1);
        assert(s.subrange(0, n + 1).drop_last() == s.subrange(0, n));
    } else {
        assert(s.subrange(0, n) == s);
    }
}

/// The string held by field `key` of the JSON object text `json`.
pub uninterp spec fn json_string_field(json: Seq<char>, key: Seq<char>) -> Option<Seq<char>>;

/// The integer held by field `key` of the JSON object text `json`, if it
/// fits in 64 bits.
pub uninterp spec fn json_integer_field(json: Seq<char>, key: Seq<char>) -> Option<i64>;

/// Relies on `serde_json::from_str::<Value>`, `Value::get` and `Value::as_str`.
#[verifier::external_body]
pub(crate) fn json_string(json: &str, key: &str) -> (r: Option<String>)
    ensures
        r matches Some(s) ==> json_string_field(json@, key@) == Some(s@),
        r is None ==> json_string_field(json@, key@) is None,
{
    let v: serde_json::Value = serde_json::from_str(json).ok()?;
    v.get(key)?.as_str().map(String::from)
}

/// Relies on `serde_json::from_str::<Value>`, `Value::get` and `Value::as_i64`.
#[verifier::external_body]
pub(crate) fn json_integer(json: &str, key: &str) -> (r: Option<i64>)
    ensures
        r == json_integer_field(json@, key@),
{
    let v: serde_json::Value = serde_json::from_str(json).ok()?;
    v.get(key)?.as_i64()
}

} // verus!
