//! The challenge a member signs to bind a chat account to a wallet:
//! `"My tgid: <account id> - My DoB: <birth date>"`, the date written
//! `YYYY-MM-DD` (a year outside 0..=9999 carries its sign and at least
//! four digits).

use vstd::prelude::*;
use vstd::utf8::{decode_utf8, encode_utf8, valid_utf8};
use crate::btc::append_bytes;
use crate::ckb::CkbNetwork;
use crate::evm::{decimal, push_decimal};
use crate::policy::Date;
use crate::types::SignData;
use crate::verify::{signature_valid, verify_message};

verus! {

/// `n` in decimal, left-padded with zeros to `width` digits.
pub open spec fn padded(n: nat, width: nat) -> Seq<u8> {
    Seq::new(if decimal(n).len() < width { (width - decimal(n).len()) as nat } else { 0 }, |i: int| 48u8) + decimal(n)
}

/// How a year is written.
pub open spec fn year_text(y: int) -> Seq<u8> {
    if 0 <= y <= 9999 {
        padded(y as nat, 4)
    } else if y < 0 {
        seq![45u8] + padded((-y) as nat, 4)
    } else {
        seq![43u8] + padded(y as nat, 4)
    }
}

/// How a date is written: year, month and day joined by `-`.
pub open spec fn date_text(d: Date) -> Seq<u8> {
    year_text(d.year as int) + seq![45u8] + padded(d.month as nat, 2) + seq![45u8] + padded(d.day as nat, 2)
}

/// `n` in decimal, with a `-` when negative.
pub open spec fn signed_decimal(n: int) -> Seq<u8> {
    if n < 0 {
        seq![45u8] + decimal((-n) as nat)
    } else {
        decimal(n as nat)
    }
}

/// The bytes of the challenge for account `tgid` born on `dob`.
pub open spec fn challenge_bytes(tgid: i64, dob: Date) -> Seq<u8> {
    encode_utf8("My tgid: "@) + signed_decimal(tgid as int) + encode_utf8(" - My DoB: "@) + date_text(dob)
}

/// The challenge text for account `tgid` born on `dob`.
pub open spec fn challenge_text(tgid: i64, dob: Date) -> Seq<char> {
    decode_utf8(challenge_bytes(tgid, dob))
}

/// Every byte is ASCII.
pub open spec fn ascii(b: Seq<u8>) -> bool {
    forall|i: int| 0 <= i < b.len() ==> #[trigger] b[i] < 128
}

proof fn lemma_ascii_valid(b: Seq<u8>)
    requires
        ascii(b),
    ensures
        valid_utf8(b),
    decreases b.len(),
{
    if b.len() > 0 {
        assert(b[0] < 128);
        assert(vstd::utf8::valid_first_scalar(b));
        assert(vstd::utf8::pop_first_scalar(b) == b.subrange(1, b.len() as int));
        lemma_ascii_valid(b.subrange(1, b.len() as int));
    }
}

proof fn lemma_decimal_ascii(n: nat)
    ensures
        ascii(decimal(n)),
        decimal(n).len() >= 1,
    decreases n,
{
    if n >= 10 {
        lemma_decimal_ascii(n / 10);
    }
}

/// Relies on `String::from_utf8`: it accepts exactly the valid UTF-8 byte
/// strings, and the text it returns is made of those bytes.
#[verifier::external_body]
fn text_from_utf8(b: Vec<u8>) -> (r: Option<String>)
    ensures
        r is Some <==> valid_utf8(b@),
        r matches Some(s) ==> encode_utf8(s@) == b@,
{
    String::from_utf8(b).ok()
}

fn push_padded(out: &mut Vec<u8>, n: u64, width: usize)
    requires
        width <= 4,
    ensures
        final(out)@ == old(out)@ + padded(n as nat, width as nat),
{
    let mut digits: Vec<u8> = Vec::new();
    push_decimal(&mut digits, n);
    assert(digits@ =~= decimal(n as nat));
    let mut k: usize = digits.len();
    let ghost start = out@;
    while k < width
        invariant
            digits@ == decimal(n as nat),
            digits@.len() <= k <= width || width < digits@.len() == k,
            out@ == start + Seq::new((k - digits@.len()) as nat, |i: int| 48u8),
        decreases width - k,
    {
        out.push(48u8);
        k = k + 1;
        assert(out@ =~= start + Seq::new((k - digits@.len()) as nat, |i: int| 48u8));
    }
    append_bytes(out, digits.as_slice());
    assert(out@ =~= start + padded(n as nat, width as nat));
}

fn push_signed_decimal(out: &mut Vec<u8>, n: i64)
    ensures
        final(out)@ == old(out)@ + signed_decimal(n as int),
{
    let ghost start = out@;
    if n < 0 {
        out.push(45u8);
        let magnitude: u64 = (0i128 - n as i128) as u64;
        push_decimal(out, magnitude);
        assert(out@ =~= start + signed_decimal(n as int));
    } else {
        push_decimal(out, n as u64);
    }
}

fn push_year(out: &mut Vec<u8>, year: i32)
    ensures
        final(out)@ == old(out)@ + year_text(year as int),
{
    let ghost start = out@;
    if year < 0 {
        out.push(45u8);
        push_padded(out, (0i64 - year as i64) as u64, 4);
        assert(out@ =~= start + year_text(year as int));
    } else if year > 9999 {
        out.push(43u8);
        push_padded(out, year as u64, 4);
        assert(out@ =~= start + year_text(year as int));
    } else {
        push_padded(out, year as u64, 4);
    }
}

fn push_date(out: &mut Vec<u8>, d: Date)
    ensures
        final(out)@ == old(out)@ + date_text(d),
{
    let ghost start = out@;
    push_year(out, d.year);
    out.push(45u8);
    push_padded(out, d.month as u64, 2);
    out.push(45u8);
    push_padded(out, d.day as u64, 2);
    assert(out@ =~= start + date_text(d));
}

/// The bytes of the challenge for account `tgid` born on `dob`.
pub fn challenge_message(tgid: i64, dob: Date) -> (r: Vec<u8>)
    ensures
        r@ == challenge_bytes(tgid, dob),
{
    let mut out: Vec<u8> = Vec::new();
    append_bytes(&mut out, "My tgid: ".as_bytes());
    push_signed_decimal(&mut out, tgid);
    append_bytes(&mut out, " - My DoB: ".as_bytes());
    push_date(&mut out, dob);
    assert(out@ =~= challenge_bytes(tgid, dob));
    out
}

proof fn lemma_challenge_ascii(tgid: i64, dob: Date)
    ensures
        ascii(challenge_bytes(tgid, dob)),
{
    reveal_strlit("My tgid: ");
    reveal_strlit(" - My DoB: ");
    vstd::utf8::is_ascii_chars_encode_utf8("My tgid: "@);
    vstd::utf8::is_ascii_chars_encode_utf8(" - My DoB: "@);
    lemma_decimal_ascii((if tgid < 0 { -tgid } else { tgid as int }) as nat);
    lemma_decimal_ascii((if dob.year < 0 { -dob.year } else { dob.year as int }) as nat);
    lemma_decimal_ascii(dob.month as nat);
    lemma_decimal_ascii(dob.day as nat);
    assert(ascii(challenge_bytes(tgid, dob)));
}

/// The challenge for account `tgid` born on `dob`, as text.
pub fn challenge_for(tgid: i64, dob: Date) -> (r: String)
    ensures
        encode_utf8(r@) == challenge_bytes(tgid, dob),
        r@ == challenge_text(tgid, dob),
{
    let bytes = challenge_message(tgid, dob);
    proof {
        lemma_challenge_ascii(tgid, dob);
        lemma_ascii_valid(bytes@);
    }
    match text_from_utf8(bytes) {
        Some(s) => {
            proof {
                vstd::utf8::encode_utf8_decode_utf8(s@);
            }
            s
        },
        None => String::new(),
    }
}

/// Verifies that `data` signs the challenge of account `tgid` born on `dob`.
pub fn verify_member_signature(tgid: i64, dob: Date, data: SignData, network: CkbNetwork) -> (r: bool)
    ensures
        r == signature_valid(challenge_text(tgid, dob), data, network),
{
    let challenge = challenge_for(tgid, dob);
    verify_message(challenge.as_str(), data, network)
}

} // verus!
