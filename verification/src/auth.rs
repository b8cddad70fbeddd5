//! Request signing for the venue's REST and WebSocket endpoints.
//!
//! A request is signed over the canonical text
//! `timestamp "\n" method "\n" target "\n" body` with HMAC-SHA256 under the
//! hex-decoded API secret; the tag travels base64-encoded (standard alphabet,
//! padded) next to the millisecond timestamp that was signed.

use vstd::prelude::*;
use vstd::string::*;
use vstd::utf8::encode_utf8;
use std::time::{SystemTime, SystemTimeError};
use core::time::Duration;
use hex::FromHexError;
use hmac::{Hmac, Mac};
use sha2::Sha256;
use base64::Engine;
use crate::text::{decimal_digits, u128_to_decimal};

verus! {

// ─── Outside types ──────────────────────────────────────────────────────────

#[verifier::external_type_specification]
#[verifier::external_body]
pub struct ExSystemTime(SystemTime);

#[verifier::external_type_specification]
#[verifier::external_body]
pub struct ExSystemTimeError(SystemTimeError);

#[verifier::external_type_specification]
#[verifier::external_body]
pub struct ExFromHexError(FromHexError);

// ─── Hex ────────────────────────────────────────────────────────────────────

pub open spec fn is_hex_digit(b: u8) -> bool {
    (48 <= b <= 57) || (65 <= b <= 70) || (97 <= b <= 102)
}

pub open spec fn hex_digit_value(b: u8) -> int {
    if 48 <= b <= 57 {
        b - 48
    } else if 65 <= b <= 70 {
        b - 55
    } else if 97 <= b <= 102 {
        b - 87
    } else {
        0
    }
}

/// An even number of hex digits (either case).
pub open spec fn is_hex_string(s: Seq<u8>) -> bool {
    &&& s.len() % 2 == 0
    &&& forall|i: int| 0 <= i < s.len() ==> #[trigger] is_hex_digit(s[i])
}

/// The bytes that a string of hex digit pairs stands for, high nibble first.
pub open spec fn hex_bytes(s: Seq<u8>) -> Seq<u8> {
    Seq::new(
        s.len() / 2,
        |i: int| (hex_digit_value(s[2 * i]) * 16 + hex_digit_value(s[2 * i + 1])) as u8,
    )
}

/// `hex::decode` on the UTF-8 bytes of `text`: it succeeds exactly when the
/// bytes are an even number of hex digits (upper or lower case), and then
/// gives one byte per digit pair, the first digit of the pair as the high
/// nibble. On failure it reports the odd length or the offending character.
#[verifier::external_body]
fn hex_decode(text: &str) -> (res: Result<Vec<u8>, FromHexError>)
    ensures
        res is Ok <==> is_hex_string(text.spec_bytes()),
        res matches Ok(bytes) ==> bytes@ == hex_bytes(text.spec_bytes()),
{
    hex::decode(text)
}

/// Whether `secret_hex` is a usable API secret: an even number of hex digits.
pub fn is_hex_secret(secret_hex: &str) -> (r: bool)
    ensures
        r == is_hex_string(secret_hex.spec_bytes()),
{
    let bytes = secret_hex.as_bytes();
    let n = bytes.len();
    if n % 2 != 0 {
        return false;
    }
    let mut i: usize = 0;
    while i < n
        invariant
            n == bytes@.len(),
            bytes@ == secret_hex.spec_bytes(),
            i <= n,
            forall|j: int| 0 <= j < i ==> #[trigger] is_hex_digit(bytes@[j]),
        decreases n - i,
    {
        let b = bytes[i];
        if !((48 <= b && b <= 57) || (65 <= b && b <= 70) || (97 <= b && b <= 102)) {
            assert(!is_hex_digit(bytes@[i as int]));
            return false;
        }
        i = i + 1;
    }
    true
}

// ─── MAC and encoding ───────────────────────────────────────────────────────

/// HMAC-SHA256 of `message` under `key` (RFC 2104 over FIPS 180-4 SHA-256).
pub uninterp spec fn hmac_sha256(key: Seq<u8>, message: Seq<u8>) -> Seq<u8>;

/// The character for a 6-bit value in the standard base64 alphabet
/// (RFC 4648 §4): A–Z, a–z, 0–9, '+', '/'.
pub open spec fn base64_char(v: int) -> char {
    if v < 26 {
        (65 + v) as char
    } else if v < 52 {
        (97 + v - 26) as char
    } else if v < 62 {
        (48 + v - 52) as char
    } else if v == 62 {
        '+'
    } else {
        '/'
    }
}

/// Base64 of `data` in the standard alphabet, with `=` padding: each group
/// of three bytes (24 bits) gives four characters of six bits each, high
/// bits first; a final group of one or two bytes is filled with zero bits
/// and padded to four characters with '='.
pub open spec fn base64_standard(d: Seq<u8>) -> Seq<char>
    decreases d.len(),
{
    if d.len() == 0 {
        Seq::empty()
    } else if d.len() == 1 {
        let n = d[0] as int;
        seq![base64_char(n / 4), base64_char((n % 4) * 16), '=', '=']
    } else if d.len() == 2 {
        let n = d[0] * 256 + d[1];
        seq![base64_char(n / 1024), base64_char((n / 16) % 64), base64_char((n % 16) * 4), '=']
    } else {
        let n = d[0] * 65536 + d[1] * 256 + d[2];
        seq![base64_char(n / 262144), base64_char((n / 4096) % 64), base64_char((n / 64) % 64), base64_char(n % 64)]
            + base64_standard(d.subrange(3, d.len() as int))
    }
}

/// Padded base64 has four characters per started group of three bytes.
pub proof fn lemma_base64_len(d: Seq<u8>)
    ensures
        base64_standard(d).len() == (d.len() + 2) / 3 * 4,
    decreases d.len(),
{
    if d.len() >= 3 {
        lemma_base64_len(d.subrange(3, d.len() as int));
    }
}

/// The padding of base64: no character of the alphabet is '='; an input
/// whose length leaves two bytes over ends in exactly one '=', one that
/// leaves one byte over ends in exactly two.
pub proof fn lemma_base64_padding(d: Seq<u8>)
    ensures
        ({
            let e = base64_standard(d);
            &&& d.len() % 3 == 2 ==> e.len() >= 4 && e.last() == '=' && e[e.len() - 2] != '='
            &&& d.len() % 3 == 1 ==> e.len() >= 4 && e.last() == '=' && e[e.len() - 2] == '='
                && e[e.len() - 3] != '='
            &&& d.len() % 3 == 0 ==> forall|i: int| 0 <= i < e.len() ==> e[i] != '='
        }),
    decreases d.len(),
{
    lemma_base64_len(d);
    if d.len() >= 3 {
        let rest = d.subrange(3, d.len() as int);
        lemma_base64_padding(rest);
        lemma_base64_len(rest);
        let n = d[0] * 65536 + d[1] * 256 + d[2];
        let g = seq![base64_char(n / 262144), base64_char((n / 4096) % 64), base64_char((n / 64) % 64), base64_char(n % 64)];
        let e = base64_standard(d);
        assert(e == g + base64_standard(rest));
        assert forall|i: int| 0 <= i < e.len() implies (i < 4 ==> e[i] != '=') && (i >= 4 ==> e[i] == base64_standard(rest)[i - 4]) by {
            if i < 4 {
                assert(e[i] == g[i]);
            }
        }
    }
}

/// The 32-byte HMAC-SHA256 tag that `hmac::Hmac::<sha2::Sha256>` computes
/// for `message` under `key`: `new_from_slice` (which accepts keys of any
/// length), one `update` with the whole message, then `finalize`.
#[verifier::external_body]
fn hmac_sha256_tag(key: &[u8], message: &[u8]) -> (tag: Vec<u8>)
    ensures
        tag@ == hmac_sha256(key@, message@),
        tag@.len() == 32,
{
    let mut mac = <Hmac<Sha256> as Mac>::new_from_slice(key).expect("HMAC accepts keys of any length");
    mac.update(message);
    mac.finalize().into_bytes().to_vec()
}

/// `base64::engine::general_purpose::STANDARD.encode`: the padded
/// standard-alphabet encoding of `data`. It needs the output length, four
/// characters per started group of three bytes, to fit in a `usize`.
#[verifier::external_body]
fn base64_encode(data: &[u8]) -> (text: String)
    requires
        (data@.len() + 2) / 3 * 4 <= usize::MAX,
    ensures
        text@ == base64_standard(data@),
{
    base64::engine::general_purpose::STANDARD.encode(data)
}

// ─── Clock ──────────────────────────────────────────────────────────────────

pub assume_specification[ SystemTime::now ]() -> SystemTime;

pub assume_specification[ SystemTime::duration_since ](
    t: &SystemTime,
    earlier: SystemTime,
) -> Result<Duration, SystemTimeError>;

pub assume_specification[ Duration::as_millis ](d: &Duration) -> u128;

/// `std::time::UNIX_EPOCH`, the instant 1970-01-01 00:00:00 UTC.
#[verifier::external_body]
fn unix_epoch() -> SystemTime {
    std::time::UNIX_EPOCH
}

/// Milliseconds since the Unix epoch on the system clock; `None` when the
/// clock reads a time before the epoch.
fn unix_millis_now() -> Option<u128> {
    let now = SystemTime::now();
    match now.duration_since(unix_epoch()) {
        Ok(d) => Some(d.as_millis()),
        Err(_) => None,
    }
}

// ─── Signing ────────────────────────────────────────────────────────────────

/// The text that is signed: timestamp, method, target and body, one per line.
pub open spec fn canonical_request(
    ts: Seq<char>,
    method: Seq<char>,
    target: Seq<char>,
    body: Seq<char>,
) -> Seq<char> {
    ts + seq!['\n'] + method + seq!['\n'] + target + seq!['\n'] + body
}

/// The signature header for a request signed at timestamp text `ts`.
pub open spec fn request_signature(
    ts: Seq<char>,
    method: Seq<char>,
    target: Seq<char>,
    body: Seq<char>,
    secret_hex: Seq<char>,
) -> Seq<char> {
    base64_standard(
        hmac_sha256(
            hex_bytes(encode_utf8(secret_hex)),
            encode_utf8(canonical_request(ts, method, target, body)),
        ),
    )
}

/// Builds the canonical request text.
pub fn canonical_text(ts: &str, method: &str, target: &str, body: &str) -> (s: String)
    ensures
        s@ == canonical_request(ts@, method@, target@, body@),
{
    proof { reveal_strlit("\n"); }
    let mut s = ts.to_owned();
    s.append("\n");
    s.append(method);
    s.append("\n");
    s.append(target);
    s.append("\n");
    s.append(body);
    s
}

/// Signs a request at the given millisecond timestamp: returns the
/// timestamp header (decimal milliseconds) and the signature header.
pub fn sign_request_at(
    ts_millis: u128,
    method: &str,
    target: &str,
    body: &str,
    secret_hex: &str,
) -> (res: (String, String))
    requires
        is_hex_string(secret_hex.spec_bytes()),
    ensures
        res.0@ == decimal_digits(ts_millis as nat),
        res.1@ == request_signature(res.0@, method@, target@, body@, secret_hex@),
        res.1@.len() == 44,
        exists|tag: Seq<u8>| tag.len() == 32 && res.1@ == #[trigger] base64_standard(tag),
        res.1@.last() == '=' && res.1@[42] != '=',
{
    let ts = u128_to_decimal(ts_millis);
    let canonical = canonical_text(ts.as_str(), method, target, body);
    let key = match hex_decode(secret_hex) {
        Ok(bytes) => bytes,
        Err(_) => {
            return vstd::pervasive::unreached();
        },
    };
    let tag = hmac_sha256_tag(key.as_slice(), canonical.as_str().as_bytes());
    let sig = base64_encode(tag.as_slice());
    proof {
        lemma_base64_len(tag@);
        lemma_base64_padding(tag@);
    }
    (ts, sig)
}

/// Signs a request at the current time. `None` when the system clock reads a
/// time before the Unix epoch; otherwise the timestamp header is some decimal
/// millisecond count and the signature covers exactly that timestamp.
pub fn sign_request(method: &str, target: &str, body: &str, secret_hex: &str) -> (res: Option<(String, String)>)
    requires
        is_hex_string(secret_hex.spec_bytes()),
    ensures
        res matches Some(headers) ==> {
            &&& exists|t: nat| headers.0@ == #[trigger] decimal_digits(t)
            &&& headers.1@ == request_signature(headers.0@, method@, target@, body@, secret_hex@)
            &&& headers.1@.len() == 44
            &&& exists|tag: Seq<u8>| tag.len() == 32 && headers.1@ == #[trigger] base64_standard(tag)
            &&& headers.1@.last() == '=' && headers.1@[42] != '='
        },
{
    match unix_millis_now() {
        Some(ms) => Some(sign_request_at(ms, method, target, body, secret_hex)),
        None => None,
    }
}

/// The signed text holds every part of the request in order, one per
/// line: the timestamp, a newline, the method, a newline, the target, a
/// newline and the body, for every method and every body.
pub proof fn law_canonical_request_layout(ts: Seq<char>, method: Seq<char>, target: Seq<char>, body: Seq<char>)
    ensures
        ({
            let c = canonical_request(ts, method, target, body);
            let m: int = ts.len() as int + 1;
            let t: int = m + method.len() + 1;
            let b: int = t + target.len() + 1;
            &&& c.len() == ts.len() + method.len() + target.len() + body.len() + 3
            &&& c.subrange(0, ts.len() as int) == ts
            &&& c[ts.len() as int] == '\n'
            &&& c.subrange(m, m + method.len()) == method
            &&& c[m + method.len()] == '\n'
            &&& c.subrange(t, t + target.len()) == target
            &&& c[t + target.len()] == '\n'
            &&& c.subrange(b, c.len() as int) == body
        }),
{
    let c = canonical_request(ts, method, target, body);
    let m: int = ts.len() as int + 1;
    let t: int = m + method.len() + 1;
    let b: int = t + target.len() + 1;
    assert(c.subrange(0, ts.len() as int) =~= ts);
    assert(c.subrange(m, m + method.len()) =~= method);
    assert(c.subrange(t, t + target.len()) =~= target);
    assert(c.subrange(b, c.len() as int) =~= body);
}


/// Hex digits of either case stand for their values (0–9, a–f and A–F for
/// 10–15), and every byte is given back by its two digits, high nibble
/// first, in lower or upper case.
pub proof fn law_hex_digits(x: u8)
    ensures
        forall|b: u8| 48 <= b <= 57 ==> #[trigger] hex_digit_value(b) == b - 48 && is_hex_digit(b),
        forall|b: u8| 97 <= b <= 102 ==> #[trigger] hex_digit_value(b) == b - 97 + 10 && is_hex_digit(b),
        forall|b: u8| 65 <= b <= 70 ==> #[trigger] hex_digit_value(b) == b - 65 + 10 && is_hex_digit(b),
        ({
            let hi = x / 16;
            let lo = x % 16;
            let lower = |v: int| (if v < 10 { 48 + v } else { 87 + v }) as u8;
            let upper = |v: int| (if v < 10 { 48 + v } else { 55 + v }) as u8;
            &&& hex_bytes(seq![lower(hi as int), lower(lo as int)]) == seq![x]
            &&& hex_bytes(seq![upper(hi as int), upper(lo as int)]) == seq![x]
            &&& is_hex_string(seq![lower(hi as int), lower(lo as int)])
        }),
{
    let hi = x / 16;
    let lo = x % 16;
    let lower = |v: int| (if v < 10 { 48 + v } else { 87 + v }) as u8;
    let upper = |v: int| (if v < 10 { 48 + v } else { 55 + v }) as u8;
    assert(hex_bytes(seq![lower(hi as int), lower(lo as int)]) =~= seq![x]);
    assert(hex_bytes(seq![upper(hi as int), upper(lo as int)]) =~= seq![x]);
}

} // verus!
