//! Hashes, signatures, encodings and identifiers that come from other crates.

use base64::Engine;
use ed25519_dalek::{Signer, Verifier};
use hmac::Mac;
use rand::Rng;
use sha2::Digest;
use subtle::ConstantTimeEq;
use vstd::prelude::*;

verus! {

/// The error of a MAC that is given a key of a length it cannot take.
#[verifier::external_type_specification]
#[verifier::external_body]
pub struct ExInvalidLength(hmac::digest::InvalidLength);

/// The SHA-256 digest of a message.
pub uninterp spec fn sha256_digest(message: Seq<u8>) -> Seq<u8>;

/// Calls `sha2::Sha256::digest`: the digest is a function of the message and
/// has 32 bytes.
#[verifier::external_body]
pub(crate) fn sha256(message: &[u8]) -> (r: Vec<u8>)
    ensures
        r@ == sha256_digest(message@),
        r@.len() == 32,
{
    sha2::Sha256::digest(message).to_vec()
}

/// The HMAC-SHA256 code of a message under a key.
pub uninterp spec fn hmac_sha256_code(key: Seq<u8>, message: Seq<u8>) -> Seq<u8>;

/// Calls `hmac::Hmac::<sha2::Sha256>::new_from_slice`, `update` and `finalize`:
/// a key of any length is taken, and the code of 32 bytes is a function of the
/// key and the message.
#[verifier::external_body]
pub(crate) fn hmac_sha256(key: &[u8], message: &[u8]) -> (r: Result<
    Vec<u8>,
    hmac::digest::InvalidLength,
>)
    ensures
        r is Ok,
        r->Ok_0@ == hmac_sha256_code(key@, message@),
        r->Ok_0@.len() == 32,
{
    let mut mac = hmac::Hmac::<sha2::Sha256>::new_from_slice(key)?;
    mac.update(message);
    Ok(mac.finalize().into_bytes().to_vec())
}

/// The lower-case hexadecimal digit of a number below 16.
pub open spec fn hex_digit(n: int) -> char {
    if n < 10 { (48 + n) as char } else { (87 + n) as char }
}

/// Bytes in lower-case hexadecimal notation, two digits for each byte.
pub open spec fn hex_text(bytes: Seq<u8>) -> Seq<char> {
    Seq::new(
        2 * bytes.len(),
        |i: int|
            if i % 2 == 0 {
                hex_digit(bytes[i / 2] as int / 16)
            } else {
                hex_digit(bytes[i / 2] as int % 16)
            },
    )
}

/// Calls `hex::encode`: two lower-case digits for each byte, the upper half of
/// the byte first.
#[verifier::external_body]
pub(crate) fn hex_encode(bytes: &[u8]) -> (r: String)
    requires
        2 * bytes@.len() <= isize::MAX,
    ensures
        r@ == hex_text(bytes@),
{
    hex::encode(bytes)
}

/// Calls `subtle::ConstantTimeEq::ct_eq` on two byte slices: whether they are
/// equal, length included. That the time taken does not depend on the contents
/// is not stated.
#[verifier::external_body]
pub(crate) fn constant_time_eq(a: &[u8], b: &[u8]) -> (r: bool)
    ensures
        r == (a@ == b@),
{
    a.ct_eq(b).into()
}

/// The character of the standard base64 alphabet for a number below 64.
pub open spec fn base64_digit(n: int) -> char {
    if n < 26 {
        (65 + n) as char
    } else if n < 52 {
        (71 + n) as char
    } else if n < 62 {
        (n - 4) as char
    } else if n == 62 {
        '+'
    } else {
        '/'
    }
}

/// Bytes in the standard base64 alphabet, padded: each three bytes give four
/// characters of six bits each, the highest first. Bytes that are missing from the
/// last three count as zero, and each of them turns a character into padding.
pub open spec fn base64_text(bytes: Seq<u8>) -> Seq<char> {
    let byte = |i: int| if i < bytes.len() { bytes[i] as int } else { 0 };
    Seq::new(
        4 * ((bytes.len() + 2) / 3),
        |i: int|
            {
                let at = 3 * (i / 4);
                let bits = 0x10000 * byte(at) + 0x100 * byte(at + 1) + byte(at + 2);
                if i % 4 == 0 {
                    base64_digit(bits / 0x40000)
                } else if i % 4 == 1 {
                    base64_digit(bits / 0x1000 % 64)
                } else if i % 4 == 2 {
                    if at + 1 < bytes.len() { base64_digit(bits / 64 % 64) } else { '=' }
                } else {
                    if at + 2 < bytes.len() { base64_digit(bits % 64) } else { '=' }
                }
            },
    )
}

/// Calls `encode` of `base64::engine::general_purpose::STANDARD`: the bytes in the
/// standard alphabet, with padding.
#[verifier::external_body]
pub(crate) fn base64_encode(bytes: &[u8]) -> (r: String)
    requires
        4 * ((bytes@.len() + 2) / 3) <= isize::MAX,
    ensures
        r@ == base64_text(bytes@),
{
    base64::engine::general_purpose::STANDARD.encode(bytes)
}

/// The number that a hexadecimal digit stands for, in either case.
pub open spec fn hex_value(b: u8) -> Option<int> {
    if 48 <= b <= 57 {
        Some(b - 48)
    } else if 65 <= b <= 70 {
        Some(b - 55)
    } else if 97 <= b <= 102 {
        Some(b - 87)
    } else {
        None
    }
}

/// Bytes with each percent sign that two hexadecimal digits follow replaced,
/// together with the digits, by the byte that they stand for.
pub open spec fn percent_bytes(bytes: Seq<u8>) -> Seq<u8>
    decreases bytes.len(),
{
    if bytes.len() == 0 {
        Seq::empty()
    } else if bytes[0] == 37 && bytes.len() >= 3 && hex_value(bytes[1]) is Some && hex_value(
        bytes[2],
    ) is Some {
        seq![(16 * hex_value(bytes[1])->Some_0 + hex_value(bytes[2])->Some_0) as u8]
            + percent_bytes(bytes.skip(3))
    } else {
        seq![bytes[0]] + percent_bytes(bytes.skip(1))
    }
}

/// A text with its percent-encoded bytes decoded, where the bytes that come out are
/// UTF-8.
pub open spec fn percent_decoded(text: Seq<char>) -> Option<Seq<char>> {
    let bytes = percent_bytes(vstd::utf8::encode_utf8(text));
    if vstd::utf8::valid_utf8(bytes) {
        Some(vstd::utf8::decode_utf8(bytes))
    } else {
        None
    }
}

/// Calls `percent_encoding::percent_decode_str` and `decode_utf8`: the text with its
/// percent-encoded bytes decoded, missing where what comes out is not UTF-8. A
/// percent sign that no two hexadecimal digits follow stays as it is.
#[verifier::external_body]
pub(crate) fn percent_decode(text: &str) -> (r: Option<String>)
    ensures
        crate::text::opt_view(r) == percent_decoded(text@),
{
    match percent_encoding::percent_decode_str(text).decode_utf8() {
        Ok(decoded) => Some(decoded.into_owned()),
        Err(_) => None,
    }
}

/// The media type that the leading bytes of a file point to.
pub uninterp spec fn detected_mime(bytes: Seq<u8>) -> Option<Seq<char>>;

/// Calls `infer::get` and `mime_type`: the media type is a function of the bytes.
#[verifier::external_body]
pub(crate) fn detect_mime(bytes: &[u8]) -> (r: Option<String>)
    ensures
        crate::text::opt_view(r) == detected_mime(bytes@),
{
    match infer::get(bytes) {
        Some(kind) => Some(kind.mime_type().to_string()),
        None => None,
    }
}

/// The 128-bit value of the UUID that a text denotes.
pub uninterp spec fn parsed_uuid(text: Seq<char>) -> Option<u128>;

/// Calls `uuid::Uuid::parse_str`: whether a text denotes a UUID, and which, is a
/// function of the text.
#[verifier::external_body]
pub(crate) fn parse_uuid(text: &str) -> (r: Option<u128>)
    ensures
        r == parsed_uuid(text@),
{
    match uuid::Uuid::parse_str(text) {
        Ok(id) => Some(id.as_u128()),
        Err(_) => None,
    }
}

/// Whether a 128-bit value has the form of a random UUID: version 4, in the variant
/// that the standard describes.
pub open spec fn is_random_uuid(id: u128) -> bool {
    &&& (id / 0x1000_0000_0000_0000_0000) % 16 == 4
    &&& (id / 0x4000_0000_0000_0000) % 4 == 2
}

/// Calls `uuid::Uuid::new_v4`: some UUID of the random form. How the values are
/// distributed is not stated.
#[verifier::external_body]
pub(crate) fn random_uuid() -> (r: u128)
    ensures
        is_random_uuid(r),
{
    uuid::Uuid::new_v4().as_u128()
}

/// The text of a UUID: its thirty-two lower-case hexadecimal digits, the highest first,
/// with hyphens.
pub open spec fn uuid_chars(id: u128) -> Seq<char> {
    crate::text::hyphenated(
        Seq::new(
            32,
            |i: int|
                hex_digit(id as int / vstd::arithmetic::power::pow(16, (31 - i) as nat) % 16),
        ),
    )
}

/// Calls `uuid::Uuid::from_u128` and `to_string`: the text of the UUID with the given
/// value.
#[verifier::external_body]
pub(crate) fn uuid_text(id: u128) -> (r: String)
    ensures
        r@ == uuid_chars(id),
{
    uuid::Uuid::from_u128(id).to_string()
}

/// The Ed25519 public key that belongs to a secret key.
pub uninterp spec fn ed25519_public_key(secret: Seq<u8>) -> Seq<u8>;

/// Calls `ed25519_dalek::SigningKey::from_bytes` and `verifying_key`: the public key of
/// 32 bytes is a function of the secret key.
#[verifier::external_body]
pub(crate) fn ed25519_public(secret: &[u8; 32]) -> (r: [u8; 32])
    ensures
        r@ == ed25519_public_key(secret@),
{
    ed25519_dalek::SigningKey::from_bytes(secret).verifying_key().to_bytes()
}

/// Whether a public key takes a signature for that of a message.
pub uninterp spec fn ed25519_accepts(
    public_key: Seq<u8>,
    message: Seq<u8>,
    signature: Seq<u8>,
) -> bool;

/// Calls `ed25519_dalek::VerifyingKey::from_bytes`, `Signature::from_slice` and `verify`:
/// whether the signature is accepted is a function of the key, the message and the
/// signature. Bytes that are no key or no signature accept nothing.
#[verifier::external_body]
pub(crate) fn ed25519_verify(public_key: &[u8; 32], message: &[u8], signature: &[u8]) -> (r: bool)
    ensures
        r == ed25519_accepts(public_key@, message@, signature@),
{
    match (
        ed25519_dalek::VerifyingKey::from_bytes(public_key),
        ed25519_dalek::Signature::from_slice(signature),
    ) {
        (Ok(key), Ok(signature)) => key.verify(message, &signature).is_ok(),
        _ => false,
    }
}

/// The Ed25519 signature of a message under a secret key.
pub uninterp spec fn ed25519_signature(secret: Seq<u8>, message: Seq<u8>) -> Seq<u8>;

/// Calls `ed25519_dalek::SigningKey::from_bytes` and `sign`: the signature of 64
/// bytes is a function of the secret key and the message, and the public key that
/// belongs to the secret key accepts it for that message. That it accepts it for no
/// other message is not stated: it rests on how hard collisions are to find.
#[verifier::external_body]
pub(crate) fn ed25519_sign(secret: &[u8; 32], message: &[u8]) -> (r: Vec<u8>)
    ensures
        r@ == ed25519_signature(secret@, message@),
        r@.len() == 64,
        ed25519_accepts(ed25519_public_key(secret@), message@, r@),
{
    ed25519_dalek::SigningKey::from_bytes(secret).sign(message).to_bytes().to_vec()
}

/// Calls `random_range` of `rand::rng()` on the numbers below a bound: one of them.
/// How the numbers are distributed is not stated.
#[verifier::external_body]
pub(crate) fn random_below(bound: u8) -> (r: u8)
    requires
        bound > 0,
    ensures
        r < bound,
{
    rand::rng().random_range(0..bound)
}

/// Whether a number of seconds since the epoch is a moment of the calendar, which
/// reaches from the year -262143 to the year 262142.
pub open spec fn calendar_has(seconds: i64) -> bool {
    -8_334_601_228_800 <= seconds <= 8_210_266_876_799
}

/// The moment of the given second, where the calendar reaches it.
pub(crate) fn calendar_moment(seconds: i64) -> (r: Option<i64>)
    ensures
        r == (if calendar_has(seconds) {
            Some(seconds)
        } else {
            None
        }),
{
    if -8_334_601_228_800 <= seconds && seconds <= 8_210_266_876_799 {
        Some(seconds)
    } else {
        None
    }
}

/// How a moment of the calendar is written: the date, the time to the second or to as
/// many thousandths as it needs, and `Z`.
pub uninterp spec fn calendar_chars(seconds: i64, nanos: u32) -> Seq<char>;

/// Calls `chrono::DateTime::from_timestamp`, which has every moment of the calendar,
/// and `to_rfc3339_opts` with `AutoSi` and `Z`: the text is a function of the moment.
#[verifier::external_body]
pub(crate) fn calendar_text(seconds: i64, nanos: u32) -> (r: Option<String>)
    requires
        nanos < 1_000_000_000,
    ensures
        crate::text::opt_view(r) == (if calendar_has(seconds) {
            Some(calendar_chars(seconds, nanos))
        } else {
            None
        }),
{
    match chrono::DateTime::from_timestamp(seconds, nanos) {
        Some(moment) => Some(moment.to_rfc3339_opts(chrono::SecondsFormat::AutoSi, true)),
        None => None,
    }
}

/// How a moment of the calendar is written with its distance from UTC: the date, the
/// time to the second or to as many thousandths as it needs, and `+00:00`.
pub uninterp spec fn stamped_chars(seconds: i64, nanos: u32) -> Seq<char>;

/// Calls `chrono::DateTime::from_timestamp`, which has every moment of the calendar,
/// and `to_rfc3339`: the text is a function of the moment.
#[verifier::external_body]
pub(crate) fn stamped_text(seconds: i64, nanos: u32) -> (r: Option<String>)
    requires
        nanos < 1_000_000_000,
    ensures
        crate::text::opt_view(r) == (if calendar_has(seconds) {
            Some(stamped_chars(seconds, nanos))
        } else {
            None
        }),
{
    match chrono::DateTime::from_timestamp(seconds, nanos) {
        Some(moment) => Some(moment.to_rfc3339()),
        None => None,
    }
}

/// Calls `str::parse` for a `stripe_billing::SubscriptionId`, which takes every text and
/// keeps it as it is.
#[verifier::external_body]
pub(crate) fn subscription_id(text: &str) -> (r: Result<String, String>)
    ensures
        match r {
            Ok(id) => id@ == text@,
            Err(_) => false,
        },
{
    match text.parse::<stripe_billing::SubscriptionId>() {
        Ok(id) => Ok(id.to_string()),
        Err(e) => Err(e.to_string()),
    }
}

/// Whether a text may be the value of a header: no control character but the tab.
pub open spec fn header_takes(value: Seq<char>) -> bool {
    forall|i: int|
        0 <= i < value.len() ==> (#[trigger] value[i] == '\t' || (value[i] as u32 >= 32
            && value[i] as u32 != 127))
}

/// Calls `http::HeaderValue::from_str`, which takes a text whose bytes are each the tab
/// or at least 32 and not 127. The bytes of a character beyond ASCII are all above 127.
#[verifier::external_body]
pub(crate) fn makes_header(value: &str) -> (r: bool)
    ensures
        r == header_takes(value@),
{
    axum::http::HeaderValue::from_str(value).is_ok()
}

/// Calls `std::str::from_utf8`: the text whose UTF-8 encoding the bytes are,
/// where there is one.
#[verifier::external_body]
pub(crate) fn utf8_text(bytes: &[u8]) -> (r: Option<String>)
    ensures
        match r {
            Some(s) => vstd::utf8::encode_utf8(s@) == bytes@,
            None => !vstd::utf8::valid_utf8(bytes@),
        },
{
    match std::str::from_utf8(bytes) {
        Ok(s) => Some(s.to_string()),
        Err(_) => None,
    }
}

/// Each byte is two digits: its high half and its low half.
pub proof fn law_bytes_are_two_digits(bytes: Seq<u8>, i: int)
    requires
        0 <= i < bytes.len(),
    ensures
        hex_text(bytes).len() == 2 * bytes.len(),
        hex_text(bytes)[2 * i] == hex_digit(bytes[i] as int / 16),
        hex_text(bytes)[2 * i + 1] == hex_digit(bytes[i] as int % 16),
        hex_digit(0) == '0',
        hex_digit(9) == '9',
        hex_digit(10) == 'a',
        hex_digit(15) == 'f',
{
}

/// A plain byte stays as it is; a per cent sign with two digits is the byte that they write.
pub proof fn law_escapes_are_decoded(rest: Seq<u8>, high: u8, low: u8, b: u8)
    requires
        hex_value(high) is Some,
        hex_value(low) is Some,
        b != 37,
    ensures
        percent_bytes(seq![37u8, high, low] + rest) == seq![
            (16 * hex_value(high)->Some_0 + hex_value(low)->Some_0) as u8,
        ] + percent_bytes(rest),
        percent_bytes(seq![b] + rest) == seq![b] + percent_bytes(rest),
        percent_bytes(Seq::empty()).len() == 0,
        48 <= high <= 57 ==> hex_value(high) == Some(high - 48),
        97 <= high <= 102 ==> hex_value(high) == Some(high - 97 + 10),
        65 <= high <= 70 ==> hex_value(high) == Some(high - 65 + 10),
{
    let escaped = seq![37u8, high, low] + rest;
    assert(escaped.skip(3) =~= rest);
    let plain = seq![b] + rest;
    assert(plain.skip(1) =~= rest);
}

/// Three bytes are four characters, and what is missing from the last three is padded.
pub proof fn law_missing_bytes_are_padded(bytes: Seq<u8>, a: u8, b: u8)
    ensures
        base64_text(bytes).len() == 4 * ((bytes.len() + 2) / 3),
        base64_text(seq![a]).len() == 4,
        base64_text(seq![a])[0] == base64_digit(a as int / 4),
        base64_text(seq![a])[2] == '=',
        base64_text(seq![a])[3] == '=',
        base64_text(seq![a, b])[2] != '=',
        base64_text(seq![a, b])[3] == '=',
        base64_digit(0) == 'A',
        base64_digit(26) == 'a',
        base64_digit(52) == '0',
        base64_digit(62) == '+',
        base64_digit(63) == '/',
{
    let one = seq![a];
    assert(0x10000 * (a as int) / 0x40000 == a as int / 4) by (nonlinear_arith);
    assert(base64_text(one)[0] == base64_digit(a as int / 4));
}

} // verus!
