//! Encodings, digests, URL and UUID handling, and random material, each
//! supplied by an outside crate and called through a small trusted item.

use base64::Engine;
use rand::{Rng, RngCore};
use sha2::Digest;
use vstd::prelude::*;

verus! {

/// One lower-case hexadecimal digit.
pub open spec fn hex_digit_lower(n: u8) -> char {
    if n < 10 {
        (48 + n) as char
    } else {
        (87 + n) as char
    }
}

/// One upper-case hexadecimal digit.
pub open spec fn hex_digit_upper(n: u8) -> char {
    if n < 10 {
        (48 + n) as char
    } else {
        (55 + n) as char
    }
}

/// Lower-case hexadecimal text of `b`, two digits per byte, high nibble first.
pub open spec fn hex_lower(b: Seq<u8>) -> Seq<char>
    decreases b.len(),
{
    if b.len() == 0 {
        Seq::empty()
    } else {
        seq![hex_digit_lower(b[0] / 16), hex_digit_lower(b[0] % 16)] + hex_lower(b.drop_first())
    }
}

/// Hex text has two digits per byte.
pub proof fn lemma_hex_lower_len(b: Seq<u8>)
    ensures
        hex_lower(b).len() == 2 * b.len(),
    decreases b.len(),
{
    if b.len() > 0 {
        lemma_hex_lower_len(b.drop_first());
    }
}

/// `hex::encode`: lower-case hexadecimal text, two digits per byte.
#[verifier::external_body]
pub(crate) fn hex_encode(bytes: &[u8]) -> (r: String)
    ensures
        r@ == hex_lower(bytes@),
{
    hex::encode(bytes)
}

/// The sixteen bytes of `u`, most significant first (`Uuid::from_u128`).
pub open spec fn be_bytes(u: u128) -> Seq<u8> {
    Seq::new(16, |i: int| ((u >> ((8 * (15 - i)) as u128)) & 0xff) as u8)
}

/// The hyphenated lower-case text of a UUID, 8-4-4-4-12 hexadecimal digits.
pub open spec fn uuid_text(u: u128) -> Seq<char> {
    let h = hex_lower(be_bytes(u));
    h.subrange(0, 8) + "-"@ + h.subrange(8, 12) + "-"@ + h.subrange(12, 16) + "-"@ + h.subrange(
        16,
        20,
    ) + "-"@ + h.subrange(20, 32)
}

/// `Uuid::from_u128(u).to_string()`: the hyphenated lower-case form.
#[verifier::external_body]
pub(crate) fn uuid_to_string(u: u128) -> (r: String)
    ensures
        r@ == uuid_text(u),
{
    uuid::Uuid::from_u128(u).to_string()
}

/// What `Uuid::parse_str` yields on a text, as the UUID's 128-bit value.
pub uninterp spec fn uuid_parsed(s: Seq<char>) -> Option<u128>;

/// `Uuid::parse_str`. Its outcome is named `uuid_parsed`; the text that
/// `uuid_to_string` produces parses back to the same value, which the
/// contract also states. Which other texts the crate accepts is left unsaid.
#[verifier::external_body]
pub(crate) fn uuid_parse(s: &str) -> (r: Option<u128>)
    ensures
        r == uuid_parsed(s@),
        forall|u: u128| s@ == uuid_text(u) ==> r == Some(u),
{
    uuid::Uuid::parse_str(s).ok().map(|u| u.as_u128())
}

/// `Uuid::new_v4`: a random UUID; nothing is promised of its value.
#[verifier::external_body]
pub(crate) fn new_uuid_v4() -> (r: u128) {
    uuid::Uuid::new_v4().as_u128()
}

/// The `i`-th of the `n` base-`radix` digits of `v`, most significant first.
pub open spec fn digit_at(v: int, radix: int, n: int, i: int) -> int
    decreases n - 1 - i,
{
    if i >= n - 1 || i < 0 {
        v % radix
    } else {
        digit_at(v / radix, radix, n - 1, i)
    }
}

/// The byte at `i` of `b`, or 0 past its end.
pub open spec fn byte_or_zero(b: Seq<u8>, i: int) -> int {
    if 0 <= i < b.len() {
        b[i] as int
    } else {
        0
    }
}

/// A six-bit value in the base64 alphabet; `url` picks `-` and `_` for the
/// last two values in place of `+` and `/`.
pub open spec fn base64_digit(v: int, url: bool) -> char {
    if v < 26 {
        (65 + v) as char
    } else if v < 52 {
        (71 + v) as char
    } else if v < 62 {
        (v - 4) as char
    } else if v == 62 {
        if url { '-' } else { '+' }
    } else {
        if url { '_' } else { '/' }
    }
}

/// Base64 of `b`: each group of three bytes, read as a 24-bit number,
/// gives four six-bit digits; a last group of one or two bytes is filled
/// with zero bits and gives two or three digits, followed by `==` or `=`
/// when `pad` is set.
pub open spec fn base64_text(b: Seq<u8>, url: bool, pad: bool) -> Seq<char>
    decreases b.len(),
{
    if b.len() == 0 {
        Seq::empty()
    } else {
        let v = byte_or_zero(b, 0) * 65536 + byte_or_zero(b, 1) * 256 + byte_or_zero(b, 2);
        let digits = Seq::new(4, |i: int| base64_digit(digit_at(v, 64, 4, i), url));
        if b.len() >= 3 {
            digits + base64_text(b.skip(3), url, pad)
        } else {
            let kept = digits.take(b.len() + 1int);
            if pad {
                kept + Seq::new((3 - b.len()) as nat, |i: int| '=')
            } else {
                kept
            }
        }
    }
}

/// What the `STANDARD` (padded) base64 engine encodes `b` to.
pub open spec fn base64_standard(b: Seq<u8>) -> Seq<char> {
    base64_text(b, false, true)
}

/// What the `URL_SAFE_NO_PAD` base64 engine encodes `b` to.
pub open spec fn base64_url_nopad(b: Seq<u8>) -> Seq<char> {
    base64_text(b, true, false)
}

/// What the `STANDARD` base64 engine decodes `s` to: the bytes whose
/// encoding `s` is, and nothing where `s` is no such encoding.
pub open spec fn base64_standard_decoded(s: Seq<char>) -> Option<Seq<u8>> {
    if exists|x: Seq<u8>| base64_standard(x) == s {
        Some(choose|x: Seq<u8>| base64_standard(x) == s)
    } else {
        None
    }
}

/// A character of the standard base64 alphabet, or its padding.
pub open spec fn base64_char(c: char) -> bool {
    ('A' <= c <= 'Z') || ('a' <= c <= 'z') || ('0' <= c <= '9') || c == '+' || c == '/' || c == '='
}

/// `base64::engine::general_purpose::STANDARD.encode`; its output is made
/// of the standard alphabet and `=` padding.
#[verifier::external_body]
pub(crate) fn base64_encode(bytes: &[u8]) -> (r: String)
    ensures
        r@ == base64_standard(bytes@),
        forall|i: int| 0 <= i < r@.len() ==> base64_char(#[trigger] r@[i]),
{
    base64::engine::general_purpose::STANDARD.encode(bytes)
}

/// `base64::engine::general_purpose::STANDARD.decode`. The engine requires
/// canonical padding and no trailing bits, so it accepts exactly the texts
/// that its encoder produces and gives back the bytes they encode; the
/// contract states both directions.
#[verifier::external_body]
pub(crate) fn base64_decode(s: &str) -> (r: Option<Vec<u8>>)
    ensures
        match r {
            Some(d) => {
                &&& base64_standard_decoded(s@) == Some(d@)
                &&& base64_standard(d@) == s@
                &&& forall|x: Seq<u8>| base64_standard(x) == s@ ==> x == d@
            },
            None => {
                &&& base64_standard_decoded(s@) is None
                &&& forall|x: Seq<u8>| base64_standard(x) != s@
            },
        },
{
    base64::engine::general_purpose::STANDARD.decode(s.as_bytes()).ok()
}

/// `base64::engine::general_purpose::URL_SAFE_NO_PAD.encode`.
#[verifier::external_body]
pub(crate) fn base64_url_nopad_encode(bytes: &[u8]) -> (r: String)
    ensures
        r@ == base64_url_nopad(bytes@),
{
    base64::engine::general_purpose::URL_SAFE_NO_PAD.encode(bytes)
}

/// A five-bit value in the RFC 4648 base32 alphabet (`A`-`Z`, `2`-`7`).
pub open spec fn base32_digit(v: int) -> char {
    if v < 26 {
        (65 + v) as char
    } else {
        (24 + v) as char
    }
}

/// What `base32::encode(Alphabet::Rfc4648 { padding: false }, ..)` yields:
/// each group of five bytes, read as a 40-bit number, gives eight five-bit
/// digits; a last group of one to four bytes is filled with zero bits and
/// keeps its first 2, 4, 5 or 7 digits.
pub open spec fn base32_rfc4648_nopad(b: Seq<u8>) -> Seq<char>
    decreases b.len(),
{
    if b.len() == 0 {
        Seq::empty()
    } else {
        let v = byte_or_zero(b, 0) * 0x1_0000_0000 + byte_or_zero(b, 1) * 0x100_0000
            + byte_or_zero(b, 2) * 0x1_0000 + byte_or_zero(b, 3) * 0x100 + byte_or_zero(b, 4);
        let digits = Seq::new(8, |i: int| base32_digit(digit_at(v, 32, 8, i)));
        if b.len() >= 5 {
            digits + base32_rfc4648_nopad(b.skip(5))
        } else {
            digits.take((b.len() * 8 + 4) as int / 5)
        }
    }
}

/// `base32::encode` with the RFC 4648 alphabet and no padding.
#[verifier::external_body]
pub(crate) fn base32_encode(bytes: &[u8]) -> (r: String)
    ensures
        r@ == base32_rfc4648_nopad(bytes@),
{
    base32::encode(base32::Alphabet::Rfc4648 { padding: false }, bytes)
}

/// The SHA-256 digest of `b`.
pub uninterp spec fn sha256(b: Seq<u8>) -> Seq<u8>;

/// `sha2::Sha256` over `bytes`; the digest is 32 bytes long.
#[verifier::external_body]
pub(crate) fn sha256_digest(bytes: &[u8]) -> (r: Vec<u8>)
    ensures
        r@ == sha256(bytes@),
        r@.len() == 32,
{
    let mut hasher = sha2::Sha256::new();
    hasher.update(bytes);
    hasher.finalize().to_vec()
}

/// A byte `urlencoding` leaves as it is: an ASCII letter or digit, or one of
/// `-`, `.`, `_`, `~`.
pub open spec fn url_unreserved(b: u8) -> bool {
    (48 <= b <= 57) || (65 <= b <= 90) || (97 <= b <= 122) || b == 45 || b == 46 || b == 95 || b
        == 126
}

/// The percent-encoding of bytes: an unreserved byte stands for itself,
/// every other byte becomes `%` and its two upper-case hexadecimal digits.
pub open spec fn percent_bytes(b: Seq<u8>) -> Seq<char>
    decreases b.len(),
{
    if b.len() == 0 {
        Seq::empty()
    } else {
        (if url_unreserved(b[0]) {
            seq![b[0] as char]
        } else {
            seq!['%', hex_digit_upper(b[0] / 16), hex_digit_upper(b[0] % 16)]
        }) + percent_bytes(b.drop_first())
    }
}

/// What `urlencoding::encode` yields: the percent-encoding of the text's
/// UTF-8 bytes.
pub open spec fn percent_encoded(s: Seq<char>) -> Seq<char> {
    percent_bytes(vstd::utf8::encode_utf8(s))
}

/// The value of an ASCII hexadecimal digit of either case.
pub open spec fn hex_value(b: u8) -> Option<int> {
    if 48 <= b <= 57 {
        Some(b - 48)
    } else if 65 <= b <= 70 {
        Some(b - 55)
    } else if 97 <= b <= 102 {
        Some(b - 87)
    } else {
        None
    }
}

/// Percent-unescaping of bytes: `%` and two hexadecimal digits stand for
/// the byte they spell; every other byte, a `%` without two digits after it
/// among them, stands for itself.
pub open spec fn percent_unescaped(b: Seq<u8>) -> Seq<u8>
    decreases b.len(),
{
    if b.len() == 0 {
        Seq::empty()
    } else if b[0] == 37 && b.len() >= 3 && hex_value(b[1]) is Some && hex_value(b[2]) is Some {
        seq![(hex_value(b[1])->0 * 16 + hex_value(b[2])->0) as u8] + percent_unescaped(b.skip(3))
    } else {
        seq![b[0]] + percent_unescaped(b.drop_first())
    }
}

/// What `urlencoding::decode` yields: the text of the unescaped UTF-8 bytes
/// of `s`, and nothing where those bytes are not UTF-8.
pub open spec fn percent_decoded(s: Seq<char>) -> Option<Seq<char>> {
    let d = percent_unescaped(vstd::utf8::encode_utf8(s));
    if vstd::utf8::valid_utf8(d) {
        Some(vstd::utf8::decode_utf8(d))
    } else {
        None
    }
}

/// `urlencoding::encode`: every byte of the text's UTF-8 form except ASCII
/// letters, digits and `-._~` is written as `%` and two upper-case hex
/// digits.
#[verifier::external_body]
pub(crate) fn url_encode(s: &str) -> (r: String)
    ensures
        r@ == percent_encoded(s@),
{
    urlencoding::encode(s).into_owned()
}

/// `urlencoding::decode`; `None` where the decoded bytes are not UTF-8.
#[verifier::external_body]
pub(crate) fn url_decode(s: &str) -> (r: Option<String>)
    ensures
        match r {
            Some(d) => percent_decoded(s@) == Some(d@),
            None => percent_decoded(s@) is None,
        },
{
    urlencoding::decode(s).ok().map(|c| c.into_owned())
}

/// The scheme and host (empty where the URL has none) of what
/// `url::Url::parse` makes of a text, when it accepts it.
pub uninterp spec fn url_scheme_host(s: Seq<char>) -> Option<(Seq<char>, Seq<char>)>;

/// `url::Url::parse`, keeping `scheme()` and `host_str()` (empty when absent).
#[verifier::external_body]
pub(crate) fn parse_url_scheme_host(s: &str) -> (r: Option<(String, String)>)
    ensures
        match r {
            Some(p) => url_scheme_host(s@) == Some((p.0@, p.1@)),
            None => url_scheme_host(s@) is None,
        },
{
    match url::Url::parse(s) {
        Ok(u) => Some((u.scheme().to_string(), u.host_str().unwrap_or("").to_string())),
        Err(_) => None,
    }
}

/// `n` random bytes from the thread-local generator.
#[verifier::external_body]
pub(crate) fn random_bytes(n: usize) -> (r: Vec<u8>)
    ensures
        r@.len() == n,
{
    let mut v = vec![0u8; n];
    rand::thread_rng().fill_bytes(&mut v);
    v
}

/// A random `u32` (`rand::random`).
#[verifier::external_body]
pub(crate) fn random_u32() -> (r: u32) {
    rand::random::<u32>()
}

/// `n` characters drawn from `rand::distributions::Alphanumeric`, each an
/// ASCII letter or digit.
#[verifier::external_body]
pub(crate) fn random_alphanumeric(n: usize) -> (r: Vec<char>)
    ensures
        r@.len() == n,
        forall|i: int|
            0 <= i < n ==> ('0' <= #[trigger] r@[i] <= '9' || 'A' <= r@[i] <= 'Z' || 'a' <= r@[i]
                <= 'z'),
{
    let rng = rand::thread_rng();
    rng.sample_iter(&rand::distributions::Alphanumeric).take(n).map(char::from).collect()
}

/// What `serde_json::from_str::<Vec<String>>` makes of a text, when it
/// accepts it.
pub uninterp spec fn json_string_list(s: Seq<char>) -> Option<Seq<Seq<char>>>;

/// What `serde_json::to_string` renders a list of strings as.
pub uninterp spec fn json_render_list(l: Seq<Seq<char>>) -> Seq<char>;

/// `serde_json::from_str::<Vec<String>>`.
#[verifier::external_body]
pub(crate) fn parse_json_string_list(s: &str) -> (r: Option<Vec<String>>)
    ensures
        match r {
            Some(v) => json_string_list(s@) == Some(v@.map_values(|x: String| x@)),
            None => json_string_list(s@) is None,
        },
{
    serde_json::from_str::<Vec<String>>(s).ok()
}

/// `serde_json::to_string` of a list of strings, which cannot fail.
#[verifier::external_body]
pub(crate) fn render_json_string_list(v: &Vec<String>) -> (r: String)
    ensures
        r@ == json_render_list(v@.map_values(|x: String| x@)),
{
    serde_json::to_string(v).unwrap_or_default()
}

/// `String::from_utf8`: the text the bytes encode when they are valid
/// UTF-8, `None` when they are not.
#[verifier::external_body]
pub(crate) fn utf8_text(bytes: Vec<u8>) -> (r: Option<String>)
    ensures
        match r {
            Some(s) => vstd::utf8::valid_utf8(bytes@) && s@ == vstd::utf8::decode_utf8(bytes@),
            None => !vstd::utf8::valid_utf8(bytes@),
        },
{
    String::from_utf8(bytes).ok()
}

} // verus!
