//! Account security: the WebAuthn relying party and origin, OTP secrets,
//! provisioning URIs and backup codes, passkey limits and kinds, and the
//! password-reset flow's tokens, links and rate limit.

use vstd::prelude::*;
use crate::codec::{
    base32_encode, base32_rfc4648_nopad, base64_url_nopad, base64_url_nopad_encode, hex_encode,
    hex_lower, parse_url_scheme_host, percent_encoded, random_bytes, url_encode, url_scheme_host,
};
use crate::text::{
    ascii_lower, chars_eq, chars_of, concat2, concat3, first_index_of, opt_view, str_eq, string_of,
    to_ascii_lower, to_lowercase, to_uppercase, trim, trim_chars, trim_end, trim_start, is_ws,
    unicode_lower, unicode_upper,
};

verus! {

broadcast use vstd::string::group_string_axioms;

pub open spec fn str_opt(o: Option<&str>) -> Option<Seq<char>> {
    match o {
        Some(s) => Some(s@),
        None => None,
    }
}

/// Whether `s` ends with `t`.
pub open spec fn ends_with(s: Seq<char>, t: Seq<char>) -> bool {
    s.len() >= t.len() && s.skip(s.len() - t.len()) == t
}

fn ends_with_chars(s: &[char], t: &[char]) -> (r: bool)
    ensures
        r == ends_with(s@, t@),
{
    if s.len() < t.len() {
        return false;
    }
    let off = s.len() - t.len();
    let m = t.len();
    for j in 0..m
        invariant
            m == t@.len(),
            off + m == s@.len(),
            off + m == s.len(),
            forall|k: int| 0 <= k < j ==> s@[off + k] == t@[k],
    {
        if s[off + j] != t[j] {
            assert(s@.skip(off as int)[j as int] != t@[j as int]);
            return false;
        }
    }
    assert(s@.skip(off as int) =~= t@);
    true
}

/// Whether a host is the domain or one of its subdomains.
pub open spec fn host_matches(host: Seq<char>, domain: Seq<char>) -> bool {
    host == domain || ends_with(host, "."@ + domain)
}

fn host_matches_domain(host: &str, domain: &str) -> (r: bool)
    ensures
        r == host_matches(host@, domain@),
{
    str_eq(host, domain) || ends_with_chars(&chars_of(host), &chars_of(concat2(".", domain).as_str()))
}

/// The relying-party id and the origin a passkey ceremony uses, from the
/// environment, the request's `Origin` header (empty when absent),
/// whether the rp id is bound to the origin's host, the production rp id
/// and the local HTTPS origin configured for development.
pub open spec fn rp_id_and_origin(
    environment: Seq<char>,
    origin: Seq<char>,
    use_host_as_rp_id: bool,
    rp_id_production: Seq<char>,
    local_https: Seq<char>,
) -> (Seq<char>, Seq<char>) {
    if environment == "development"@ {
        let rp_id = "localhost"@;
        if origin.len() == 0 {
            (rp_id, local_https)
        } else {
            match url_scheme_host(origin) {
                None => (rp_id, local_https),
                Some((scheme, host)) => if scheme == "https"@ && host_matches(host, rp_id_production) {
                    (
                        if use_host_as_rp_id {
                            host
                        } else {
                            rp_id_production
                        },
                        origin,
                    )
                } else if scheme == "https"@ && host == "localhost.localdomain"@ {
                    ("localhost.localdomain"@, origin)
                } else if scheme == "https"@ && (host == "localhost"@ || host == "127.0.0.1"@) {
                    (
                        if host == "127.0.0.1"@ {
                            "127.0.0.1"@
                        } else {
                            rp_id
                        },
                        origin,
                    )
                } else {
                    (rp_id, local_https)
                },
            }
        }
    } else {
        let rp_id = rp_id_production;
        let fallback = "https://"@ + rp_id;
        if origin.len() == 0 {
            (rp_id, fallback)
        } else {
            match url_scheme_host(origin) {
                None => (rp_id, fallback),
                Some((scheme, host)) => if scheme == "https"@ && host_matches(host, rp_id) {
                    (
                        if use_host_as_rp_id {
                            host
                        } else {
                            rp_id
                        },
                        origin,
                    )
                } else {
                    (rp_id, fallback)
                },
            }
        }
    }
}

/// Which origin a passkey ceremony uses. In development, an HTTPS request
/// origin on `localhost`, `127.0.0.1`, `localhost.localdomain` or the
/// production domain is used as it is, any other origin gives way to the
/// configured local HTTPS origin, and a non-HTTPS origin gives `localhost`
/// with that local origin. In production, only an HTTPS origin on the
/// production domain is used; otherwise the origin is `https://` and the
/// production rp id, which is then the rp id too; and unless the rp id is
/// bound to the request's host, it is the production rp id.
pub proof fn law_passkey_origin_is_the_https_request_origin(
    environment: Seq<char>,
    origin: Seq<char>,
    use_host_as_rp_id: bool,
    rp_id_production: Seq<char>,
    local_https: Seq<char>,
)
    ensures
        url_scheme_host(origin) matches Some((scheme, host)) && environment == "development"@
            && origin.len() > 0 && scheme == "https"@ && (host == "localhost"@ || host == "127.0.0.1"@
            || host == "localhost.localdomain"@ || host_matches(host, rp_id_production))
            ==> rp_id_and_origin(environment, origin, use_host_as_rp_id, rp_id_production, local_https).1
            == origin,
        url_scheme_host(origin) matches Some((scheme, host)) ==> (environment == "development"@
            && origin.len() > 0 && scheme == "https"@ && (host == "localhost"@ || host == "127.0.0.1"@)
            && !host_matches(host, rp_id_production)
            ==> rp_id_and_origin(environment, origin, use_host_as_rp_id, rp_id_production, local_https).0
            == host),
        url_scheme_host(origin) matches Some((scheme, host)) && environment == "development"@
            && scheme != "https"@ ==> rp_id_and_origin(
            environment,
            origin,
            use_host_as_rp_id,
            rp_id_production,
            local_https,
        ) == ("localhost"@, local_https),
        environment == "development"@ ==> rp_id_and_origin(
            environment,
            origin,
            use_host_as_rp_id,
            rp_id_production,
            local_https,
        ).1 == origin || rp_id_and_origin(
            environment,
            origin,
            use_host_as_rp_id,
            rp_id_production,
            local_https,
        ).1 == local_https,
        url_scheme_host(origin) matches Some((scheme, host)) && environment != "development"@
            && origin.len() > 0 && scheme == "https"@ && host_matches(host, rp_id_production)
            ==> rp_id_and_origin(environment, origin, use_host_as_rp_id, rp_id_production, local_https).1
            == origin,
        url_scheme_host(origin) matches Some((scheme, host)) && environment != "development"@ && !(
        scheme == "https"@ && host_matches(host, rp_id_production)) ==> rp_id_and_origin(
            environment,
            origin,
            use_host_as_rp_id,
            rp_id_production,
            local_https,
        ) == (rp_id_production, "https://"@ + rp_id_production),
        environment != "development"@ && !use_host_as_rp_id ==> rp_id_and_origin(
            environment,
            origin,
            use_host_as_rp_id,
            rp_id_production,
            local_https,
        ).0 == rp_id_production,
        environment != "development"@ && (origin.len() == 0 || url_scheme_host(origin) is None)
            ==> rp_id_and_origin(environment, origin, use_host_as_rp_id, rp_id_production, local_https)
            == (rp_id_production, "https://"@ + rp_id_production),
{
}

/// The relying-party id and origin of a passkey ceremony (see
/// `rp_id_and_origin`).
pub fn webauthn_rp_id_and_origin(
    environment: &str,
    origin: &str,
    use_host_as_rp_id: bool,
    rp_id_production: &str,
    local_https: &str,
) -> (r: (String, String))
    ensures
        (r.0@, r.1@) == rp_id_and_origin(
            environment@,
            origin@,
            use_host_as_rp_id,
            rp_id_production@,
            local_https@,
        ),
{
    if str_eq(environment, "development") {
        if origin.is_empty() {
            return (String::from_str("localhost"), String::from_str(local_https));
        }
        match parse_url_scheme_host(origin) {
            None => (String::from_str("localhost"), String::from_str(local_https)),
            Some((scheme, host)) => {
                let https = str_eq(scheme.as_str(), "https");
                if https && host_matches_domain(host.as_str(), rp_id_production) {
                    (
                        if use_host_as_rp_id {
                            host
                        } else {
                            String::from_str(rp_id_production)
                        },
                        String::from_str(origin),
                    )
                } else if https && str_eq(host.as_str(), "localhost.localdomain") {
                    (String::from_str("localhost.localdomain"), String::from_str(origin))
                } else if https && (str_eq(host.as_str(), "localhost") || str_eq(
                    host.as_str(),
                    "127.0.0.1",
                )) {
                    (
                        if str_eq(host.as_str(), "127.0.0.1") {
                            String::from_str("127.0.0.1")
                        } else {
                            String::from_str("localhost")
                        },
                        String::from_str(origin),
                    )
                } else {
                    (String::from_str("localhost"), String::from_str(local_https))
                }
            },
        }
    } else {
        let fallback = concat2("https://", rp_id_production);
        if origin.is_empty() {
            return (String::from_str(rp_id_production), fallback);
        }
        match parse_url_scheme_host(origin) {
            None => (String::from_str(rp_id_production), fallback),
            Some((scheme, host)) => {
                if str_eq(scheme.as_str(), "https") && host_matches_domain(
                    host.as_str(),
                    rp_id_production,
                ) {
                    (
                        if use_host_as_rp_id {
                            host
                        } else {
                            String::from_str(rp_id_production)
                        },
                        String::from_str(origin),
                    )
                } else {
                    (String::from_str(rp_id_production), fallback)
                }
            },
        }
    }
}

/// Whether the rp id is bound to the origin's host: unless the setting
/// says "false" or "0"; bound when it is not set.
pub fn use_host_as_rp_id(setting: Option<&str>) -> (r: bool)
    ensures
        r == match str_opt(setting) {
            Some(v) => v != "false"@ && v != "0"@,
            None => true,
        },
{
    match setting {
        Some(v) => !str_eq(v, "false") && !str_eq(v, "0"),
        None => true,
    }
}

/// Whether a request asks for WebAuthn debug details: its header is "1"
/// or, ignoring ASCII case, "true".
pub fn webauthn_debug_requested(header: Option<&str>) -> (r: bool)
    ensures
        r == match str_opt(header) {
            Some(v) => v == "1"@ || ascii_lower(v) == "true"@,
            None => false,
        },
{
    match header {
        Some(v) => {
            proof {
                reveal_strlit("true");
                assert(ascii_lower("true"@) =~= "true"@);
            }
            str_eq(v, "1") || chars_eq(&to_ascii_lower(&chars_of(v)), &chars_of("true"))
        },
        None => false,
    }
}

/// The token of an `Authorization` header: what follows `Bearer `.
pub fn bearer_token(header: Option<&str>) -> (r: Option<String>)
    ensures
        opt_view(r) == match str_opt(header) {
            Some(h) => if h.len() >= 7 && h.take(7) == "Bearer "@ {
                Some(h.skip(7))
            } else {
                None
            },
            None => None,
        },
{
    match header {
        None => None,
        Some(h) => {
            let cs = chars_of(h);
            let p = chars_of("Bearer ");
            if cs.len() < 7 || !crate::text::matches_at(&cs, &p, 0) {
                proof {
                    reveal_strlit("Bearer ");
                    if h@.len() >= 7 && h@.take(7) == "Bearer "@ {
                        assert(cs@.subrange(0, 7) =~= h@.take(7));
                    }
                }
                return None;
            }
            proof {
                reveal_strlit("Bearer ");
                assert(h@.take(7) =~= cs@.subrange(0, 7));
            }
            let mut rest: Vec<char> = Vec::new();
            let n = cs.len();
            for i in 7..n
                invariant
                    n == cs@.len(),
                    n >= 7,
                    rest@ == cs@.subrange(7, i as int),
            {
                rest.push(cs[i]);
                assert(cs@.subrange(7, i + 1) == cs@.subrange(7, i as int).push(cs@[i as int]));
            }
            assert(rest@ =~= h@.skip(7));
            Some(string_of(rest.as_slice()))
        },
    }
}

/// An email as logs show it: the first character of its local part, `***`
/// and the `@` and domain; `***` alone when it has no `@` or is blank.
pub open spec fn masked_email(email: Seq<char>) -> Seq<char> {
    let e = trim(email);
    if e.len() == 0 {
        "***"@
    } else {
        match first_index_of(e, '@') {
            Some(at) => e.take(if at > 0 {
                1
            } else {
                0
            }) + "***"@ + e.skip(at),
            None => "***"@,
        }
    }
}

/// Masks an email for logs (see `masked_email`).
pub fn mask_email_for_log(email: &str) -> (r: String)
    ensures
        r@ == masked_email(email@),
{
    let e = trim_chars(&chars_of(email));
    if e.len() == 0 {
        return String::from_str("***");
    }
    match crate::text::find_char(&e, '@') {
        Some(at) => {
            let mut out: Vec<char> = Vec::new();
            if at > 0 {
                out.push(e[0]);
            }
            assert(out@ == e@.take(if at > 0 {
                1int
            } else {
                0int
            }));
            crate::text::append_chars(&mut out, &chars_of("***"));
            let n = e.len();
            let ghost head = out@;
            for i in at..n
                invariant
                    at < n,
                    n == e@.len(),
                    out@ == head + e@.subrange(at as int, i as int),
            {
                out.push(e[i]);
                assert(e@.subrange(at as int, i + 1) == e@.subrange(at as int, i as int).push(
                    e@[i as int],
                ));
            }
            assert(e@.subrange(at as int, n as int) =~= e@.skip(at as int));
            string_of(out.as_slice())
        },
        None => String::from_str("***"),
    }
}

/// The answer when a user already has the most passkeys allowed.
pub open spec fn passkey_limit() -> int {
    3
}

/// Whether a user with `count` passkeys may not add another.
pub fn passkey_limit_reached(count: i64) -> (r: bool)
    ensures
        r == (count >= passkey_limit()),
{
    count >= 3
}

/// The kind of passkey an authenticator attachment makes: a platform
/// authenticator a soft key, a cross-platform one a physical key, any other
/// unknown; none given counts as soft.
pub fn passkey_type(attachment: Option<&str>) -> (r: &'static str)
    ensures
        r@ == match str_opt(attachment) {
            Some(a) => if a == "platform"@ {
                "soft"@
            } else if a == "cross-platform"@ {
                "physical"@
            } else {
                "unknown"@
            },
            None => "soft"@,
        },
{
    match attachment {
        Some(a) => if str_eq(a, "platform") {
            "soft"
        } else if str_eq(a, "cross-platform") {
            "physical"
        } else {
            "unknown"
        },
        None => "soft",
    }
}

/// A name that defaults when absent.
pub fn name_or(name: Option<String>, default: &str) -> (r: String)
    ensures
        r@ == match opt_view(name) {
            Some(n) => n,
            None => default@,
        },
{
    match name {
        Some(n) => n,
        None => String::from_str(default),
    }
}

/// The text of one byte as `{:x}` writes it: lower-case hex without
/// leading zeros.
pub open spec fn hex_unpadded(b: u8) -> Seq<char> {
    if b < 16 {
        seq![crate::codec::hex_digit_lower(b)]
    } else {
        seq![crate::codec::hex_digit_lower(b / 16), crate::codec::hex_digit_lower(b % 16)]
    }
}

/// The bytes written one after the other as `{:x}` writes each.
pub open spec fn hex_unpadded_all(b: Seq<u8>) -> Seq<char>
    decreases b.len(),
{
    if b.len() == 0 {
        Seq::empty()
    } else {
        hex_unpadded_all(b.drop_last()) + hex_unpadded(b.last())
    }
}

fn hex_digit(n: u8) -> (r: char)
    requires
        n < 16,
    ensures
        r == crate::codec::hex_digit_lower(n),
{
    if n < 10 {
        (n + 48) as char
    } else {
        (n - 10 + 97) as char
    }
}

/// A registration challenge token made from `bytes`, each written as
/// `{:x}` writes it.
pub fn challenge_token_from(bytes: &[u8]) -> (r: String)
    ensures
        r@ == hex_unpadded_all(bytes@),
{
    let mut out: Vec<char> = Vec::new();
    let n = bytes.len();
    for i in 0..n
        invariant
            n == bytes@.len(),
            out@ == hex_unpadded_all(bytes@.take(i as int)),
    {
        let b = bytes[i];
        assert(bytes@.take(i + 1).drop_last() =~= bytes@.take(i as int));
        if b < 16 {
            out.push(hex_digit(b));
        } else {
            out.push(hex_digit(b / 16));
            out.push(hex_digit(b % 16));
        }
        assert(out@ =~= hex_unpadded_all(bytes@.take(i as int)) + hex_unpadded(b));
    }
    assert(bytes@.take(n as int) =~= bytes@);
    string_of(out.as_slice())
}

/// A registration challenge token from 16 random bytes.
pub fn new_challenge_token() -> (r: String)
    ensures
        exists|b: Seq<u8>| b.len() == 16 && r@ == hex_unpadded_all(b),
{
    let bytes = random_bytes(16);
    challenge_token_from(bytes.as_slice())
}

/// A registration session token: the hex digits of 16 random bytes.
pub fn new_session_token() -> (r: String)
    ensures
        exists|b: Seq<u8>| b.len() == 16 && r@ == hex_lower(b),
{
    let bytes = random_bytes(16);
    hex_encode(bytes.as_slice())
}

/// Whether a reset link sent `elapsed_seconds` ago is recent enough that
/// another is not sent: less than five minutes.
pub fn reset_recently_sent(elapsed_seconds: i64) -> (r: bool)
    ensures
        r == (elapsed_seconds < 300),
{
    elapsed_seconds < 300
}

/// A password reset token: 32 random bytes in unpadded URL-safe base64.
pub fn new_reset_token() -> (r: String)
    ensures
        exists|b: Seq<u8>| b.len() == 32 && r@ == base64_url_nopad(b),
{
    let bytes = random_bytes(32);
    base64_url_nopad_encode(bytes.as_slice())
}

/// `s` without its trailing `/` characters.
pub open spec fn trim_end_slashes(s: Seq<char>) -> Seq<char>
    decreases s.len(),
{
    if s.len() > 0 && s.last() == '/' {
        trim_end_slashes(s.drop_last())
    } else {
        s
    }
}

/// The first index at which `needle` occurs in `hay`.
pub open spec fn find_seq(hay: Seq<char>, needle: Seq<char>) -> Option<int> {
    if exists|i: int| crate::text::occurs_at(hay, needle, i) {
        Some(choose|i: int| crate::text::occurs_at(hay, needle, i) && forall|j: int| 0 <= j < i ==> !crate::text::occurs_at(hay, needle, j))
    } else {
        None
    }
}

/// A URL cut after its scheme and authority: `/` at the end removed, then
/// what follows the first `/` after `://` dropped.
pub open spec fn url_root(url: Seq<char>) -> Seq<char> {
    let s = trim_end_slashes(trim(url));
    match find_seq(s, "://"@) {
        Some(c) => {
            let rest = s.skip(c + 3);
            match first_index_of(rest, '/') {
                Some(k) => s.take(c + 3 + k),
                None => s,
            }
        },
        None => s,
    }
}

/// The base of reset links: in development (ignoring ASCII case) the root
/// of the request's `Origin`, else of its `Referer`, when either is
/// given; the configured base otherwise.
pub open spec fn reset_base_url_of(
    environment: Seq<char>,
    origin_or_referer: Option<Seq<char>>,
    configured: Seq<char>,
) -> Seq<char> {
    if ascii_lower(environment) == "development"@ {
        match origin_or_referer {
            Some(h) => url_root(h),
            None => configured,
        }
    } else {
        configured
    }
}

fn trim_end_slashes_of(s: &Vec<char>) -> (r: Vec<char>)
    ensures
        r@ == trim_end_slashes(s@),
{
    let mut n = s.len();
    assert(s@.take(n as int) =~= s@);
    while n > 0 && s[n - 1] == '/'
        invariant
            n <= s@.len(),
            trim_end_slashes(s@) == trim_end_slashes(s@.take(n as int)),
        decreases n,
    {
        assert(s@.take(n as int).drop_last() =~= s@.take(n - 1));
        n = n - 1;
    }
    let mut r: Vec<char> = Vec::new();
    for i in 0..n
        invariant
            n <= s@.len(),
            r@ == s@.take(i as int),
    {
        r.push(s[i]);
        assert(s@.take(i + 1) == s@.take(i as int).push(s@[i as int]));
    }
    assert(trim_end_slashes(s@.take(n as int)) == s@.take(n as int));
    r
}

fn url_root_chars(s: &Vec<char>) -> (r: Vec<char>)
    ensures
        r@ == match find_seq(s@, "://"@) {
            Some(c) => {
                let rest = s@.skip(c + 3);
                match first_index_of(rest, '/') {
                    Some(k) => s@.take(c + 3 + k),
                    None => s@,
                }
            },
            None => s@,
        },
{
    proof {
        reveal_strlit("://");
    }
    let sep = chars_of("://");
    match crate::text::find_seq_in(s, &sep) {
        None => {
            assert(find_seq(s@, "://"@) is None);
            s.clone()
        },
        Some(c) => {
            proof {
                let w = choose|k: int|
                    crate::text::occurs_at(s@, "://"@, k) && forall|j: int|
                        0 <= j < k ==> !crate::text::occurs_at(s@, "://"@, j);
                assert(crate::text::occurs_at(s@, "://"@, c as int));
                if w < c {
                } else if w > c {
                }
                assert(w == c);
            }
            let m = s.len();
            let after = c + 3;
            let mut rest: Vec<char> = Vec::new();
            for j in after..m
                invariant
                    after <= m,
                    m == s@.len(),
                    rest@ == s@.subrange(after as int, j as int),
            {
                rest.push(s[j]);
                assert(s@.subrange(after as int, j + 1) == s@.subrange(after as int, j as int).push(
                    s@[j as int],
                ));
            }
            assert(rest@ =~= s@.skip(after as int));
            match crate::text::find_char(&rest, '/') {
                Some(k) => {
                    let mut out: Vec<char> = Vec::new();
                    for j in 0..after + k
                        invariant
                            after + k <= m,
                            m == s@.len(),
                            out@ == s@.take(j as int),
                    {
                        out.push(s[j]);
                        assert(s@.take(j + 1) == s@.take(j as int).push(s@[j as int]));
                    }
                    out
                },
                None => s.clone(),
            }
        },
    }
}

/// The base of reset links (see `reset_base_url_of`).
pub fn reset_base_url(environment: &str, origin_or_referer: Option<&str>, configured: &str) -> (r: String)
    ensures
        r@ == reset_base_url_of(environment@, str_opt(origin_or_referer), configured@),
{
    proof {
        reveal_strlit("development");
    }
    if !chars_eq(&to_ascii_lower(&chars_of(environment)), &chars_of("development")) {
        return String::from_str(configured);
    }
    match origin_or_referer {
        None => String::from_str(configured),
        Some(h) => {
            let s = trim_end_slashes_of(&trim_chars(&chars_of(h)));
            string_of(url_root_chars(&s).as_slice())
        },
    }
}

/// A new OTP secret made from `bytes`: their unpadded RFC 4648 base32.
pub fn otp_secret_from(bytes: &[u8]) -> (r: String)
    ensures
        r@ == base32_rfc4648_nopad(bytes@),
{
    base32_encode(bytes)
}

/// A new OTP secret from 20 random bytes.
pub fn new_otp_secret() -> (r: String)
    ensures
        exists|b: Seq<u8>| b.len() == 20 && r@ == base32_rfc4648_nopad(b),
{
    let bytes = random_bytes(20);
    otp_secret_from(bytes.as_slice())
}

/// The `otpauth` URI an authenticator app scans for a user's secret.
pub fn provisioning_uri(email: &str, secret: &str) -> (r: String)
    ensures
        r@ == "otpauth://totp/LeadsNebula:"@ + percent_encoded(email@) + "?secret="@ + secret@
            + "&issuer=LeadsNebula"@,
{
    let e = url_encode(email);
    let a = concat3("otpauth://totp/LeadsNebula:", e.as_str(), "?secret=");
    concat3(a.as_str(), secret, "&issuer=LeadsNebula")
}

/// The characters backup codes are made of: no 0, 1, I or O.
pub open spec fn backup_alphabet() -> Seq<char> {
    "ABCDEFGHJKLMNPQRSTUVWXYZ23456789"@
}

/// The backup code made of the eight bytes of `b` from `start`: each byte
/// picks the character at its value modulo 32.
pub open spec fn backup_code(b: Seq<u8>, start: int) -> Seq<char> {
    Seq::new(8, |j: int| backup_alphabet()[(b[start + j] % 32) as int])
}

/// Eight backup codes of eight characters made from 64 bytes.
pub fn backup_codes_from(bytes: &[u8]) -> (r: Vec<String>)
    requires
        bytes@.len() == 64,
    ensures
        r@.len() == 8,
        forall|i: int| 0 <= i < 8 ==> (#[trigger] r@[i])@ == backup_code(bytes@, 8 * i),
{
    proof {
        reveal_strlit("ABCDEFGHJKLMNPQRSTUVWXYZ23456789");
    }
    let alphabet = chars_of("ABCDEFGHJKLMNPQRSTUVWXYZ23456789");
    assert(alphabet@.len() == 32);
    let mut codes: Vec<String> = Vec::new();
    for i in 0..8
        invariant
            bytes@.len() == 64,
            alphabet@ == backup_alphabet(),
            alphabet@.len() == 32,
            codes@.len() == i,
            forall|k: int| 0 <= k < i ==> (#[trigger] codes@[k])@ == backup_code(bytes@, 8 * k),
    {
        let mut code: Vec<char> = Vec::new();
        for j in 0..8
            invariant
                bytes@.len() == 64,
                i < 8,
                alphabet@ == backup_alphabet(),
                alphabet@.len() == 32,
                code@.len() == j,
                forall|k: int| 0 <= k < j ==> code@[k] == backup_alphabet()[(bytes@[8 * (i as int) + k] % 32) as int],
        {
            let b = bytes[8 * i + j];
            code.push(alphabet[(b % 32) as usize]);
        }
        assert(code@ =~= backup_code(bytes@, 8 * i));
        codes.push(string_of(code.as_slice()));
    }
    codes
}

/// New backup codes from 64 random bytes.
pub fn new_backup_codes() -> (r: Vec<String>)
    ensures
        r@.len() == 8,
        forall|i: int| 0 <= i < 8 ==> (#[trigger] r@[i])@.len() == 8,
        forall|i: int, j: int|
            0 <= i < 8 && 0 <= j < 8 ==> backup_alphabet().contains(#[trigger] r@[i]@[j]),
{
    let bytes = random_bytes(64);
    let r = backup_codes_from(bytes.as_slice());
    assert forall|i: int, j: int| 0 <= i < 8 && 0 <= j < 8 implies backup_alphabet().contains(
        #[trigger] r@[i]@[j],
    ) by {
        reveal_strlit("ABCDEFGHJKLMNPQRSTUVWXYZ23456789");
        assert(backup_alphabet().len() == 32);
        assert(r@[i]@ == backup_code(bytes@, 8 * i));
        let x = (bytes@[8 * i + j] % 32) as int;
        assert(r@[i]@[j] == backup_alphabet()[x]);
        assert(0 <= x < 32);
    }
    r
}

/// The backup codes left once `code` is used: the first stored code equal
/// to it when both are upper-cased is removed. `None` when none matches.
pub open spec fn codes_after_use(codes: Seq<Seq<char>>, code: Seq<char>) -> Option<Seq<Seq<char>>> {
    if exists|i: int| 0 <= i < codes.len() && unicode_upper(#[trigger] codes[i]) == unicode_upper(code) {
        let i = choose|i: int|
            0 <= i < codes.len() && unicode_upper(#[trigger] codes[i]) == unicode_upper(code) && forall|j: int|
                0 <= j < i ==> unicode_upper(codes[j]) != unicode_upper(code);
        Some(codes.remove(i))
    } else {
        None
    }
}

/// Uses a backup code (see `codes_after_use`).
pub fn use_backup_code(codes: Vec<String>, code: &str) -> (r: Option<Vec<String>>)
    ensures
        match (r, codes_after_use(codes@.map_values(|x: String| x@), code@)) {
            (Some(v), Some(w)) => v@.map_values(|x: String| x@) == w,
            (None, None) => true,
            _ => false,
        },
{
    let ghost cv = codes@.map_values(|x: String| x@);
    let up = to_uppercase(code);
    let n = codes.len();
    let mut i: usize = 0;
    while i < n
        invariant
            i <= n,
            n == codes@.len(),
            cv == codes@.map_values(|x: String| x@),
            up@ == unicode_upper(code@),
            forall|j: int| 0 <= j < i ==> unicode_upper(cv[j]) != unicode_upper(code@),
        decreases n - i,
    {
        let c = to_uppercase(codes[i].as_str());
        if str_eq(c.as_str(), up.as_str()) {
            let ghost k = i as int;
            assert(unicode_upper(cv[k]) == unicode_upper(code@));
            proof {
                let w = choose|w: int|
                    0 <= w < cv.len() && unicode_upper(#[trigger] cv[w]) == unicode_upper(code@) && forall|j: int|
                        0 <= j < w ==> unicode_upper(cv[j]) != unicode_upper(code@);
                assert(0 <= k < cv.len() && unicode_upper(cv[k]) == unicode_upper(code@) && forall|j: int|
                    0 <= j < k ==> unicode_upper(cv[j]) != unicode_upper(code@));
                if w < k {
                    assert(unicode_upper(cv[w]) != unicode_upper(code@));
                } else if w > k {
                    assert(unicode_upper(cv[k]) != unicode_upper(code@));
                }
            }
            let mut rest = codes;
            let ghost before = rest@;
            rest.remove(i);
            assert(rest@.map_values(|x: String| x@) =~= cv.remove(k));
            return Some(rest);
        }
        i = i + 1;
    }
    None
}

/// An email as the forgot-password flow looks it up: trimmed and
/// lower-cased; `None` for a blank one, which is refused.
pub fn normalized_reset_email(email: &str) -> (r: Option<String>)
    ensures
        match r {
            Some(e) => e@ == unicode_lower(trim(email@)) && e@.len() > 0,
            None => unicode_lower(trim(email@)).len() == 0,
        },
        trim(email@).len() > 0 ==> r is Some,
{
    let t = string_of(trim_chars(&chars_of(email)).as_slice());
    let e = to_lowercase(t.as_str());
    if e.as_str().is_empty() {
        None
    } else {
        Some(e)
    }
}

/// The name a reset email greets: the trimmed full name, none when empty.
pub fn greeting_name(first: Option<&str>, last: Option<&str>) -> (r: Option<String>)
    ensures
        match r {
            Some(n) => n@ == crate::audit::full_name(
                match first {
                    Some(f) => f@,
                    None => Seq::empty(),
                },
                match last {
                    Some(l) => l@,
                    None => Seq::empty(),
                },
            ) && n@.len() > 0,
            None => crate::audit::full_name(
                match first {
                    Some(f) => f@,
                    None => Seq::empty(),
                },
                match last {
                    Some(l) => l@,
                    None => Seq::empty(),
                },
            ).len() == 0,
        },
{
    let n = crate::audit::full_name_of(first, last);
    if n.as_str().is_empty() {
        None
    } else {
        Some(n)
    }
}

/// The secret an OTP code is checked against: the stored one, else the one
/// the request carries; `None` (400) when neither is there.
pub fn otp_secret_for_check(stored: Option<String>, given: Option<String>) -> (r: Option<String>)
    ensures
        opt_view(r) == match opt_view(stored) {
            Some(s) => Some(s),
            None => opt_view(given),
        },
{
    match stored {
        Some(s) => Some(s),
        None => given,
    }
}

/// Whether OTP setup is refused because OTP is already enabled.
pub fn otp_setup_blocked(enabled: Option<bool>) -> (r: bool)
    ensures
        r == (enabled == Some(true)),
{
    match enabled {
        Some(true) => true,
        _ => false,
    }
}

/// Whether disabling OTP is refused because it is not enabled.
pub fn otp_disable_refused(enabled: Option<bool>) -> (r: bool)
    ensures
        r == (enabled != Some(true)),
{
    match enabled {
        Some(true) => false,
        _ => true,
    }
}

/// Using a backup code that matches removes exactly one stored code.
pub proof fn law_backup_code_used_once(codes: Seq<Seq<char>>, code: Seq<char>)
    ensures
        codes_after_use(codes, code) matches Some(rest) ==> rest.len() + 1 == codes.len(),
        codes_after_use(codes, code) is None ==> forall|i: int|
            0 <= i < codes.len() ==> unicode_upper(#[trigger] codes[i]) != unicode_upper(code),
{
    if exists|i: int| 0 <= i < codes.len() && unicode_upper(#[trigger] codes[i]) == unicode_upper(code) {
        let w = choose|i: int| 0 <= i < codes.len() && unicode_upper(#[trigger] codes[i]) == unicode_upper(code);
        lemma_first_match_exists(codes, code, w);
    }
}

proof fn lemma_first_match_exists(codes: Seq<Seq<char>>, code: Seq<char>, w: int)
    requires
        0 <= w < codes.len(),
        unicode_upper(codes[w]) == unicode_upper(code),
    ensures
        exists|i: int|
            0 <= i < codes.len() && unicode_upper(#[trigger] codes[i]) == unicode_upper(code) && forall|j: int|
                0 <= j < i ==> unicode_upper(codes[j]) != unicode_upper(code),
    decreases w,
{
    if exists|j: int| 0 <= j < w && unicode_upper(#[trigger] codes[j]) == unicode_upper(code) {
        let j = choose|j: int| 0 <= j < w && unicode_upper(#[trigger] codes[j]) == unicode_upper(code);
        lemma_first_match_exists(codes, code, j);
    } else {
        assert(forall|j: int| 0 <= j < w ==> unicode_upper(codes[j]) != unicode_upper(code));
    }
}

/// A masked email shows at most the first character of the address, then
/// `***`, then the domain from its `@`; nothing else of the local part.
pub proof fn law_mask_hides_local_part(email: Seq<char>)
    ensures
        masked_email(email).len() >= 3,
        first_index_of(trim(email), '@') matches Some(at) ==> masked_email(email) == trim(
            email,
        ).take(if at > 0 {
            1
        } else {
            0
        }) + "***"@ + trim(email).skip(at),
{
    reveal_strlit("***");
    let e = trim(email);
    if e.len() > 0 {
        crate::lead_views::lemma_first_index_in_range(e, '@');
    }
}

proof fn lemma_trim_start_first(s: Seq<char>)
    ensures
        trim_start(s).len() > 0 ==> !is_ws(trim_start(s)[0]),
        trim_start(s).len() <= s.len(),
        trim_start(s) == s.skip(s.len() - trim_start(s).len()),
    decreases s.len(),
{
    if s.len() > 0 && is_ws(s[0]) {
        lemma_trim_start_first(s.drop_first());
        assert(s.drop_first().skip(s.drop_first().len() - trim_start(s).len()) =~= s.skip(
            s.len() - trim_start(s).len(),
        ));
    } else {
        assert(s.skip(0) =~= s);
    }
}

proof fn lemma_trim_end_last(s: Seq<char>)
    ensures
        trim_end(s).len() > 0 ==> !is_ws(trim_end(s).last()),
        trim_end(s).len() <= s.len(),
        trim_end(s) == s.take(trim_end(s).len() as int),
    decreases s.len(),
{
    if s.len() > 0 && is_ws(s.last()) {
        lemma_trim_end_last(s.drop_last());
        assert(s.drop_last().take(trim_end(s).len() as int) =~= s.take(trim_end(s).len() as int));
    } else {
        assert(s.take(s.len() as int) =~= s);
    }
}

/// A trimmed text that is not empty starts and ends with a non-blank
/// character.
proof fn lemma_trim_ends(s: Seq<char>)
    ensures
        trim(s).len() > 0 ==> !is_ws(trim(s)[0]) && !is_ws(trim(s).last()),
{
    let t = trim_start(s);
    lemma_trim_start_first(s);
    lemma_trim_end_last(t);
    if trim(s).len() > 0 {
        assert(trim(s)[0] == t[0]);
    }
}

/// A text that starts and ends with a non-blank character trims to itself.
proof fn lemma_trim_fixed(s: Seq<char>)
    requires
        s.len() > 0,
        !is_ws(s[0]),
        !is_ws(s.last()),
    ensures
        trim(s) == s,
{
}

/// Masking a masked email changes nothing, unless the address starts with
/// its `@`: then the first mask's `***` is taken for a local part.
pub proof fn law_mask_idempotent(email: Seq<char>)
    requires
        first_index_of(trim(email), '@') != Some(0int),
    ensures
        masked_email(masked_email(email)) == masked_email(email),
{
    reveal_strlit("***");
    let e = trim(email);
    let m = masked_email(email);
    let stars: Seq<char> = "***"@;
    assert(!is_ws('*'));
    if e.len() == 0 || first_index_of(e, '@') is None {
        assert(m == stars);
        lemma_trim_fixed(stars);
        crate::text::lemma_first_index_none(stars, '@');
    } else {
        let at = first_index_of(e, '@')->0;
        crate::lead_views::lemma_first_index_in_range(e, '@');
        lemma_trim_ends(email);
        assert(e[0] != '@');
        assert(at > 0);
        assert(m == seq![e[0]] + stars + e.skip(at));
        assert(m[0] == e[0]);
        assert(m.last() == e.last());
        lemma_trim_fixed(m);
        assert(m[4] == '@');
        crate::text::lemma_first_index_found(m, '@', 4);
        assert(m.take(1) + stars + m.skip(4) =~= m);
    }
}

/// The answer to a forgot-password request, which does not depend on
/// whether an account has the email: a blank email is refused, any other
/// is answered with the same message.
pub open spec fn forgot_password_answer(email: Seq<char>) -> Result<Seq<char>, Seq<char>> {
    if unicode_lower(trim(email)).len() == 0 {
        Err("Email is required"@)
    } else {
        Ok("If an account with that email exists, a password reset link has been sent."@)
    }
}

/// What a forgot-password request does: its answer, and whether a reset
/// link is sent (only to an account found and active).
pub struct ForgotPasswordPlan {
    pub answer: Result<String, String>,
    pub send_link: bool,
}

/// Plans a forgot-password request from the email given and the status of
/// the account found for it, if any. The answer is the same whatever
/// account was found, so the answer does not tell which emails have
/// accounts.
pub fn forgot_password_plan(email: &str, account_status: Option<&str>) -> (r: ForgotPasswordPlan)
    ensures
        match (r.answer, forgot_password_answer(email@)) {
            (Ok(a), Ok(b)) => a@ == b,
            (Err(a), Err(b)) => a@ == b,
            _ => false,
        },
        r.send_link == (r.answer is Ok && str_opt(account_status) == Some("active"@)),
        trim(email@).len() > 0 ==> (r.answer matches Ok(a)
            && a@ == "If an account with that email exists, a password reset link has been sent."@),
{
    match normalized_reset_email(email) {
        None => ForgotPasswordPlan {
            answer: Err(String::from_str("Email is required")),
            send_link: false,
        },
        Some(_) => ForgotPasswordPlan {
            answer: Ok(
                String::from_str(
                    "If an account with that email exists, a password reset link has been sent.",
                ),
            ),
            send_link: match account_status {
                Some(s) => str_eq(s, "active"),
                None => false,
            },
        },
    }
}

} // verus!
