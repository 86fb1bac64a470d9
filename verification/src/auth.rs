//! Signing in: the answers of the login and OTP-login steps, the login
//! token that bridges them, and the use of backup codes.

use vstd::prelude::*;
use crate::codec::{
    json_render_list, json_string_list, parse_json_string_list, render_json_string_list,
    uuid_parse, uuid_parsed, uuid_text, uuid_to_string,
};
use crate::security::{codes_after_use, use_backup_code};
use crate::text::{opt_view, str_eq};

verus! {

broadcast use vstd::string::group_string_axioms;

/// A sign-in request.
pub struct LoginRequest {
    pub email: String,
    pub password: String,
}

/// A signed-in user as the answer shows it.
pub struct UserResponse {
    pub id: String,
    pub email: String,
    pub first_name: Option<String>,
    pub last_name: Option<String>,
}

/// The answer to a sign-in step.
pub struct LoginResponse {
    pub success: bool,
    pub token: Option<String>,
    pub user: Option<UserResponse>,
    pub error: Option<String>,
    pub requires_otp: Option<bool>,
    pub login_token: Option<String>,
    pub message: Option<String>,
}

/// A request to finish signing in with an OTP code or a backup code.
pub struct VerifyOtpLoginRequest {
    pub login_token: String,
    pub otp_code: Option<String>,
    pub backup_code: Option<String>,
}

/// A failed step answered with `message`.
pub open spec fn is_failure(r: LoginResponse, message: Seq<char>) -> bool {
    &&& !r.success
    &&& r.token is None
    &&& r.user is None
    &&& opt_view(r.error) == Some(message)
    &&& r.requires_otp is None
    &&& r.login_token is None
    &&& r.message is None
}

fn failure(message: &str) -> (r: LoginResponse)
    ensures
        is_failure(r, message@),
{
    LoginResponse {
        success: false,
        token: None,
        user: None,
        error: Some(String::from_str(message)),
        requires_otp: None,
        login_token: None,
        message: None,
    }
}

/// What the account found for an email allows.
pub struct AccountState {
    pub confirmed: bool,
    pub active: bool,
}

/// Why a sign-in ends before the password is checked: no account, an
/// unconfirmed one or an inactive one.
pub open spec fn account_rejection(account: Option<AccountState>) -> Option<Seq<char>> {
    match account {
        None => Some("Invalid email or password"@),
        Some(a) => if !a.confirmed {
            Some("Please confirm your email address before signing in"@)
        } else if !a.active {
            Some("Your account has been suspended"@)
        } else {
            None
        },
    }
}

/// Why a sign-in ends at the password check.
pub open spec fn password_rejection(valid: bool) -> Option<Seq<char>> {
    if valid {
        None
    } else {
        Some("Invalid email or password"@)
    }
}

/// The answer that ends a sign-in before the password is checked (see
/// `account_rejection`). `None` to go on.
pub fn account_check(account: Option<AccountState>) -> (r: Option<LoginResponse>)
    ensures
        match account_rejection(account) {
            Some(m) => r matches Some(x) && is_failure(x, m),
            None => r is None,
        },
{
    match account {
        None => Some(failure("Invalid email or password")),
        Some(a) => if !a.confirmed {
            Some(failure("Please confirm your email address before signing in"))
        } else if !a.active {
            Some(failure("Your account has been suspended"))
        } else {
            None
        },
    }
}

/// The answer to a wrong password (see `password_rejection`).
pub fn password_check(valid: bool) -> (r: Option<LoginResponse>)
    ensures
        match password_rejection(valid) {
            Some(m) => r matches Some(x) && is_failure(x, m),
            None => r is None,
        },
{
    if !valid {
        Some(failure("Invalid email or password"))
    } else {
        None
    }
}

/// An unknown email and a wrong password are answered alike, so a
/// sign-in does not tell which emails have accounts.
pub proof fn law_unknown_email_like_wrong_password()
    ensures
        account_rejection(None) == password_rejection(false),
{
}

/// How long a login token lasts, in seconds.
pub open spec fn login_token_lifetime() -> int {
    300
}

/// The claims of a login token.
pub struct LoginTokenClaims {
    pub user_id: String,
    pub email: String,
    pub password_verified: bool,
    pub exp: u64,
    pub iat: u64,
}

/// The claims of the login token issued at `now` (seconds since the
/// epoch) to a user whose password was verified: it expires five minutes
/// later.
pub fn login_token_claims(user_id: u128, email: &str, now: u64) -> (r: LoginTokenClaims)
    requires
        now + 300 <= u64::MAX,
    ensures
        r.user_id@ == uuid_text(user_id),
        r.email@ == email@,
        r.password_verified,
        r.iat == now,
        r.exp == now + login_token_lifetime(),
{
    LoginTokenClaims {
        user_id: uuid_to_string(user_id),
        email: String::from_str(email),
        password_verified: true,
        exp: now + 300,
        iat: now,
    }
}

/// The HS256 token `jsonwebtoken::encode` makes of a login token's claims
/// (`user_id`, `email`, `password_verified`, `exp`, `iat`) with the default
/// header and `secret`.
pub uninterp spec fn login_jwt(
    user_id: Seq<char>,
    email: Seq<char>,
    password_verified: bool,
    exp: u64,
    iat: u64,
    secret: Seq<u8>,
) -> Seq<char>;

/// `jsonwebtoken::encode` of all five claims with the default (HS256)
/// header and a key from `secret`. What it makes is named `login_jwt`. With
/// an HMAC key, claims of strings, numbers and a boolean always serialise
/// and signing cannot fail, so a token always comes back.
#[verifier::external_body]
fn encode_login_token(claims: &LoginTokenClaims, secret: &[u8]) -> (r: Option<String>)
    ensures
        r is Some,
        r matches Some(t) ==> t@ == login_jwt(
            claims.user_id@,
            claims.email@,
            claims.password_verified,
            claims.exp,
            claims.iat,
            secret@,
        ),
{
    let mut c = std::collections::BTreeMap::new();
    c.insert("user_id", serde_json::Value::from(claims.user_id.as_str()));
    c.insert("email", serde_json::Value::from(claims.email.as_str()));
    c.insert("password_verified", serde_json::Value::from(claims.password_verified));
    c.insert("exp", serde_json::Value::from(claims.exp));
    c.insert("iat", serde_json::Value::from(claims.iat));
    let key = jsonwebtoken::EncodingKey::from_secret(secret);
    jsonwebtoken::encode(&jsonwebtoken::Header::default(), &c, &key).ok()
}

/// The answer that asks for an OTP code, carrying the login token.
pub open spec fn is_otp_request(r: LoginResponse, login_token: Seq<char>) -> bool {
    &&& !r.success
    &&& r.token is None
    &&& r.user is None
    &&& r.error is None
    &&& r.requires_otp == Some(true)
    &&& opt_view(r.login_token) == Some(login_token)
    &&& opt_view(r.message) == Some("Please enter your OTP code to complete login"@)
}

/// The answer for a user with OTP enabled: a login token issued at `now`
/// for a verified password, expiring five minutes later, signed with
/// `secret`.
pub fn otp_required(user_id: u128, email: &str, now: u64, secret: &[u8]) -> (r: LoginResponse)
    requires
        now + 300 <= u64::MAX,
    ensures
        is_otp_request(
            r,
            login_jwt(uuid_text(user_id), email@, true, (now + 300) as u64, now, secret@),
        ),
{
    let claims = login_token_claims(user_id, email, now);
    match encode_login_token(&claims, secret) {
        Some(t) => LoginResponse {
            success: false,
            token: None,
            user: None,
            error: None,
            requires_otp: Some(true),
            login_token: Some(t),
            message: Some(String::from_str("Please enter your OTP code to complete login")),
        },
        None => vstd::pervasive::unreached(),
    }
}

/// The answer to a completed sign-in.
pub fn login_success(token: String, user_id: u128, email: String, first_name: Option<String>, last_name: Option<String>) -> (r: LoginResponse)
    ensures
        r.success,
        opt_view(r.token) == Some(token@),
        r.user matches Some(u) && u.id@ == uuid_text(user_id) && u.email@ == email@ && opt_view(
            u.first_name,
        ) == opt_view(first_name) && opt_view(u.last_name) == opt_view(last_name),
        r.error is None,
        r.requires_otp is None,
        r.login_token is None,
        r.message is None,
{
    LoginResponse {
        success: true,
        token: Some(token),
        user: Some(UserResponse { id: uuid_to_string(user_id), email, first_name, last_name }),
        error: None,
        requires_otp: None,
        login_token: None,
        message: None,
    }
}

/// The answer when a request to finish signing in names neither code.
pub fn codes_check(otp_code: &Option<String>, backup_code: &Option<String>) -> (r: Option<LoginResponse>)
    ensures
        otp_code is None && backup_code is None ==> (r matches Some(x) && is_failure(
            x,
            "OTP code or backup code is required"@,
        )),
        !(otp_code is None && backup_code is None) ==> r is None,
{
    if otp_code.is_none() && backup_code.is_none() {
        Some(failure("OTP code or backup code is required"))
    } else {
        None
    }
}

/// The `user_id` and `exp` claims of a login token that
/// `jsonwebtoken::decode` accepted.
pub struct LoginTokenFields {
    pub user_id: Option<String>,
    pub exp: Option<u64>,
}

/// The `user_id` string claim and `exp` number claim of a token whose HS256
/// signature verifies under `secret` and whose payload is a JSON object;
/// `None` for any other token. This is the part of `jsonwebtoken::decode`
/// that does not look at the clock.
pub uninterp spec fn hs256_login_claims(token: Seq<char>, secret: Seq<u8>) -> Option<(Option<Seq<char>>, Option<u64>)>;

/// The claims of a decoded token as plain values.
pub open spec fn fields_view(f: LoginTokenFields) -> (Option<Seq<char>>, Option<u64>) {
    (opt_view(f.user_id), f.exp)
}

/// `jsonwebtoken::decode` with the default validation (HS256, `exp`
/// required and checked against the clock) and a key from `secret`,
/// keeping the `user_id` string and `exp` number claims. The signature and
/// the claims depend on the arguments alone and are named
/// `hs256_login_claims`: an accepted token has those claims, and a token
/// without them is refused. Whether a token with them is refused as
/// expired depends on the clock and is left unsaid.
#[verifier::external_body]
fn decode_login_token(token: &str, secret: &[u8]) -> (r: Option<LoginTokenFields>)
    ensures
        r matches Some(f) ==> hs256_login_claims(token@, secret@) == Some(fields_view(f)),
        hs256_login_claims(token@, secret@) is None ==> r is None,
{
    match jsonwebtoken::decode::<serde_json::Value>(
        token,
        &jsonwebtoken::DecodingKey::from_secret(secret),
        &jsonwebtoken::Validation::default(),
    ) {
        Ok(d) => Some(
            LoginTokenFields {
                user_id: d.claims.get("user_id").and_then(|v| v.as_str()).map(|s| s.to_string()),
                exp: d.claims.get("exp").and_then(|v| v.as_u64()),
            },
        ),
        Err(_) => None,
    }
}

/// What the claims of an accepted login token come to at `now`.
pub enum LoginTokenCheck {
    /// 401: no user id, or one that is not a UUID.
    Unauthorized,
    /// The token has expired: answered with this.
    Expired(LoginResponse),
    /// Go on for this user.
    User(u128),
}

/// What the claims of an accepted login token come to at `now`: the user
/// id must be there, the token must not have expired, and the id must be a
/// UUID, in that order.
pub open spec fn claims_checked(fields: (Option<Seq<char>>, Option<u64>), now: u64, r: LoginTokenCheck) -> bool {
    match fields.0 {
        None => r is Unauthorized,
        Some(uid) => match fields.1 {
            Some(exp) if exp < now => r matches LoginTokenCheck::Expired(x) && is_failure(
                x,
                "Login session expired. Please log in again."@,
            ),
            _ => match uuid_parsed(uid) {
                Some(u) => r == LoginTokenCheck::User(u),
                None => r is Unauthorized,
            },
        },
    }
}

/// What a decoding outcome comes to at `now`: a token the decoder rejected
/// is unauthorized; an accepted one is judged by its claims.
pub open spec fn token_checked(decoded: Option<LoginTokenFields>, now: u64, r: LoginTokenCheck) -> bool {
    match decoded {
        None => r is Unauthorized,
        Some(f) => claims_checked(fields_view(f), now, r),
    }
}

/// Checks the claims of an accepted login token at `now` (see
/// `claims_checked`).
pub fn login_token_check(fields: &LoginTokenFields, now: u64) -> (r: LoginTokenCheck)
    ensures
        claims_checked(fields_view(*fields), now, r),
{
    let uid = match &fields.user_id {
        Some(u) => u,
        None => return LoginTokenCheck::Unauthorized,
    };
    match fields.exp {
        Some(exp) => {
            if exp < now {
                return LoginTokenCheck::Expired(failure("Login session expired. Please log in again."));
            }
        },
        None => {},
    }
    match uuid_parse(uid.as_str()) {
        Some(u) => LoginTokenCheck::User(u),
        None => LoginTokenCheck::Unauthorized,
    }
}

/// The check of a login token from what decoding it gave (see
/// `token_checked`).
pub fn login_token_outcome(decoded: Option<LoginTokenFields>, now: u64) -> (r: LoginTokenCheck)
    ensures
        token_checked(decoded, now, r),
{
    match decoded {
        None => LoginTokenCheck::Unauthorized,
        Some(fields) => login_token_check(&fields, now),
    }
}

/// Checks a login token against `secret` at `now`: it is decoded with
/// `jsonwebtoken::decode` and the outcome judged by `login_token_outcome`.
/// A token without valid claims (`hs256_login_claims`) is unauthorized;
/// any other answer is the judgement of its claims at `now`. Whether the
/// decoder refuses a token with valid claims as expired depends on the
/// clock, and then the answer is unauthorized.
pub fn check_login_token(token: &str, secret: &[u8], now: u64) -> (r: LoginTokenCheck)
    ensures
        r is Unauthorized || (hs256_login_claims(token@, secret@) matches Some(c) && claims_checked(
            c,
            now,
            r,
        )),
{
    let decoded = decode_login_token(token, secret);
    login_token_outcome(decoded, now)
}

/// The answer when OTP is not enabled for the account.
pub fn otp_enabled_check(enabled: Option<bool>) -> (r: Option<LoginResponse>)
    ensures
        enabled != Some(true) ==> (r matches Some(x) && is_failure(
            x,
            "OTP is not enabled for this account"@,
        )),
        enabled == Some(true) ==> r is None,
{
    match enabled {
        Some(true) => None,
        _ => Some(failure("OTP is not enabled for this account")),
    }
}

/// The answer to a code that does not verify.
pub fn invalid_code() -> (r: LoginResponse)
    ensures
        is_failure(r, "Invalid OTP code or backup code"@),
{
    failure("Invalid OTP code or backup code")
}

/// What using a backup code against the stored JSON list of codes comes
/// to: the list to store once the code is removed, when it matches one.
/// A stored list that does not parse counts as empty.
pub open spec fn backup_code_outcome(stored: Seq<char>, code: Seq<char>) -> Option<Seq<char>> {
    let codes = match json_string_list(stored) {
        Some(l) => l,
        None => Seq::empty(),
    };
    match codes_after_use(codes, code) {
        Some(rest) => Some(json_render_list(rest)),
        None => None,
    }
}

/// Uses a backup code against the stored JSON list of codes (see
/// `backup_code_outcome`).
pub fn redeem_backup_code(stored: &str, code: &str) -> (r: Option<String>)
    ensures
        opt_view(r) == backup_code_outcome(stored@, code@),
{
    let codes = match parse_json_string_list(stored) {
        Some(v) => v,
        None => Vec::new(),
    };
    proof {
        if json_string_list(stored@) is None {
            assert(codes@.map_values(|x: String| x@) =~= Seq::<Seq<char>>::empty());
        }
    }
    match use_backup_code(codes, code) {
        Some(rest) => Some(render_json_string_list(&rest)),
        None => None,
    }
}

} // verus!
