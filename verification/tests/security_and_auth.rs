use leadsnebula_api::audit::{actor_name, audit_user_name, client_ip, request_id};
use leadsnebula_api::auth::{
    account_check, check_login_token, codes_check, login_token_outcome, invalid_code, login_success, login_token_check,
    login_token_claims, otp_enabled_check, otp_required, password_check, redeem_backup_code,
    AccountState, LoginTokenCheck, LoginTokenFields,
};
use leadsnebula_api::health::{health_report, health_status_code, pool_metrics, CacheProbe, Probe};
use leadsnebula_api::security::{
    backup_codes_from, bearer_token, challenge_token_from, forgot_password_plan, greeting_name,
    mask_email_for_log, name_or, new_backup_codes, new_challenge_token, new_otp_secret,
    new_reset_token, normalized_reset_email, otp_disable_refused, otp_secret_for_check,
    otp_secret_from, otp_setup_blocked, passkey_limit_reached, passkey_type, provisioning_uri,
    reset_base_url, reset_recently_sent, use_backup_code, use_host_as_rp_id,
    webauthn_debug_requested, webauthn_rp_id_and_origin,
};

#[test]
fn rp_id_and_origin_production() {
    let (rp, origin) = webauthn_rp_id_and_origin(
        "production",
        "https://dev.dashboard.leadsnebula.com",
        true,
        "leadsnebula.com",
        "http://localhost:3000",
    );
    assert_eq!(rp, "dev.dashboard.leadsnebula.com");
    assert_eq!(origin, "https://dev.dashboard.leadsnebula.com");
    let (rp, origin) = webauthn_rp_id_and_origin(
        "production",
        "https://dev.dashboard.leadsnebula.com",
        false,
        "leadsnebula.com",
        "http://localhost:3000",
    );
    assert_eq!(rp, "leadsnebula.com");
    assert_eq!(origin, "https://dev.dashboard.leadsnebula.com");
    let (rp, origin) =
        webauthn_rp_id_and_origin("production", "http://evil.test", true, "leadsnebula.com", "x");
    assert_eq!(rp, "leadsnebula.com");
    assert_eq!(origin, "https://leadsnebula.com");
    let (rp, origin) = webauthn_rp_id_and_origin("production", "", true, "leadsnebula.com", "x");
    assert_eq!((rp.as_str(), origin.as_str()), ("leadsnebula.com", "https://leadsnebula.com"));
}

#[test]
fn rp_id_and_origin_development() {
    let f = "http://localhost:3000";
    let (rp, origin) = webauthn_rp_id_and_origin("development", "", true, "leadsnebula.com", f);
    assert_eq!((rp.as_str(), origin.as_str()), ("localhost", f));
    let (rp, origin) =
        webauthn_rp_id_and_origin("development", "https://127.0.0.1:3000", true, "leadsnebula.com", f);
    assert_eq!((rp.as_str(), origin.as_str()), ("127.0.0.1", "https://127.0.0.1:3000"));
    let (rp, _) = webauthn_rp_id_and_origin(
        "development",
        "https://localhost.localdomain:3000",
        true,
        "leadsnebula.com",
        f,
    );
    assert_eq!(rp, "localhost.localdomain");
    let (rp, origin) =
        webauthn_rp_id_and_origin("development", "http://localhost:3000", true, "leadsnebula.com", f);
    assert_eq!((rp.as_str(), origin.as_str()), ("localhost", f));
}

#[test]
fn request_flags_and_tokens() {
    assert!(use_host_as_rp_id(None));
    assert!(!use_host_as_rp_id(Some("false")));
    assert!(!use_host_as_rp_id(Some("0")));
    assert!(use_host_as_rp_id(Some("no")));
    assert!(webauthn_debug_requested(Some("TRUE")));
    assert!(webauthn_debug_requested(Some("1")));
    assert!(!webauthn_debug_requested(Some("yes")));
    assert_eq!(bearer_token(Some("Bearer abc")), Some("abc".to_string()));
    assert_eq!(bearer_token(Some("bearer abc")), None);
    assert_eq!(bearer_token(None), None);
}

#[test]
fn email_masking() {
    assert_eq!(mask_email_for_log("  user@example.com "), "u***@example.com");
    assert_eq!(mask_email_for_log("@example.com"), "***@example.com");
    assert_eq!(mask_email_for_log("no-at-sign"), "***");
    assert_eq!(mask_email_for_log("   "), "***");
}

#[test]
fn passkey_rules() {
    assert!(!passkey_limit_reached(2));
    assert!(passkey_limit_reached(3));
    assert_eq!(passkey_type(Some("platform")), "soft");
    assert_eq!(passkey_type(Some("cross-platform")), "physical");
    assert_eq!(passkey_type(Some("hybrid")), "unknown");
    assert_eq!(passkey_type(None), "soft");
    assert_eq!(name_or(None, "Passkey"), "Passkey");
    assert_eq!(name_or(Some("Mine".to_string()), "Passkey"), "Mine");
    assert_eq!(challenge_token_from(&[0, 1, 15, 16, 255]), "01f10ff");
    let t = new_challenge_token();
    assert!(t.len() >= 16 && t.len() <= 32);
}

#[test]
fn reset_flow_pieces() {
    assert!(reset_recently_sent(299));
    assert!(!reset_recently_sent(300));
    assert_eq!(new_reset_token().len(), 43);
    assert_eq!(
        reset_base_url("Development", Some(" https://localhost:3000/dashboard/x/ "), "https://app"),
        "https://localhost:3000"
    );
    assert_eq!(reset_base_url("development", Some("localhost:3000//"), "https://app"), "localhost:3000");
    assert_eq!(reset_base_url("development", None, "https://app"), "https://app");
    assert_eq!(reset_base_url("production", Some("https://x"), "https://app"), "https://app");
    assert_eq!(normalized_reset_email("  Ann@Example.COM "), Some("ann@example.com".to_string()));
    assert_eq!(normalized_reset_email("   "), None);
    assert_eq!(greeting_name(Some(" Ann"), None), Some("Ann".to_string()));
    assert_eq!(greeting_name(None, None), None);
    let p = forgot_password_plan("a@b.c", Some("active"));
    assert!(p.send_link);
    let q = forgot_password_plan("a@b.c", None);
    assert!(!q.send_link);
    assert_eq!(p.answer, q.answer);
    assert_eq!(forgot_password_plan(" ", Some("active")).answer, Err("Email is required".to_string()));
}

#[test]
fn otp_material() {
    let bytes: Vec<u8> = (0u8..20).collect();
    assert_eq!(otp_secret_from(&bytes), "AAAQEAYEAUDAOCAJBIFQYDIOB4IBCEQT");
    assert_eq!(new_otp_secret().len(), 32);
    assert_eq!(
        provisioning_uri("a+b@x.com", "ABC"),
        "otpauth://totp/LeadsNebula:a%2Bb%40x.com?secret=ABC&issuer=LeadsNebula"
    );
    let bytes: Vec<u8> = (0u8..64).collect();
    let codes = backup_codes_from(&bytes);
    assert_eq!(codes[0], "ABCDEFGH");
    assert_eq!(codes[3], "23456789");
    assert_eq!(codes[4], "ABCDEFGH");
    let fresh = new_backup_codes();
    assert_eq!(fresh.len(), 8);
    assert!(fresh.iter().all(|c| c.len() == 8 && !c.contains('0') && !c.contains('O')));
    assert!(otp_setup_blocked(Some(true)));
    assert!(!otp_setup_blocked(Some(false)));
    assert!(otp_disable_refused(None));
    assert_eq!(otp_secret_for_check(None, Some("S".to_string())), Some("S".to_string()));
    assert_eq!(otp_secret_for_check(Some("D".to_string()), Some("S".to_string())), Some("D".to_string()));
}

#[test]
fn backup_codes_are_used_once() {
    let codes = vec!["ABCD".to_string(), "EFGH".to_string()];
    assert_eq!(use_backup_code(codes.clone(), "efgh"), Some(vec!["ABCD".to_string()]));
    assert_eq!(use_backup_code(codes, "zzzz"), None);
    assert_eq!(redeem_backup_code("[\"ABCD\",\"EFGH\"]", "abcd"), Some("[\"EFGH\"]".to_string()));
    assert_eq!(redeem_backup_code("not json", "abcd"), None);
}

#[test]
fn login_steps() {
    let r = account_check(None).unwrap();
    assert_eq!(r.error.as_deref(), Some("Invalid email or password"));
    let w = password_check(false).unwrap();
    assert_eq!(w.error, r.error);
    assert!(password_check(true).is_none());
    let u = account_check(Some(AccountState { confirmed: false, active: true })).unwrap();
    assert_eq!(u.error.as_deref(), Some("Please confirm your email address before signing in"));
    let s = account_check(Some(AccountState { confirmed: true, active: false })).unwrap();
    assert_eq!(s.error.as_deref(), Some("Your account has been suspended"));
    assert!(account_check(Some(AccountState { confirmed: true, active: true })).is_none());
    let c = login_token_claims(1, "a@b.c", 1000);
    assert_eq!((c.exp, c.iat, c.password_verified), (1300, 1000, true));
    assert_eq!(c.user_id, "00000000-0000-0000-0000-000000000001");
    let o = otp_required(1, "a@b.c", 1000, b"secret");
    assert_eq!(o.requires_otp, Some(true));
    assert!(!o.success);
    assert_eq!(o.login_token.unwrap().split('.').count(), 3);
    let ok = login_success("tok".to_string(), 1, "a@b.c".to_string(), None, Some("L".to_string()));
    assert!(ok.success);
    assert_eq!(ok.user.unwrap().last_name.as_deref(), Some("L"));
}

#[test]
fn otp_login_steps() {
    let r = codes_check(&None, &None).unwrap();
    assert_eq!(r.error.as_deref(), Some("OTP code or backup code is required"));
    assert!(codes_check(&Some("1".to_string()), &None).is_none());
    let f = LoginTokenFields { user_id: None, exp: Some(5) };
    assert!(matches!(login_token_check(&f, 10), LoginTokenCheck::Unauthorized));
    let f = LoginTokenFields { user_id: Some("00000000-0000-0000-0000-000000000002".to_string()), exp: Some(5) };
    match login_token_check(&f, 10) {
        LoginTokenCheck::Expired(x) => assert_eq!(x.error.as_deref(), Some("Login session expired. Please log in again.")),
        _ => panic!("expected expiry"),
    }
    assert!(matches!(login_token_check(&f, 5), LoginTokenCheck::User(2)));
    let f = LoginTokenFields { user_id: Some("bad".to_string()), exp: None };
    assert!(matches!(login_token_check(&f, 5), LoginTokenCheck::Unauthorized));
    assert!(otp_enabled_check(Some(true)).is_none());
    assert_eq!(otp_enabled_check(None).unwrap().error.as_deref(), Some("OTP is not enabled for this account"));
    assert_eq!(invalid_code().error.as_deref(), Some("Invalid OTP code or backup code"));
}

#[test]
fn health_reports() {
    let h = health_report(Probe::Answered, CacheProbe::Probed(Probe::TimedOut));
    assert!(h.healthy);
    assert_eq!(h.database, "ok");
    assert_eq!(h.redis, "warning: connection timeout");
    let h = health_report(Probe::Failed("boom".to_string()), CacheProbe::NotConfigured);
    assert!(!h.healthy);
    assert_eq!(h.database, "error: boom");
    assert_eq!(h.redis, "not configured");
    assert_eq!(health_status_code(false), 503);
    let m = pool_metrics(20, 1, true, false);
    assert_eq!(m.active_connections, 19);
    assert_eq!(m.cache_status, "disconnected");
    assert!(m.auction_time_high);
    assert!(m.cache_miss_rate_high);
    assert!(!m.db_pool_exhausted);
    let m = pool_metrics(0, 3, false, false);
    assert_eq!(m.active_connections, 0);
    assert_eq!(m.cache_status, "not_configured");
}

#[test]
fn audit_context() {
    assert_eq!(actor_name(Some("Ann"), None, "a@b.c"), "Ann");
    assert_eq!(actor_name(None, None, "a@b.c"), "a@b.c");
    assert_eq!(audit_user_name(Some(""), Some(""), Some("e")), "e");
    assert_eq!(audit_user_name(Some("A"), Some("B"), None), "A B");
    assert_eq!(audit_user_name(None, Some("B"), None), "Unknown");
    assert_eq!(client_ip(Some(" 1.2.3.4 , 5.6.7.8"), Some("9.9.9.9")), Some("1.2.3.4".to_string()));
    assert_eq!(client_ip(None, Some("9.9.9.9")), Some("9.9.9.9".to_string()));
    assert_eq!(client_ip(None, None), None);
    assert_eq!(request_id(None, Some("c"), "f".to_string()), "c");
    assert_eq!(request_id(None, None, "f".to_string()), "f");
}

#[test]
fn a_token_that_does_not_decode_is_unauthorized() {
    assert!(matches!(
        check_login_token("not-a-token", b"secret", 1_700_000_000),
        LoginTokenCheck::Unauthorized
    ));
}

#[test]
fn a_rejected_token_is_unauthorized_whatever_the_time() {
    assert!(matches!(login_token_outcome(None, 0), LoginTokenCheck::Unauthorized));
    let fields = LoginTokenFields { user_id: Some("00000000-0000-0000-0000-000000000007".to_string()), exp: Some(50) };
    assert!(matches!(login_token_outcome(Some(fields), 10), LoginTokenCheck::User(7)));
}

#[test]
fn masking_a_masked_email_changes_nothing() {
    for e in ["alice@example.com", "  bob@x.org ", "nobody", ""] {
        let once = mask_email_for_log(e);
        assert_eq!(mask_email_for_log(&once), once);
    }
    assert_eq!(mask_email_for_log(&mask_email_for_log("@x.org")), "****@x.org");
}

#[test]
fn a_non_ascii_email_gets_the_same_answer() {
    let p = forgot_password_plan("  Élodie@exemple.fr ", None);
    assert_eq!(
        p.answer,
        Ok("If an account with that email exists, a password reset link has been sent.".to_string())
    );
    assert!(!p.send_link);
}

#[test]
fn provisioning_uri_percent_encodes_utf8_bytes() {
    assert_eq!(
        provisioning_uri("é.x_~-@y", "S"),
        "otpauth://totp/LeadsNebula:%C3%A9.x_~-%40y?secret=S&issuer=LeadsNebula"
    );
}

#[test]
fn a_token_made_at_sign_in_is_read_back_only_with_its_secret() {
    let now = std::time::SystemTime::now()
        .duration_since(std::time::UNIX_EPOCH)
        .unwrap()
        .as_secs();
    let o = otp_required(7, "a@b.c", now, b"secret");
    let token = o.login_token.unwrap();
    assert!(matches!(check_login_token(&token, b"secret", now), LoginTokenCheck::User(7)));
    assert!(matches!(check_login_token(&token, b"another", now), LoginTokenCheck::Unauthorized));
    assert!(matches!(check_login_token("", b"secret", now), LoginTokenCheck::Unauthorized));
}
