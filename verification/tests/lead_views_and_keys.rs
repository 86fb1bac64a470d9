use leadsnebula_api::lead_views::{
    group_by_slug, lead_post_id, pagination, parse_query, pending_key, pii_value, ping_result,
    ping_source, query_param, request_payload_key, search_pattern, search_term, slug_or_unknown,
    total_pages, vertical_display_name, PingSource,
};
use leadsnebula_api::leads::ping_record_id;
use leadsnebula_api::publishers::{
    api_key_access, api_key_from_bytes, classify_publisher_insert_error, duplicate_email_message,
    hmac_secret_from_bytes, new_api_key, publisher_listing, ApiKeyAccess, PublisherInsertFailure,
    PublisherRow, VerticalRow,
};

#[test]
fn query_string_pairs_decode_and_last_wins() {
    let pairs = parse_query("page=2&search=a%20b&flag&page=3&x=1=2");
    assert_eq!(pairs.len(), 5);
    assert_eq!(pairs[1], ("search".to_string(), "a b".to_string()));
    assert_eq!(pairs[2], ("flag".to_string(), String::new()));
    assert_eq!(pairs[4], ("x".to_string(), "1=2".to_string()));
    assert_eq!(query_param(&pairs, "page"), Some("3".to_string()));
    assert_eq!(query_param(&pairs, "missing"), None);
    let raw = parse_query("k=%FF");
    assert_eq!(raw[0].1, "%FF");
}

#[test]
fn pagination_defaults_and_bounds() {
    let p = pagination(None, None);
    assert_eq!((p.page, p.per_page, p.offset), (1, 100, Some(0)));
    let p = pagination(Some("3"), Some("500"));
    assert_eq!((p.page, p.per_page, p.offset), (3, 100, Some(200)));
    let p = pagination(Some("-4"), Some("0"));
    assert_eq!((p.page, p.per_page, p.offset), (1, 1, Some(0)));
    let p = pagination(Some("+7"), Some("abc"));
    assert_eq!((p.page, p.per_page, p.offset), (7, 100, Some(600)));
    let p = pagination(Some("9223372036854775807"), Some("10"));
    assert_eq!(p.offset, None);
    let p = pagination(Some("99999999999999999999"), None);
    assert_eq!(p.page, 1);
    assert_eq!(total_pages(0, 100), 0);
    assert_eq!(total_pages(101, 100), 2);
    assert_eq!(total_pages(100, 100), 1);
}

#[test]
fn search_terms_need_three_bytes() {
    assert_eq!(search_term(Some("  ABc ")), Some("abc".to_string()));
    assert_eq!(search_term(Some(" ab ")), None);
    assert_eq!(search_term(Some("é1")), Some("é1".to_string()));
    assert_eq!(search_term(None), None);
    assert_eq!(search_pattern("abc"), "%abc%");
}

#[test]
fn verticals_group_leads_in_order() {
    let slugs = vec!["solar".to_string(), "roofing".to_string(), "solar".to_string()];
    let g = group_by_slug(&slugs);
    assert_eq!(g.len(), 2);
    assert_eq!(g[0], ("solar".to_string(), vec![0, 2]));
    assert_eq!(g[1], ("roofing".to_string(), vec![1]));
    assert_eq!(vertical_display_name("solar"), "Solar");
    assert_eq!(vertical_display_name(""), "");
    assert_eq!(slug_or_unknown(None), "unknown");
}

#[test]
fn pii_placeholder_without_key() {
    assert_eq!(
        pii_value(false, Some("enc"), None),
        Some("[Encrypted - decryption key unavailable]".to_string())
    );
    assert_eq!(pii_value(false, Some(""), None), None);
    assert_eq!(pii_value(true, Some("enc"), Some("Ann".to_string())), Some("Ann".to_string()));
    assert_eq!(pii_value(true, Some("enc"), None), None);
    assert_eq!(pii_value(true, None, Some("x".to_string())), None);
}

#[test]
fn pending_key_of_accepted_ping_id() {
    let accepted = format!("FP_{}", "TDF8MjAyNDAxMDExMjAwMDB8YWNjZXB0ZWQ=");
    assert_eq!(
        pending_key(&accepted),
        Some("FP_TDF8MjAyNDAxMDExMjAwMDB8cGVuZGluZw==".to_string())
    );
    assert_eq!(pending_key("XX_abc"), None);
    assert_eq!(pending_key("FP_TDF8MjAyNDAxMDExMjAwMDB8YWNjZXB0ZWQ=_C!!"), None);
    let record = ping_record_id("L1", "20240101120000");
    assert_eq!(record, "FP_TDF8MjAyNDAxMDExMjAwMDB8cGVuZGluZw==");
    assert_eq!(pending_key(&record), Some(record.clone()));
}

#[test]
fn request_payload_resolution() {
    let record = ping_record_id("L1", "20240101120000");
    let accepted = "FP_TDF8MjAyNDAxMDExMjAwMDB8YWNjZXB0ZWQ=".to_string();
    let keys = vec![(record.clone(), true)];
    assert_eq!(request_payload_key(Some(&accepted), &keys), Some(record.clone()));
    assert_eq!(request_payload_key(Some(&record), &keys), Some(record.clone()));
    let unreadable = vec![(accepted.clone(), false), (record.clone(), true)];
    assert_eq!(request_payload_key(Some(&accepted), &unreadable), None);
    assert_eq!(request_payload_key(None, &keys), None);
}

#[test]
fn ping_status_and_sources() {
    assert_eq!(ping_result(Some(1), Some(2), Some(1), Some(2)), (true, "W"));
    assert_eq!(ping_result(None, None, None, None), (false, "L"));
    assert_eq!(ping_result(Some(1), Some(2), Some(1), Some(3)), (false, "L"));
    assert!(matches!(ping_source(2, 5), PingSource::BuyerResponses));
    assert!(matches!(ping_source(0, 5), PingSource::PingPayloads));
    assert!(matches!(ping_source(0, 0), PingSource::Nothing));
    assert_eq!(lead_post_id(Some("P1".to_string()), &vec![Some("P2".to_string())]), Some("P1".to_string()));
    assert_eq!(lead_post_id(None, &vec![None, Some("P2".to_string()), Some("P3".to_string())]), Some("P2".to_string()));
    assert_eq!(lead_post_id(None, &vec![None]), None);
}

#[test]
fn api_keys_and_secrets() {
    let bytes: Vec<u8> = (0u8..32).collect();
    let m = api_key_from_bytes(&bytes);
    assert_eq!(m.api_key, "pk_live_000102030405060708090a0b0c0d0e0f101112131415161718191a1b1c1d1e1f");
    assert_eq!(m.api_key_hash, "9cfc42ac0cd9795e932a343570c00a7bf116ec65dc256f4c91784370fee66ce3");
    let k = new_api_key();
    assert_eq!(k.api_key.len(), 8 + 64);
    assert!(k.api_key.starts_with("pk_live_"));
    let bytes: Vec<u8> = (0u8..64).collect();
    let h = hmac_secret_from_bytes(&bytes);
    assert_eq!(h.secret.len(), 128);
    assert_eq!(h.secret_prefix, "00010203040506070809");
    assert_eq!(h.secret_hash, "90b826191948ddb62d780178a0a4e10b3ba746784253b5c7f1b815af0208c544");
}

#[test]
fn publisher_errors_and_key_access() {
    assert!(matches!(
        classify_publisher_insert_error("duplicate key value violates unique constraint \"publishers_email_key\""),
        PublisherInsertFailure::DuplicateEmail
    ));
    assert!(matches!(
        classify_publisher_insert_error("duplicate key value violates unique constraint \"publishers_api_key_hash_key\""),
        PublisherInsertFailure::KeyCollision
    ));
    assert!(matches!(classify_publisher_insert_error("timeout"), PublisherInsertFailure::Other));
    assert_eq!(
        duplicate_email_message("a@b.c"),
        "A publisher with the email 'a@b.c' already exists. Please use a different email address."
    );
    assert!(matches!(api_key_access(false, &Some("x".to_string())), ApiKeyAccess::Forbidden));
    assert!(matches!(api_key_access(true, &Some(String::new())), ApiKeyAccess::NeedsRegeneration));
    assert!(matches!(api_key_access(true, &None), ApiKeyAccess::NeedsRegeneration));
    assert!(matches!(api_key_access(true, &Some("enc".to_string())), ApiKeyAccess::Decrypt(s) if s == "enc"));
}

#[test]
fn publisher_listing_attaches_verticals_once() {
    let row = |id: u128, name: &str| PublisherRow {
        id,
        name: name.to_string(),
        email: format!("{}@x.test", name),
        status: "active".to_string(),
        api_key_prefix: "pk_live_".to_string(),
        hmac_required: false,
        created_at: "2024-01-01T00:00:00+00:00".to_string(),
        deleted_at: None,
    };
    let pubs = vec![row(1, "a"), row(2, "b"), row(1, "a")];
    let rows = vec![
        VerticalRow { publisher_id: 1, id: 10, name: "Solar".to_string(), slug: "solar".to_string() },
        VerticalRow { publisher_id: 2, id: 11, name: "Roof".to_string(), slug: "roof".to_string() },
        VerticalRow { publisher_id: 1, id: 12, name: "Auto".to_string(), slug: "auto".to_string() },
    ];
    let l = publisher_listing(&pubs, &rows);
    assert_eq!(l.len(), 3);
    assert_eq!(l[0].id, "00000000-0000-0000-0000-000000000001");
    assert_eq!(l[0].verticals.len(), 2);
    assert_eq!(l[0].verticals[1].slug, "auto");
    assert_eq!(l[1].verticals.len(), 1);
    assert_eq!(l[2].verticals.len(), 0);
}
