use leadsnebula_api::leads::{
    build_lead_id, check_publisher_id, decide_prechecks, error_code, final_lead_status,
    generate_lead_id, lead_rejection, map_error_to_user, new_event_id, new_inprogress_token, post_step,
    ClaimOutcome, LeadLookup, PostAction, PostEvent, PostStage,
    new_session_id, normalize_request_type, precheck_rejection,
    price_slot, routed_message, settle_post, strategy_for, verbose_requested, FinalLeadStatus,
    LeadRejection, PostSettlement, PrecheckDecision, PrecheckOutcome, PriceSlot,
    PublisherIdCheck, RoutedMessage, RoutingFacts,
};
use leadsnebula_api::pulsar::{
    handle_fullpost, handle_ping, handle_post, internal_buyer_id, pulsar_price, route_pulsar,
    PulsarRoute,
};
use leadsnebula_api::text::parse_i64;
use leadsnebula_api::webauthn_challenge::ChallengeStore;

#[test]
fn error_mapping_lists_problems() {
    let (friendly, technical) =
        map_error_to_user("null value in column \"buyer_id\" violates not-null constraint");
    assert_eq!(friendly, "No buyer configured for this publisher/vertical");
    assert_eq!(
        technical,
        "error returned from database: null value in column \"buyer_id\" violates not-null constraint"
    );
    let (friendly, _) = map_error_to_user("NULL VALUE somewhere");
    assert_eq!(friendly, "Required data missing for this operation. Contact support or try again later.");
    let (friendly, _) = map_error_to_user("boom");
    assert_eq!(friendly, "An internal server error occurred. Contact support if the problem persists.");
}

#[test]
fn prechecks() {
    match decide_prechecks(PrecheckOutcome::Found { campaign_id: Some(2), buyer_id: Some(1) }, true) {
        PrecheckDecision::Proceed { buyer_id, campaign_id } => assert_eq!((buyer_id, campaign_id), (1, 2)),
        _ => panic!("expected to proceed"),
    }
    for outcome in [
        PrecheckOutcome::FallbackBuyer { buyer: 3 },
        PrecheckOutcome::Found { campaign_id: None, buyer_id: Some(3) },
    ] {
        match decide_prechecks(outcome, false) {
            PrecheckDecision::Reject { problems } => {
                assert_eq!(problems, vec!["No campaign configured for this publisher/vertical".to_string()])
            }
            _ => panic!("expected a rejection"),
        }
    }
    match decide_prechecks(PrecheckOutcome::NoBuyer, true) {
        PrecheckDecision::Reject { problems } => {
            assert_eq!(problems.len(), 2);
            let (m, e) = precheck_rejection(&problems);
            assert_eq!(
                m,
                "No buyer configured for this publisher/vertical\nNo campaign configured for this publisher/vertical"
            );
            assert!(e.starts_with("pre-check failures: No buyer configured"));
        }
        _ => panic!("expected a rejection"),
    }
}

#[test]
fn lead_ids_and_flags() {
    assert_eq!(build_lead_id(None, "solar", &['a', 'b', '1']), "SOLAR-AB1");
    assert_eq!(build_lead_id(Some("X".to_string()), "solar", &['a']), "X");
    let id = generate_lead_id(None, "solar");
    assert!(id.starts_with("SOLAR-") && id.len() == 14);
    assert_eq!(normalize_request_type(None), "ping");
    assert_eq!(normalize_request_type(Some("FullPost")), "fullpost");
    assert_eq!(strategy_for("fullpost"), "fullPost");
    assert_eq!(strategy_for("ping"), "pingPost");
    assert!(verbose_requested(Some(true), Some(false), false));
    assert!(!verbose_requested(Some(true), Some(true), true));
    assert!(verbose_requested(None, Some(true), true));
    assert_eq!(error_code(404), "ERR_404");
    assert!(matches!(check_publisher_id(None, 5), PublisherIdCheck::Accepted));
    assert!(matches!(check_publisher_id(Some("nope"), 5), PublisherIdCheck::InvalidFormat));
    assert!(matches!(
        check_publisher_id(Some("00000000-0000-0000-0000-000000000006"), 5),
        PublisherIdCheck::Mismatch
    ));
}

#[test]
fn routing_outcomes() {
    let f = RoutingFacts {
        success: true,
        status: "accepted".to_string(),
        price_positive: true,
        post_id_present: false,
        campaign_present: true,
        buyer_present: true,
    };
    assert!(final_lead_status(&f) == FinalLeadStatus::Sold);
    let g = RoutingFacts { price_positive: false, ..f };
    assert!(final_lead_status(&g) == FinalLeadStatus::PingAccepted);
    assert!(price_slot("accepted") == PriceSlot::Bid);
    assert!(price_slot("sold") == PriceSlot::Price);
    assert!(routed_message("sold", true, false) == RoutedMessage::Sold);
    assert!(routed_message("other", false, true) == RoutedMessage::Silent);
    assert!(settle_post(true, "sold") == PostSettlement::MarkSold);
    assert!(settle_post(false, "sold") == PostSettlement::ReleaseClaim);
}

#[test]
fn rejection_answers() {
    let r = lead_rejection(LeadRejection::PublisherMismatch { provided: "x".to_string(), authenticated: 1 });
    assert_eq!((r.http_status, r.reported_status), (400, 401));
    assert_eq!(
        r.status.error.as_deref(),
        Some("Publisher ID mismatch: provided=x, authenticated=00000000-0000-0000-0000-000000000001")
    );
    let r = lead_rejection(LeadRejection::LeadLookupFailed { error_text: "e".to_string(), cached: true });
    assert_eq!((r.http_status, r.reported_status), (400, 500));
    let r = lead_rejection(LeadRejection::LeadNotFound);
    assert_eq!(r.status.error.as_deref(), Some("Lead not found"));
    assert_eq!(r.status.status, "error");
}

#[test]
fn pulsar_handlers() {
    assert!(route_pulsar(None) == PulsarRoute::Ping);
    assert!(route_pulsar(Some("POST")) == PulsarRoute::Post);
    assert!(route_pulsar(Some("x")) == PulsarRoute::Invalid);
    assert_eq!(internal_buyer_id(Some("00000000-0000-0000-0000-000000000009")), Some(9));
    assert_eq!(internal_buyer_id(None), None);
    assert_eq!(pulsar_price(0), 100);
    assert_eq!(pulsar_price(399), 299);
    let p = handle_ping();
    assert!(p.response.success);
    assert!(p.ping_id.starts_with("PING_") && p.ping_id.len() == 5 + 16);
    let post = handle_post("PROMISE_1".to_string(), true);
    assert!(!post.response.success);
    assert_eq!(post.response.error.as_deref(), Some("This promise_id has already been used"));
    let sold = handle_post("PROMISE_1".to_string(), false);
    assert_eq!(sold.response.status, "sold");
    let f = handle_fullpost();
    assert!(f.success && f.post_id.is_some());
}

#[test]
fn challenges_expire_and_are_used_once() {
    let mut store: ChallengeStore<u8> = ChallengeStore::new();
    store.store_challenge("t1".to_string(), "c1".to_string(), 7, 1_000);
    assert_eq!(store.get_challenge("t1", 8, 1_001), None);
    assert_eq!(store.get_challenge("t1", 7, 1_001), Some("c1".to_string()));
    assert_eq!(store.get_challenge("t1", 7, 1_002), None);
    store.store_challenge("t2".to_string(), "c2".to_string(), 7, 1_000);
    assert_eq!(store.get_challenge("t2", 7, 1_000 + 300_000), None);
    store.store_registration_state("r1".to_string(), 42, 7, 5_000);
    assert_eq!(store.get_registration_state("r1", 7, 5_000 + 299_999), Some(42));
}

#[test]
fn integers_parse_as_std_does() {
    assert_eq!(parse_i64("42"), Some(42));
    assert_eq!(parse_i64("-9223372036854775808"), Some(i64::MIN));
    assert_eq!(parse_i64("9223372036854775808"), None);
    assert_eq!(parse_i64("+"), None);
    assert_eq!(parse_i64(""), None);
    assert_eq!(parse_i64(" 1"), None);
    assert_eq!(parse_i64("007"), Some(7));
    for s in ["0", "-1", "+12", "1a", "99999999999999999999", "-"] {
        assert_eq!(parse_i64(s), s.parse::<i64>().ok());
    }
}

#[test]
fn fresh_lead_ids_carry_their_prefixes() {
    for (id, prefix) in [(new_event_id(), "evt_"), (new_session_id(), "sess_"), (new_inprogress_token(), "INPROG_")] {
        assert!(id.starts_with(prefix));
        let u = &id[prefix.len()..];
        assert_eq!(u.len(), 36);
        assert_eq!(u.matches('-').count(), 4);
        assert_eq!(u, u.to_lowercase());
    }
    assert_ne!(new_event_id(), new_event_id());
}

#[test]
fn generated_lead_ids_end_in_upper_case_letters_or_digits() {
    for _ in 0..20 {
        let id = generate_lead_id(None, "solar");
        let tail = &id["SOLAR-".len()..];
        assert_eq!(tail.len(), 8);
        assert!(tail.chars().all(|c| c.is_ascii_digit() || c.is_ascii_uppercase()));
    }
}

#[test]
fn a_post_claims_its_promise_before_routing() {
    let (s, a) = post_step(PostStage::Start, PostEvent::Submitted { promise_id: Some("PROMISE_01".to_string()) }).unwrap();
    assert!(matches!(a, PostAction::LookUpLead { ref promise_id } if promise_id == "PROMISE_01"));
    let (s, a) = post_step(s, PostEvent::LeadLooked(LeadLookup::Found)).unwrap();
    assert!(matches!(a, PostAction::ClaimPromise));
    let (s2, a) = post_step(s, PostEvent::Claimed(ClaimOutcome::Granted)).unwrap();
    assert!(matches!(a, PostAction::Route));
    let (s3, a) = post_step(s2, PostEvent::Routed { success: true, status: "sold".to_string() }).unwrap();
    assert!(matches!(a, PostAction::Settle(PostSettlement::MarkSold)));
    assert!(post_step(s3, PostEvent::Claimed(ClaimOutcome::Granted)).is_none());
}

#[test]
fn a_refused_claim_is_rejected_without_settling() {
    let (s, _) = post_step(PostStage::Start, PostEvent::Submitted { promise_id: Some("P".to_string()) }).unwrap();
    let (s, _) = post_step(s, PostEvent::LeadLooked(LeadLookup::Found)).unwrap();
    let (s, a) = post_step(s, PostEvent::Claimed(ClaimOutcome::Refused)).unwrap();
    assert!(matches!(a, PostAction::Reject(LeadRejection::DuplicateOrExpired)));
    assert!(post_step(s, PostEvent::Routed { success: true, status: "sold".to_string() }).is_none());
    let (_, a) = post_step(PostStage::Start, PostEvent::Submitted { promise_id: None }).unwrap();
    assert!(matches!(a, PostAction::Reject(LeadRejection::MissingPromiseId)));
}

#[test]
fn a_buyer_without_a_campaign_is_rejected_with_or_without_a_token() {
    for token in [true, false] {
        match decide_prechecks(PrecheckOutcome::Found { campaign_id: None, buyer_id: Some(3) }, token) {
            PrecheckDecision::Reject { problems } => {
                assert!(problems.contains(&"No campaign configured for this publisher/vertical".to_string()))
            }
            _ => panic!("expected a rejection"),
        }
    }
}

#[test]
fn error_mapping_of_ascii_texts_ignores_case() {
    let (friendly, _) = map_error_to_user("ERROR: Column PUBLISHER_ID Does Not Exist");
    assert_eq!(
        friendly,
        "Server configuration error: database schema mismatch. Contact the administrator."
    );
    let (friendly, _) = map_error_to_user("Campaign_Id and POST_ID missing");
    assert_eq!(
        friendly,
        "No campaign configured for this publisher/vertical\nPost could not be created: required post identifier missing"
    );
}

#[test]
fn a_reused_promise_is_refused_with_its_message() {
    let post = handle_post("PROMISE_AB".to_string(), true);
    assert_eq!(post.response.status, "rejected");
    assert_eq!(
        post.response.message.as_deref(),
        Some("The promise_id 'PROMISE_AB' was already used for a sold lead and cannot be reused.")
    );
    assert_eq!(post.response.promise_id.as_deref(), Some("PROMISE_AB"));
    assert!(post.response.post_id.is_none() && post.response.price.is_none());
    let sold = handle_post("PROMISE_AB".to_string(), false);
    assert_eq!(sold.response.message.as_deref(), Some("Lead accepted and sold"));
    let id = sold.response.post_id.unwrap();
    assert!(id.starts_with("POST_") && id.len() == 5 + 16);
    assert!(id[5..].chars().all(|c| c.is_ascii_digit() || ('A'..='F').contains(&c)));
}

#[test]
fn a_fullpost_gives_all_three_identifiers() {
    let f = handle_fullpost();
    assert_eq!(f.status, "sold");
    assert_eq!(f.message.as_deref(), Some("Lead accepted and sold via fullpost"));
    let ping = f.ping_id.unwrap();
    let post = f.post_id.unwrap();
    let promise = f.promise_id.unwrap();
    assert!(ping.starts_with("PING_") && ping.len() == 5 + 16);
    assert!(post.starts_with("POST_") && post.len() == 5 + 16);
    assert!(promise.starts_with("PROMISE_") && promise.len() == 8 + 12);
    for hex in [&ping[5..], &post[5..], &promise[8..]] {
        assert!(hex.chars().all(|c| c.is_ascii_digit() || ('A'..='F').contains(&c)));
    }
    let p = f.price.unwrap();
    assert!((100..300).contains(&p));
    assert!(f.error.is_none() && f.reason.is_none());
}
