use leadsnebula_api::audit::{FieldValue, FieldChange};
use leadsnebula_api::buyers::{
    buyer_after, buyer_vertical, can_activate, check_new_buyer_types, duplicate_name_message,
    is_name_constraint_violation, name_constraint_message, plan_buyer_update,
    pulsar_integration_slug, takes_pulsar_integration, BuyerRecord, BuyerUpdate, BuyerUpdatePlan,
    BuyerVertical, IntegrationField, VerticalRecord,
};
use leadsnebula_api::campaigns::{
    new_campaign_token, plan_campaign_update, CampaignRecord, CampaignUpdate, CampaignUpdatePlan,
};
use leadsnebula_api::ping_trees::{
    left_in_no_tree, plan_ping_tree_update, valid_strategy, PingTreeRecord, PingTreeUpdate,
    PingTreeUpdatePlan,
};
use leadsnebula_api::publishers::{
    plan_publisher_update, PublisherUpdatePlan, UpdatePublisherRequest,
};
use leadsnebula_api::rule_sets::{
    audit_of_update, new_rule_set_settings, plan_rule_set_update, zip_codes_to_insert,
    zip_list_name, RuleSetSnapshot, RuleSetUpdate, RuleSetUpdatePlan,
};
use leadsnebula_api::sql::SqlValue;
use leadsnebula_api::tenancy::{choose_instance, InstanceChoice};

const BUYER_ID: u128 = 0x0123_4567_89ab_cdef_0123_4567_89ab_cdef;

fn buyer() -> BuyerRecord {
    BuyerRecord {
        name: "Acme".to_string(),
        email_address: None,
        ein_tin: Some("12-3".to_string()),
        address_street: None,
        address_city: None,
        address_state: None,
        address_zip: None,
        representative_first_name: None,
        representative_last_name: None,
        status: "incomplete".to_string(),
    }
}

fn empty_update() -> BuyerUpdate {
    BuyerUpdate {
        name: None,
        email_address: None,
        ein_tin: None,
        address_street: None,
        address_city: None,
        address_state: None,
        address_zip: None,
        representative_first_name: None,
        representative_last_name: None,
        buyer_integration_id: IntegrationField::Absent,
        status: None,
    }
}

fn text(v: &FieldValue) -> String {
    match v {
        FieldValue::Text(s) => s.clone(),
        FieldValue::Null => "null".to_string(),
        FieldValue::Flag(b) => b.to_string(),
        FieldValue::Int(i) => i.to_string(),
    }
}

fn fields(c: &[FieldChange]) -> Vec<String> {
    c.iter().map(|x| x.field.clone()).collect()
}

#[test]
fn buyer_update_writes_given_fields_in_order() {
    let mut u = empty_update();
    u.name = Some("Acme 2".to_string());
    u.email_address = Some("ops@acme.test".to_string());
    u.status = Some("active".to_string());
    match plan_buyer_update(BUYER_ID, Some(&buyer()), &u) {
        BuyerUpdatePlan::Write { query, changes, action } => {
            assert_eq!(
                query.sql,
                "UPDATE buyers SET name = $1, email_address = $2, status = $3,  updated_at = NOW() WHERE id = $4 AND deleted_at IS NULL"
            );
            assert_eq!(query.binds.len(), 4);
            assert!(matches!(&query.binds[2], SqlValue::Label(s) if s == "active"));
            assert!(matches!(&query.binds[3], SqlValue::Uuid(id) if *id == BUYER_ID));
            assert_eq!(fields(&changes), vec!["name", "email_address", "status"]);
            assert_eq!(text(&changes[1].before), "");
            assert_eq!(text(&changes[2].before), "incomplete");
            assert_eq!(action, "buyer_activated");
        }
        _ => panic!("expected a write"),
    }
}

#[test]
fn buyer_update_with_invalid_status_is_refused() {
    let mut u = empty_update();
    u.name = Some("X".to_string());
    u.status = Some("paused".to_string());
    match plan_buyer_update(BUYER_ID, Some(&buyer()), &u) {
        BuyerUpdatePlan::InvalidStatus(m) => assert_eq!(
            m,
            "Invalid status value: paused. Must be one of: active, incomplete, inactive, suspended"
        ),
        _ => panic!("expected a refusal"),
    }
}

#[test]
fn buyer_update_without_fields_writes_nothing() {
    assert!(matches!(
        plan_buyer_update(BUYER_ID, Some(&buyer()), &empty_update()),
        BuyerUpdatePlan::NothingToWrite
    ));
    let mut u = empty_update();
    u.buyer_integration_id = IntegrationField::Other;
    assert!(matches!(plan_buyer_update(BUYER_ID, None, &u), BuyerUpdatePlan::NothingToWrite));
}

#[test]
fn buyer_integration_cleared_or_set() {
    let mut u = empty_update();
    u.buyer_integration_id = IntegrationField::Text(String::new());
    match plan_buyer_update(BUYER_ID, None, &u) {
        BuyerUpdatePlan::Write { query, changes, action } => {
            assert_eq!(
                query.sql,
                "UPDATE buyers SET buyer_integration_id = NULL,  updated_at = NOW() WHERE id = $1 AND deleted_at IS NULL"
            );
            assert!(changes.is_empty());
            assert_eq!(action, "buyer_updated");
        }
        _ => panic!("expected a write"),
    }
    u.buyer_integration_id = IntegrationField::Text("00000000-0000-0000-0000-00000000002a".to_string());
    match plan_buyer_update(BUYER_ID, None, &u) {
        BuyerUpdatePlan::Write { query, .. } => {
            assert!(matches!(&query.binds[0], SqlValue::Uuid(42)));
        }
        _ => panic!("expected a write"),
    }
    u.buyer_integration_id = IntegrationField::Text("not-a-uuid".to_string());
    assert!(matches!(plan_buyer_update(BUYER_ID, None, &u), BuyerUpdatePlan::NothingToWrite));
}

#[test]
fn buyer_suspension_deactivates_and_same_value_records_nothing() {
    let mut u = empty_update();
    u.status = Some("suspended".to_string());
    u.ein_tin = Some("12-3".to_string());
    match plan_buyer_update(BUYER_ID, Some(&buyer()), &u) {
        BuyerUpdatePlan::Write { changes, action, .. } => {
            assert_eq!(fields(&changes), vec!["status"]);
            assert_eq!(action, "buyer_deactivated");
        }
        _ => panic!("expected a write"),
    }
}

#[test]
fn buyer_after_applies_changes() {
    let mut u = empty_update();
    u.email_address = Some(String::new());
    u.ein_tin = Some("99".to_string());
    let a = buyer_after(&buyer(), &u);
    assert_eq!(a.email_address, None);
    assert_eq!(a.ein_tin.as_deref(), Some("99"));
    assert_eq!(a.name, "Acme");
}

#[test]
fn new_buyer_types_are_checked() {
    assert_eq!(check_new_buyer_types(None, None), Ok("full_post".to_string()));
    assert_eq!(check_new_buyer_types(Some("ping_post"), Some("internal")), Ok("ping_post".to_string()));
    assert_eq!(
        check_new_buyer_types(Some("x"), None),
        Err("Invalid post_type: x. Must be 'full_post' or 'ping_post'".to_string())
    );
    assert_eq!(
        check_new_buyer_types(None, Some("y")),
        Err("Invalid buyer_type: y. Must be 'internal' or 'external'".to_string())
    );
    assert_eq!(
        duplicate_name_message("Acme"),
        "A buyer with the name 'Acme' already exists. Please choose a different name."
    );
    assert!(name_constraint_message("A").starts_with("A buyer with the name 'A' already exists. Please restart"));
    assert!(is_name_constraint_violation("duplicate key value violates unique constraint \"idx_buyers_instance_name\""));
    assert!(!is_name_constraint_violation("duplicate key value violates unique constraint \"other\""));
    assert!(takes_pulsar_integration(Some("internal"), true));
    assert!(!takes_pulsar_integration(Some("internal"), false));
    assert!(!takes_pulsar_integration(None, true));
    assert_eq!(pulsar_integration_slug("solar"), "pulsar-solar");
}

#[test]
fn buyer_vertical_is_enriched_when_known() {
    let vs = vec![VerticalRecord { id: 7, name: "Solar".to_string(), slug: "solar".to_string() }];
    match buyer_vertical(Some(7), &vs) {
        Some(BuyerVertical::Known { id, name, slug }) => {
            assert_eq!(id, "00000000-0000-0000-0000-000000000007");
            assert_eq!(name, "Solar");
            assert_eq!(slug, "solar");
        }
        _ => panic!("expected the vertical"),
    }
    assert!(matches!(buyer_vertical(Some(8), &vs), Some(BuyerVertical::IdOnly(_))));
    assert!(buyer_vertical(None, &vs).is_none());
}

fn publisher_update() -> UpdatePublisherRequest {
    UpdatePublisherRequest {
        name: None,
        email: None,
        status: None,
        hmac_required: None,
        representative_first_name: None,
        representative_last_name: None,
        address_street: None,
        address_city: None,
        address_state: None,
        address_zip: None,
        timezone: None,
        ein_tin: None,
    }
}

#[test]
fn publisher_update_plan() {
    let mut u = publisher_update();
    assert!(matches!(plan_publisher_update(1, false, &u), PublisherUpdatePlan::NotFound));
    assert!(matches!(plan_publisher_update(1, true, &u), PublisherUpdatePlan::NoFields));
    u.hmac_required = Some(true);
    u.timezone = Some("UTC".to_string());
    match plan_publisher_update(1, true, &u) {
        PublisherUpdatePlan::Write(q) => {
            assert_eq!(
                q.sql,
                "UPDATE publishers SET hmac_required = $1, timezone = $2, updated_at = NOW() WHERE id = $3 AND deleted_at IS NULL"
            );
            assert!(matches!(q.binds[0], SqlValue::Bool(true)));
        }
        _ => panic!("expected a write"),
    }
}

#[test]
fn campaign_activation_depends_on_ping_tree() {
    let before = CampaignRecord { name: None, publisher_id: 1, buyer_id: 2, status: "paused".to_string() };
    let u = CampaignUpdate { name: None, publisher_id: None, buyer_id: None, status: Some("active".to_string()) };
    match plan_campaign_update(9, Some(&before), &u, false) {
        CampaignUpdatePlan::Write { query, changes, action } => {
            assert_eq!(query.sql, "UPDATE campaigns SET status = $1, updated_at = NOW() WHERE id = $2 AND deleted_at IS NULL");
            assert!(matches!(&query.binds[0], SqlValue::Label(s) if s == "inactive"));
            assert_eq!(text(&changes[0].after), "inactive");
            assert_eq!(action, "campaign_updated");
        }
        _ => panic!("expected a write"),
    }
    let active = CampaignRecord { name: None, publisher_id: 1, buyer_id: 2, status: "active".to_string() };
    assert!(matches!(plan_campaign_update(9, Some(&active), &u, true), CampaignUpdatePlan::NothingToWrite));
}

#[test]
fn campaign_update_actions_and_errors() {
    let before = CampaignRecord { name: None, publisher_id: 1, buyer_id: 2, status: "active".to_string() };
    let u = CampaignUpdate { name: Some("New".to_string()), publisher_id: None, buyer_id: None, status: None };
    match plan_campaign_update(9, Some(&before), &u, true) {
        CampaignUpdatePlan::Write { changes, action, .. } => {
            assert_eq!(text(&changes[0].before), "null");
            assert_eq!(action, "campaign_name_changed");
        }
        _ => panic!("expected a write"),
    }
    let u = CampaignUpdate {
        name: None,
        publisher_id: None,
        buyer_id: Some("00000000-0000-0000-0000-000000000003".to_string()),
        status: None,
    };
    match plan_campaign_update(9, Some(&before), &u, true) {
        CampaignUpdatePlan::Write { action, .. } => assert_eq!(action, "campaign_buyer_changed"),
        _ => panic!("expected a write"),
    }
    let u = CampaignUpdate { name: None, publisher_id: None, buyer_id: None, status: Some("gone".to_string()) };
    match plan_campaign_update(9, Some(&before), &u, true) {
        CampaignUpdatePlan::InvalidStatus(m) => {
            assert_eq!(m, "Invalid status value: gone. Must be one of: active, paused, inactive")
        }
        _ => panic!("expected a refusal"),
    }
    assert!(matches!(plan_campaign_update(9, None, &u, true), CampaignUpdatePlan::NotFound));
    let t = new_campaign_token();
    assert_eq!(t.len(), 40);
    assert!(t.chars().all(|c| c.is_ascii_hexdigit() && !c.is_ascii_uppercase()));
}

#[test]
fn rule_set_update_plan() {
    let u = RuleSetUpdate {
        rule_set_name: Some("Main".to_string()),
        config_given: true,
        rules_order: Some(vec![Some("own_home".to_string()), None, Some("roof_type".to_string())]),
        enabled: None,
        is_active: Some(true),
        timeout_given: true,
    };
    match plan_rule_set_update(1, 2, true, &u) {
        RuleSetUpdatePlan::Write { query, extract_zips, deactivate_others } => {
            assert_eq!(
                query.sql,
                "UPDATE buyer_qualification_configs SET rule_set_name = $1, config = $2, rules_order = $3, is_active = $4, timeout_seconds = $5,  updated_at = NOW() WHERE id = $6 AND buyer_id = $7"
            );
            assert!(matches!(&query.binds[2], SqlValue::TextList(v) if v.len() == 2));
            assert!(matches!(&query.binds[1], SqlValue::Supplied(s) if s == "config"));
            assert!(extract_zips);
            assert!(deactivate_others);
        }
        _ => panic!("expected a write"),
    }
    let none = RuleSetUpdate {
        rule_set_name: None,
        config_given: false,
        rules_order: None,
        enabled: None,
        is_active: None,
        timeout_given: false,
    };
    assert!(matches!(plan_rule_set_update(1, 2, true, &none), RuleSetUpdatePlan::NothingToWrite));
    assert!(matches!(plan_rule_set_update(1, 2, false, &none), RuleSetUpdatePlan::NotFound));
}

#[test]
fn rule_set_audit_names_config_always() {
    let b = RuleSetSnapshot { rule_set_name: "A".to_string(), is_active: false, enabled: true };
    let a = RuleSetSnapshot { rule_set_name: "A".to_string(), is_active: true, enabled: true };
    let (f, action) = audit_of_update(Some(&b), Some(&a), true);
    assert_eq!(f, vec!["config", "is_active", "timeout_seconds"]);
    assert_eq!(action, "buyer_rule_set_activated");
    let (f, action) = audit_of_update(Some(&b), Some(&b), true);
    assert_eq!(f, vec!["config", "timeout_seconds"]);
    assert_eq!(action, "buyer_rule_set_updated");
    let (f, action) = audit_of_update(Some(&a), Some(&b), false);
    assert_eq!(f, vec!["config", "is_active"]);
    assert_eq!(action, "buyer_rule_set_deactivated");
    let (f, _) = audit_of_update(None, Some(&b), true);
    assert!(f.is_empty());
}

#[test]
fn rule_set_defaults_and_zips() {
    let s = new_rule_set_settings(None, None, None);
    assert!(s.enabled);
    assert!(!s.is_active);
    assert_eq!(s.rules_order.len(), 9);
    assert_eq!(s.rules_order[0], "zip_blacklist");
    assert_eq!(s.rules_order[8], "purchase_timeframe");
    let entries = vec![
        Some(" 12345 ".to_string()),
        Some("1234".to_string()),
        None,
        Some("54321".to_string()),
        Some("12a45".to_string()),
        Some("99999".to_string()),
    ];
    let existing = vec!["54321".to_string()];
    assert_eq!(zip_codes_to_insert(&entries, &existing), vec!["12345", "99999"]);
    assert_eq!(zip_list_name("blacklist"), "Default Blacklist");
    assert_eq!(zip_list_name("whitelist"), "Default Whitelist");
}

#[test]
fn ping_tree_update_keeps_its_statement_shape() {
    let before = PingTreeRecord { name: "T".to_string(), priority: Some(1), status: "active".to_string() };
    let u = PingTreeUpdate { name: Some("U".to_string()), priority: None, status: Some("paused".to_string()) };
    match plan_ping_tree_update(5, Some(&before), &u) {
        PingTreeUpdatePlan::Write { query, changes } => {
            assert_eq!(
                query.sql,
                "UPDATE ping_trees SET name = $1, , status = $2updated_at = NOW() WHERE id = $3 AND deleted_at IS NULL"
            );
            assert_eq!(fields(&changes), vec!["name", "status"]);
        }
        _ => panic!("expected a write"),
    }
    let u = PingTreeUpdate { name: None, priority: Some(4_294_967_298), status: None };
    match plan_ping_tree_update(5, Some(&before), &u) {
        PingTreeUpdatePlan::Write { query, changes } => {
            assert!(matches!(query.binds[0], SqlValue::Int(2)));
            assert!(matches!(changes[0].after, FieldValue::Int(2)));
        }
        _ => panic!("expected a write"),
    }
    assert!(valid_strategy("ping_post"));
    assert!(valid_strategy("fullpost"));
    assert!(!valid_strategy("full_post"));
    assert!(left_in_no_tree(Some(0)));
    assert!(left_in_no_tree(None));
    assert!(!left_in_no_tree(Some(2)));
}

#[test]
fn buyer_activation_needs_a_complete_profile() {
    let mut b = buyer();
    assert!(!can_activate(&b, true));
    b.email_address = Some("a@b.c".to_string());
    b.address_street = Some("1 Main".to_string());
    b.address_city = Some("Austin".to_string());
    b.address_state = Some("TX".to_string());
    b.address_zip = Some("73301".to_string());
    b.representative_first_name = Some("Ann".to_string());
    b.representative_last_name = Some("Lee".to_string());
    assert!(can_activate(&b, true));
    assert!(!can_activate(&b, false));
    b.name = String::new();
    assert!(!can_activate(&b, true));
}

#[test]
fn new_records_stay_in_the_users_instance() {
    assert!(choose_instance(Some(5), true, Some(9)) == InstanceChoice::Use(5));
    assert!(choose_instance(Some(5), false, Some(9)) == InstanceChoice::NotOwned);
    assert!(choose_instance(None, false, Some(9)) == InstanceChoice::Use(9));
    assert!(choose_instance(None, false, None) == InstanceChoice::NoInstance);
}
