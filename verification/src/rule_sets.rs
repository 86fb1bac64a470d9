//! Buyer rule sets: what an update writes, which changes its audit entry
//! names and under what action, the defaults of a new rule set, and the
//! ZIP codes taken out of a rule set's configuration into ZIP lists.

use vstd::prelude::*;
use crate::sql::{assign_opt, bound, lemma_bound_concat, Bound, Piece, QueryText, SqlValue};
use crate::text::{chars_of, concat2, is_ascii_seq, opt_view, str_eq, string_of, trim, trim_chars};

verus! {

broadcast use vstd::string::group_string_axioms;

/// The members of an update request that an update reads.
pub struct RuleSetUpdate {
    pub rule_set_name: Option<String>,
    /// Whether the request has a `config` member (of any JSON kind).
    pub config_given: bool,
    /// The entries of a `rules_order` array: each string entry, `None` for
    /// an entry of another kind.
    pub rules_order: Option<Vec<Option<String>>>,
    pub enabled: Option<bool>,
    pub is_active: Option<bool>,
    /// Whether the request has a numeric `timeout_seconds`.
    pub timeout_given: bool,
}

/// What an update comes to.
pub enum RuleSetUpdatePlan {
    /// No such rule set for the buyer: 404.
    NotFound,
    /// Nothing given: answered "No updates provided".
    NothingToWrite,
    /// First take the ZIP codes out of the configuration when
    /// `extract_zips`, then deactivate the buyer's other rule sets when
    /// `deactivate_others`, then run `query`.
    Write { query: QueryText, extract_zips: bool, deactivate_others: bool },
}

/// The string entries of a `rules_order` array, in order.
pub open spec fn string_entries(entries: Seq<Option<String>>) -> Seq<Seq<char>>
    decreases entries.len(),
{
    if entries.len() == 0 {
        Seq::empty()
    } else {
        let rest = string_entries(entries.drop_last());
        match entries.last() {
            Some(s) => rest.push(s@),
            None => rest,
        }
    }
}

pub open spec fn order_bound(o: Option<Vec<Option<String>>>) -> Option<Bound> {
    match o {
        Some(v) => Some(Bound::TextList(string_entries(v@))),
        None => None,
    }
}

pub open spec fn name_bound(o: Option<String>) -> Option<Bound> {
    match o {
        Some(n) => Some(Bound::Text(n@)),
        None => None,
    }
}

pub open spec fn flag_bound(o: Option<bool>) -> Option<Bound> {
    match o {
        Some(b) => Some(Bound::Bool(b)),
        None => None,
    }
}

pub open spec fn supplied_if(given: bool, name: Seq<char>) -> Option<Bound> {
    if given {
        Some(Bound::Supplied(name))
    } else {
        None
    }
}

/// The statement an update runs: the given fields in order, the
/// configuration and the timeout bound by the caller.
pub open spec fn update_pieces(buyer_id: u128, rule_set_id: u128, u: RuleSetUpdate) -> Seq<Piece> {
    seq![Piece::Text("UPDATE buyer_qualification_configs SET "@)] + assign_opt(
        "rule_set_name"@,
        name_bound(u.rule_set_name),
    ) + assign_opt("config"@, supplied_if(u.config_given, "config"@)) + assign_opt(
        "rules_order"@,
        order_bound(u.rules_order),
    ) + assign_opt("enabled"@, flag_bound(u.enabled)) + assign_opt(
        "is_active"@,
        flag_bound(u.is_active),
    ) + assign_opt("timeout_seconds"@, supplied_if(u.timeout_given, "timeout_seconds"@)) + seq![
        Piece::Text(" updated_at = NOW() WHERE id = "@),
        Piece::Bind(Bound::Uuid(rule_set_id)),
        Piece::Text(" AND buyer_id = "@),
        Piece::Bind(Bound::Uuid(buyer_id)),
    ]
}

pub open spec fn gives_anything(u: RuleSetUpdate) -> bool {
    u.rule_set_name is Some || u.config_given || u.rules_order is Some || u.enabled is Some
        || u.is_active is Some || u.timeout_given
}

fn string_entries_of(entries: &Vec<Option<String>>) -> (r: Vec<String>)
    ensures
        r@.map_values(|x: String| x@) == string_entries(entries@),
{
    let mut r: Vec<String> = Vec::new();
    let n = entries.len();
    for i in 0..n
        invariant
            n == entries@.len(),
            r@.map_values(|x: String| x@) == string_entries(entries@.take(i as int)),
    {
        assert(entries@.take(i + 1).drop_last() =~= entries@.take(i as int));
        match &entries[i] {
            Some(s) => {
                let ghost before = r@;
                r.push(s.clone());
                assert(r@.map_values(|x: String| x@) =~= before.map_values(|x: String| x@).push(
                    s@,
                ));
            },
            None => {},
        }
    }
    assert(entries@.take(n as int) =~= entries@);
    r
}

/// The statement's head and the assignments of the given fields.
fn assignments(u: &RuleSetUpdate) -> (q: QueryText)
    ensures
        q.holds(
            seq![Piece::Text("UPDATE buyer_qualification_configs SET "@)] + assign_opt(
                "rule_set_name"@,
                name_bound(u.rule_set_name),
            ) + assign_opt("config"@, supplied_if(u.config_given, "config"@)) + assign_opt(
                "rules_order"@,
                order_bound(u.rules_order),
            ) + assign_opt("enabled"@, flag_bound(u.enabled)) + assign_opt(
                "is_active"@,
                flag_bound(u.is_active),
            ) + assign_opt("timeout_seconds"@, supplied_if(u.timeout_given, "timeout_seconds"@)),
        ),
        q.binds@.len() <= 6,
{
    let ghost p0 = seq![Piece::Text("UPDATE buyer_qualification_configs SET "@)];
    let mut q = QueryText::start("UPDATE buyer_qualification_configs SET ");
    let name = match &u.rule_set_name {
        Some(n) => Some(SqlValue::Text(n.clone())),
        None => None,
    };
    q.push_assign_opt(Ghost(p0), "rule_set_name", name);
    let ghost nb = name_bound(u.rule_set_name);
    let ghost p1 = p0 + assign_opt("rule_set_name"@, nb);
    let config = if u.config_given {
        Some(SqlValue::Supplied(String::from_str("config")))
    } else {
        None
    };
    q.push_assign_opt(Ghost(p1), "config", config);
    let ghost p2 = p1 + assign_opt("config"@, supplied_if(u.config_given, "config"@));
    let order = match &u.rules_order {
        Some(v) => Some(SqlValue::TextList(string_entries_of(v))),
        None => None,
    };
    q.push_assign_opt(Ghost(p2), "rules_order", order);
    let ghost p3 = p2 + assign_opt("rules_order"@, order_bound(u.rules_order));
    let enabled = match u.enabled {
        Some(b) => Some(SqlValue::Bool(b)),
        None => None,
    };
    q.push_assign_opt(Ghost(p3), "enabled", enabled);
    let ghost p4 = p3 + assign_opt("enabled"@, flag_bound(u.enabled));
    let active = match u.is_active {
        Some(b) => Some(SqlValue::Bool(b)),
        None => None,
    };
    q.push_assign_opt(Ghost(p4), "is_active", active);
    let ghost p5 = p4 + assign_opt("is_active"@, flag_bound(u.is_active));
    let timeout = if u.timeout_given {
        Some(SqlValue::Supplied(String::from_str("timeout_seconds")))
    } else {
        None
    };
    q.push_assign_opt(Ghost(p5), "timeout_seconds", timeout);
    let ghost p6 = p5 + assign_opt("timeout_seconds"@, supplied_if(u.timeout_given, "timeout_seconds"@));
    q
}

/// What an update of rule set `rule_set_id` of buyer `buyer_id` does,
/// given whether that rule set was found.
pub fn plan_rule_set_update(buyer_id: u128, rule_set_id: u128, found: bool, u: &RuleSetUpdate) -> (r:
    RuleSetUpdatePlan)
    ensures
        !found ==> r is NotFound,
        found && !gives_anything(*u) ==> r is NothingToWrite,
        found && gives_anything(*u) ==> (r matches RuleSetUpdatePlan::Write {
            query,
            extract_zips,
            deactivate_others,
        } && query.holds(update_pieces(buyer_id, rule_set_id, *u)) && extract_zips
            == u.config_given && deactivate_others == deactivates_others(*u)),
{
    if !found {
        return RuleSetUpdatePlan::NotFound;
    }
    let ghost p0 = seq![Piece::Text("UPDATE buyer_qualification_configs SET "@)];
    let mut q = assignments(u);
    let ghost p6 = p0 + assign_opt("rule_set_name"@, name_bound(u.rule_set_name)) + assign_opt(
        "config"@,
        supplied_if(u.config_given, "config"@),
    ) + assign_opt("rules_order"@, order_bound(u.rules_order)) + assign_opt(
        "enabled"@,
        flag_bound(u.enabled),
    ) + assign_opt("is_active"@, flag_bound(u.is_active)) + assign_opt(
        "timeout_seconds"@,
        supplied_if(u.timeout_given, "timeout_seconds"@),
    );
    let any = u.rule_set_name.is_some() || u.config_given || u.rules_order.is_some()
        || u.enabled.is_some() || u.is_active.is_some() || u.timeout_given;
    if !any {
        return RuleSetUpdatePlan::NothingToWrite;
    }
    q.push(Ghost(p6), " updated_at = NOW() WHERE id = ");
    let ghost p7 = p6.push(Piece::Text(" updated_at = NOW() WHERE id = "@));
    q.push_bind(Ghost(p7), SqlValue::Uuid(rule_set_id));
    let ghost p8 = p7.push(Piece::Bind(Bound::Uuid(rule_set_id)));
    q.push(Ghost(p8), " AND buyer_id = ");
    let ghost p9 = p8.push(Piece::Text(" AND buyer_id = "@));
    q.push_bind(Ghost(p9), SqlValue::Uuid(buyer_id));
    assert(update_pieces(buyer_id, rule_set_id, *u) =~= p9.push(Piece::Bind(Bound::Uuid(buyer_id))));
    let deactivate = match u.is_active {
        Some(b) => b,
        None => false,
    };
    RuleSetUpdatePlan::Write { query: q, extract_zips: u.config_given, deactivate_others: deactivate }
}

/// A rule set as its audit entry shows it, without its configuration and
/// timeout.
pub struct RuleSetSnapshot {
    pub rule_set_name: String,
    pub is_active: bool,
    pub enabled: bool,
}

/// The fields the audit entry of an update names as changed, in order:
/// the name when it differs, the configuration always, then the flags and
/// the timeout when they differ. Nothing when either snapshot is missing.
pub open spec fn changed_fields(
    before: Option<RuleSetSnapshot>,
    after: Option<RuleSetSnapshot>,
    timeout_differs: bool,
) -> Seq<Seq<char>> {
    match (before, after) {
        (Some(b), Some(a)) => (if b.rule_set_name@ != a.rule_set_name@ {
            seq!["rule_set_name"@]
        } else {
            Seq::empty()
        }) + seq!["config"@] + (if b.is_active != a.is_active {
            seq!["is_active"@]
        } else {
            Seq::empty()
        }) + (if b.enabled != a.enabled {
            seq!["enabled"@]
        } else {
            Seq::empty()
        }) + (if timeout_differs {
            seq!["timeout_seconds"@]
        } else {
            Seq::empty()
        }),
        _ => Seq::empty(),
    }
}

/// The audit action of an update: a change of `is_active` activates or
/// deactivates; a change of the timeout alone has an action of its own.
pub open spec fn action_for(
    before: Option<RuleSetSnapshot>,
    after: Option<RuleSetSnapshot>,
    timeout_differs: bool,
) -> Seq<char> {
    let f = changed_fields(before, after, timeout_differs);
    if f.contains("is_active"@) {
        if after matches Some(a) && a.is_active {
            "buyer_rule_set_activated"@
        } else {
            "buyer_rule_set_deactivated"@
        }
    } else if f == seq!["timeout_seconds"@] {
        "buyer_rule_set_timeout_updated"@
    } else {
        "buyer_rule_set_updated"@
    }
}

fn push_str(v: &mut Vec<String>, s: &str)
    ensures
        final(v)@.map_values(|x: String| x@) == old(v)@.map_values(|x: String| x@).push(s@),
{
    let ghost before = v@;
    v.push(String::from_str(s));
    assert(v@.map_values(|x: String| x@) =~= before.map_values(|x: String| x@).push(s@));
}

/// The changed fields and the action of an update's audit entry, from the
/// rule set before and after it (when they could be read) and whether the
/// timeout differs by more than a thousandth of a second.
pub fn audit_of_update(
    before: Option<&RuleSetSnapshot>,
    after: Option<&RuleSetSnapshot>,
    timeout_differs: bool,
) -> (r: (Vec<String>, String))
    ensures
        r.0@.map_values(|x: String| x@) == changed_fields(
            crate::buyers::deref_opt(before),
            crate::buyers::deref_opt(after),
            timeout_differs,
        ),
        r.1@ == action_for(
            crate::buyers::deref_opt(before),
            crate::buyers::deref_opt(after),
            timeout_differs,
        ),
{
    let mut f: Vec<String> = Vec::new();
    let mut active_changed = false;
    match (before, after) {
        (Some(b), Some(a)) => {
            if !str_eq(b.rule_set_name.as_str(), a.rule_set_name.as_str()) {
                push_str(&mut f, "rule_set_name");
            }
            push_str(&mut f, "config");
            if b.is_active != a.is_active {
                push_str(&mut f, "is_active");
                active_changed = true;
            }
            if b.enabled != a.enabled {
                push_str(&mut f, "enabled");
            }
            if timeout_differs {
                push_str(&mut f, "timeout_seconds");
            }
        },
        _ => {},
    }
    let ghost fv = changed_fields(
        crate::buyers::deref_opt(before),
        crate::buyers::deref_opt(after),
        timeout_differs,
    );
    assert(f@.map_values(|x: String| x@) =~= fv);
    proof {
        reveal_strlit("rule_set_name");
        reveal_strlit("config");
        reveal_strlit("is_active");
        reveal_strlit("enabled");
        reveal_strlit("timeout_seconds");
        assert("is_active"@.len() == 9);
        assert("config"@.len() == 6);
        assert("timeout_seconds"@.len() == 15);
        assert("enabled"@.len() == 7);
        assert("rule_set_name"@.len() == 13);
        if active_changed {
            let i = if fv[0] == "rule_set_name"@ { 2int } else { 1int };
            assert(fv[i] == "is_active"@);
        } else {
            assert forall|i: int| 0 <= i < fv.len() implies fv[i] != "is_active"@ by {
                assert(fv[i].len() != 9);
            }
        }
    }
    let action = if active_changed {
        match after {
            Some(a) => if a.is_active {
                String::from_str("buyer_rule_set_activated")
            } else {
                String::from_str("buyer_rule_set_deactivated")
            },
            None => String::from_str("buyer_rule_set_deactivated"),
        }
    } else if f.len() == 1 && timeout_differs {
        String::from_str("buyer_rule_set_timeout_updated")
    } else {
        String::from_str("buyer_rule_set_updated")
    };
    proof {
        if !active_changed {
            if f@.len() == 1 && timeout_differs {
                assert(fv =~= seq!["timeout_seconds"@]);
            } else if fv == seq!["timeout_seconds"@] {
                assert(fv.len() == 1);
                match (before, after) {
                    (Some(b), Some(a)) => {
                        let i = if b.rule_set_name@ != a.rule_set_name@ {
                            1int
                        } else {
                            0int
                        };
                        assert(fv[i] == "config"@);
                        assert(fv[0] == "timeout_seconds"@);
                        assert(false);
                    },
                    _ => {
                        assert(fv.len() == 0);
                    },
                }
            }
        }
    }
    (f, action)
}

/// When both snapshots are known the configuration is always named as
/// changed, so the timeout-only action is never chosen then.
pub proof fn law_timeout_only_action_unreachable(
    before: RuleSetSnapshot,
    after: RuleSetSnapshot,
    timeout_differs: bool,
)
    ensures
        action_for(Some(before), Some(after), timeout_differs) != "buyer_rule_set_timeout_updated"@,
{
    let f = changed_fields(Some(before), Some(after), timeout_differs);
    reveal_strlit("config");
    reveal_strlit("timeout_seconds");
    reveal_strlit("buyer_rule_set_timeout_updated");
    reveal_strlit("buyer_rule_set_activated");
    reveal_strlit("buyer_rule_set_deactivated");
    reveal_strlit("buyer_rule_set_updated");
    assert(f.contains("config"@)) by {
        let i = if before.rule_set_name@ != after.rule_set_name@ { 1int } else { 0int };
        assert(f[i] == "config"@);
    }
    if f == seq!["timeout_seconds"@] {
        assert("config"@.len() != "timeout_seconds"@.len());
        assert(false);
    }
    assert("buyer_rule_set_activated"@.len() != "buyer_rule_set_timeout_updated"@.len());
    assert("buyer_rule_set_deactivated"@.len() != "buyer_rule_set_timeout_updated"@.len());
    assert("buyer_rule_set_updated"@.len() != "buyer_rule_set_timeout_updated"@.len());
}

/// The rule order of a new rule set that names none.
pub open spec fn default_rules_order() -> Seq<Seq<char>> {
    seq![
        "zip_blacklist"@,
        "zip_whitelist"@,
        "own_home"@,
        "roof_shade"@,
        "credit_rating"@,
        "monthly_bill"@,
        "property_type"@,
        "roof_type"@,
        "purchase_timeframe"@,
    ]
}

/// The settings of a new rule set that the request leaves open.
pub struct NewRuleSetSettings {
    pub enabled: bool,
    pub is_active: bool,
    pub rules_order: Vec<String>,
}

/// A new rule set is enabled and inactive unless the request says
/// otherwise, and checks the rules in the default order unless it names
/// one.
pub fn new_rule_set_settings(enabled: Option<bool>, is_active: Option<bool>, rules_order: Option<
    Vec<String>,
>) -> (r: NewRuleSetSettings)
    ensures
        r.enabled == match enabled {
            Some(e) => e,
            None => true,
        },
        r.is_active == match is_active {
            Some(a) => a,
            None => false,
        },
        r.rules_order@.map_values(|x: String| x@) == match rules_order {
            Some(v) => v@.map_values(|x: String| x@),
            None => default_rules_order(),
        },
{
    let order = match rules_order {
        Some(v) => v,
        None => {
            let mut v: Vec<String> = Vec::new();
            push_str(&mut v, "zip_blacklist");
            push_str(&mut v, "zip_whitelist");
            push_str(&mut v, "own_home");
            push_str(&mut v, "roof_shade");
            push_str(&mut v, "credit_rating");
            push_str(&mut v, "monthly_bill");
            push_str(&mut v, "property_type");
            push_str(&mut v, "roof_type");
            push_str(&mut v, "purchase_timeframe");
            assert(v@.map_values(|x: String| x@) =~= default_rules_order());
            v
        },
    };
    NewRuleSetSettings {
        enabled: match enabled {
            Some(e) => e,
            None => true,
        },
        is_active: match is_active {
            Some(a) => a,
            None => false,
        },
        rules_order: order,
    }
}

/// A ZIP code as a rule set's lists keep it: five ASCII digits once
/// surrounding whitespace is trimmed.
pub open spec fn valid_zip(s: Seq<char>) -> bool {
    let t = trim(s);
    t.len() == 5 && forall|i: int| 0 <= i < 5 ==> '0' <= #[trigger] t[i] <= '9'
}

/// The ZIP codes of a list's entries that are inserted: each string entry,
/// trimmed, that is a valid ZIP code and not already in the list, in
/// order (a code given twice is inserted twice; the database keeps one).
pub open spec fn zips_to_insert(entries: Seq<Option<Seq<char>>>, existing: Seq<Seq<char>>) -> Seq<Seq<char>>
    decreases entries.len(),
{
    if entries.len() == 0 {
        Seq::empty()
    } else {
        let rest = zips_to_insert(entries.drop_last(), existing);
        match entries.last() {
            Some(z) => if valid_zip(z) && !existing.contains(trim(z)) {
                rest.push(trim(z))
            } else {
                rest
            },
            None => rest,
        }
    }
}

pub open spec fn entries_view(v: Seq<Option<String>>) -> Seq<Option<Seq<char>>> {
    v.map_values(|o: Option<String>| opt_view(o))
}

fn is_zip(t: &Vec<char>) -> (r: bool)
    ensures
        r == (t@.len() == 5 && forall|i: int| 0 <= i < 5 ==> '0' <= #[trigger] t@[i] <= '9'),
{
    if t.len() != 5 {
        return false;
    }
    for i in 0..5
        invariant
            t@.len() == 5,
            forall|k: int| 0 <= k < i ==> '0' <= #[trigger] t@[k] <= '9',
    {
        if t[i] < '0' || t[i] > '9' {
            return false;
        }
    }
    true
}

fn contains_text(list: &Vec<String>, t: &Vec<char>) -> (r: bool)
    ensures
        r == list@.map_values(|x: String| x@).contains(t@),
{
    let ghost lv = list@.map_values(|x: String| x@);
    let n = list.len();
    for i in 0..n
        invariant
            n == list@.len(),
            lv == list@.map_values(|x: String| x@),
            forall|k: int| 0 <= k < i ==> lv[k] != t@,
    {
        if crate::text::chars_eq(&chars_of(list[i].as_str()), t.as_slice()) {
            assert(lv[i as int] == t@);
            return true;
        }
    }
    false
}

/// The ZIP codes inserted for a list's entries (see `zips_to_insert`).
pub fn zip_codes_to_insert(entries: &Vec<Option<String>>, existing: &Vec<String>) -> (r: Vec<String>)
    ensures
        r@.map_values(|x: String| x@) == zips_to_insert(
            entries_view(entries@),
            existing@.map_values(|x: String| x@),
        ),
{
    let ghost ex = existing@.map_values(|x: String| x@);
    let mut r: Vec<String> = Vec::new();
    let n = entries.len();
    for i in 0..n
        invariant
            n == entries@.len(),
            ex == existing@.map_values(|x: String| x@),
            r@.map_values(|x: String| x@) == zips_to_insert(entries_view(entries@.take(i as int)), ex),
    {
        assert(entries_view(entries@.take(i + 1)).drop_last() =~= entries_view(entries@.take(i as int)));
        assert(entries_view(entries@.take(i + 1)).last() == opt_view(entries@[i as int]));
        match &entries[i] {
            Some(z) => {
                let t = trim_chars(&chars_of(z.as_str()));
                if is_zip(&t) && !contains_text(existing, &t) {
                    let ghost before = r@;
                    r.push(string_of(t.as_slice()));
                    assert(r@.map_values(|x: String| x@) =~= before.map_values(|x: String| x@).push(t@));
                }
            },
            None => {},
        }
    }
    assert(entries@.take(n as int) =~= entries@);
    r
}

/// The name of a buyer's default ZIP list of a type.
pub fn zip_list_name(list_type: &str) -> (r: String)
    ensures
        r@ == if list_type@ == "blacklist"@ {
            "Default Blacklist"@
        } else {
            "Default Whitelist"@
        },
{
    if str_eq(list_type, "blacklist") {
        String::from_str("Default Blacklist")
    } else {
        String::from_str("Default Whitelist")
    }
}

/// Every ZIP code inserted is five ASCII digits and not already in the
/// list.
pub proof fn law_inserted_zips_valid(entries: Seq<Option<Seq<char>>>, existing: Seq<Seq<char>>)
    ensures
        forall|i: int|
            0 <= i < zips_to_insert(entries, existing).len() ==> {
                let z = #[trigger] zips_to_insert(entries, existing)[i];
                &&& z.len() == 5
                &&& forall|k: int| 0 <= k < 5 ==> '0' <= #[trigger] z[k] <= '9'
                &&& !existing.contains(z)
            },
    decreases entries.len(),
{
    if entries.len() > 0 {
        law_inserted_zips_valid(entries.drop_last(), existing);
        let rest = zips_to_insert(entries.drop_last(), existing);
        let all = zips_to_insert(entries, existing);
        assert forall|i: int| 0 <= i < all.len() implies {
            let z = #[trigger] all[i];
            &&& z.len() == 5
            &&& forall|k: int| 0 <= k < 5 ==> '0' <= #[trigger] z[k] <= '9'
            &&& !existing.contains(z)
        } by {
            if i < rest.len() {
                assert(all[i] == rest[i]);
            }
        }
    }
}

/// A buyer's rule sets after an update of rule set `target`, each given
/// as its id and whether it is active: when the plan deactivates the
/// others they all become inactive, and the target takes the requested
/// flag (or keeps its own when none is requested).
pub open spec fn rows_after_update(
    rows: Seq<(u128, bool)>,
    target: u128,
    is_active: Option<bool>,
    deactivate_others: bool,
) -> Seq<(u128, bool)> {
    rows.map_values(
        |r: (u128, bool)|
            if r.0 == target {
                (
                    r.0,
                    match is_active {
                        Some(a) => a,
                        None => r.1,
                    },
                )
            } else {
                (r.0, r.1 && !deactivate_others)
            },
    )
}

/// Whether an update deactivates the buyer's other rule sets: exactly when
/// it activates its own.
pub open spec fn deactivates_others(u: RuleSetUpdate) -> bool {
    u.is_active == Some(true)
}

/// Activating a rule set leaves it the buyer's only active one: with the
/// plan of `plan_rule_set_update` applied to the buyer's rule sets, every
/// other one ends inactive and the target ends active.
pub proof fn law_activation_leaves_one_active(rows: Seq<(u128, bool)>, target: u128, u: RuleSetUpdate)
    requires
        u.is_active == Some(true),
    ensures
        forall|i: int|
            0 <= i < rows.len() ==> (#[trigger] rows_after_update(
                rows,
                target,
                u.is_active,
                deactivates_others(u),
            )[i]).1 == (rows[i].0 == target),
{
}

} // verus!
