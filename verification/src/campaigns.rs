//! Campaigns: what an update writes and records, and the campaign token a
//! new campaign is given.

use vstd::prelude::*;
use crate::audit::{changes_view, opt_scalar, record_change, FieldChange, FieldValue, Scalar};
use crate::codec::{hex_encode, hex_lower, random_bytes, uuid_parse, uuid_parsed, uuid_text, uuid_to_string};
use crate::sql::{assign, assign_opt, bound, lemma_bound_concat, Bound, Piece, QueryText, SqlValue};
use crate::text::{concat3, opt_view, str_eq};

verus! {

broadcast use vstd::string::group_string_axioms;

/// A stored campaign: the fields an update can change.
pub struct CampaignRecord {
    pub name: Option<String>,
    pub publisher_id: u128,
    pub buyer_id: u128,
    /// The status label: active, paused or inactive.
    pub status: String,
}

/// The string members of an update request.
pub struct CampaignUpdate {
    pub name: Option<String>,
    pub publisher_id: Option<String>,
    pub buyer_id: Option<String>,
    pub status: Option<String>,
}

/// What an update comes to.
pub enum CampaignUpdatePlan {
    /// No campaign with that id: 404.
    NotFound,
    /// The status is none of active, paused, inactive: answered
    /// `success: false` with this message, nothing written.
    InvalidStatus(String),
    /// Nothing to change: answered "No changes to update".
    NothingToWrite,
    /// Run `query`; then audit `changes` under `action`.
    Write { query: QueryText, changes: Vec<FieldChange>, action: String },
}

/// The status an update sets for a requested status: activating a
/// campaign that is in no ping tree leaves it inactive. `None` for a
/// status that is not one of the three.
pub open spec fn status_target(s: Seq<char>, in_ping_tree: bool) -> Option<Seq<char>> {
    if s == "active"@ {
        if in_ping_tree {
            Some("active"@)
        } else {
            Some("inactive"@)
        }
    } else if s == "paused"@ {
        Some("paused"@)
    } else if s == "inactive"@ {
        Some("inactive"@)
    } else {
        None
    }
}

pub open spec fn invalid_status_message(s: Seq<char>) -> Seq<char> {
    "Invalid status value: "@ + s + ". Must be one of: active, paused, inactive"@
}

/// The id a string member names, when it parses as a UUID.
pub open spec fn parsed_id(o: Option<String>) -> Option<u128> {
    match o {
        Some(s) => uuid_parsed(s@),
        None => None,
    }
}

/// The status an update writes: the target status when it differs from
/// the stored one.
pub open spec fn status_written(before: CampaignRecord, u: CampaignUpdate, in_ping_tree: bool) -> Option<
    Seq<char>,
> {
    match u.status {
        Some(s) => match status_target(s@, in_ping_tree) {
            Some(t) => if t != before.status@ {
                Some(t)
            } else {
                None
            },
            None => None,
        },
        None => None,
    }
}

pub open spec fn or_empty(o: Option<Seq<char>>) -> Seq<char> {
    match o {
        Some(s) => s,
        None => Seq::empty(),
    }
}

pub open spec fn name_bound(u: CampaignUpdate) -> Option<Bound> {
    match u.name {
        Some(n) => Some(Bound::Text(n@)),
        None => None,
    }
}

pub open spec fn id_bound(o: Option<String>) -> Option<Bound> {
    match parsed_id(o) {
        Some(p) => Some(Bound::Uuid(p)),
        None => None,
    }
}

pub open spec fn status_bound(before: CampaignRecord, u: CampaignUpdate, in_ping_tree: bool) -> Option<Bound> {
    match status_written(before, u, in_ping_tree) {
        Some(t) => Some(Bound::Label(t)),
        None => None,
    }
}

/// The change of the name: recorded when the given name differs from the
/// stored one read as empty when absent; the value before is shown as
/// stored.
pub open spec fn name_change(before: CampaignRecord, u: CampaignUpdate) -> Seq<(Seq<char>, Scalar, Scalar)> {
    match u.name {
        Some(n) => if or_empty(opt_view(before.name)) != n@ {
            seq![("name"@, opt_scalar(opt_view(before.name)), Scalar::Text(n@))]
        } else {
            Seq::empty()
        },
        None => Seq::empty(),
    }
}

/// The change of an id member: recorded when it parses to another id.
pub open spec fn id_change(field: Seq<char>, stored: u128, o: Option<String>) -> Seq<(Seq<char>, Scalar, Scalar)> {
    match parsed_id(o) {
        Some(p) => if p != stored {
            seq![(field, Scalar::Text(uuid_text(stored)), Scalar::Text(uuid_text(p)))]
        } else {
            Seq::empty()
        },
        None => Seq::empty(),
    }
}

pub open spec fn status_change(before: CampaignRecord, u: CampaignUpdate, in_ping_tree: bool) -> Seq<
    (Seq<char>, Scalar, Scalar),
> {
    match status_written(before, u, in_ping_tree) {
        Some(t) => seq![("status"@, Scalar::Text(before.status@), Scalar::Text(t))],
        None => Seq::empty(),
    }
}

/// The statement an update of campaign `id` runs.
pub open spec fn update_pieces(id: u128, before: CampaignRecord, u: CampaignUpdate, in_ping_tree: bool) -> Seq<
    Piece,
> {
    seq![Piece::Text("UPDATE campaigns SET "@)] + assign_opt("name"@, name_bound(u)) + assign_opt(
        "publisher_id"@,
        id_bound(u.publisher_id),
    ) + assign_opt("buyer_id"@, id_bound(u.buyer_id)) + assign_opt(
        "status"@,
        status_bound(before, u, in_ping_tree),
    ) + seq![
        Piece::Text("updated_at = NOW() WHERE id = "@),
        Piece::Bind(Bound::Uuid(id)),
        Piece::Text(" AND deleted_at IS NULL"@),
    ]
}

/// The changes an update records, in the order the fields are handled.
pub open spec fn update_changes(before: CampaignRecord, u: CampaignUpdate, in_ping_tree: bool) -> Seq<
    (Seq<char>, Scalar, Scalar),
> {
    name_change(before, u) + id_change("publisher_id"@, before.publisher_id, u.publisher_id)
        + id_change("buyer_id"@, before.buyer_id, u.buyer_id) + status_change(before, u, in_ping_tree)
}

/// The audit action of an update with these changes: a change of the name
/// alone, the publisher alone or the buyer alone has an action of its
/// own.
pub open spec fn action_for(changes: Seq<(Seq<char>, Scalar, Scalar)>) -> Seq<char> {
    if changes.len() == 1 && changes[0].0 == "name"@ {
        "campaign_name_changed"@
    } else if changes.len() == 1 && changes[0].0 == "publisher_id"@ {
        "campaign_publisher_changed"@
    } else if changes.len() == 1 && changes[0].0 == "buyer_id"@ {
        "campaign_buyer_changed"@
    } else {
        "campaign_updated"@
    }
}

/// Whether an update writes anything.
pub open spec fn writes_anything(before: CampaignRecord, u: CampaignUpdate, in_ping_tree: bool) -> bool {
    u.name is Some || parsed_id(u.publisher_id) is Some || parsed_id(u.buyer_id) is Some
        || status_written(before, u, in_ping_tree) is Some
}

fn target_of(s: &str, in_ping_tree: bool) -> (r: Option<&'static str>)
    ensures
        match r {
            Some(t) => status_target(s@, in_ping_tree) == Some(t@),
            None => status_target(s@, in_ping_tree) is None,
        },
{
    if str_eq(s, "active") {
        if in_ping_tree {
            Some("active")
        } else {
            Some("inactive")
        }
    } else if str_eq(s, "paused") {
        Some("paused")
    } else if str_eq(s, "inactive") {
        Some("inactive")
    } else {
        None
    }
}

fn parse_opt(o: &Option<String>) -> (r: Option<u128>)
    ensures
        r == parsed_id(*o),
{
    match o {
        Some(s) => uuid_parse(s.as_str()),
        None => None,
    }
}

fn stored_text(o: &Option<String>) -> (r: &str)
    ensures
        r@ == or_empty(opt_view(*o)),
{
    match o {
        Some(s) => s.as_str(),
        None => {
            proof {
                reveal_strlit("");
            }
            ""
        },
    }
}

fn name_step(
    q: &mut QueryText,
    Ghost(p): Ghost<Seq<Piece>>,
    changes: &mut Vec<FieldChange>,
    b: &CampaignRecord,
    u: &CampaignUpdate,
) -> (changed: bool)
    requires
        old(q).holds(p),
        old(q).binds@.len() < 10,
    ensures
        final(q).holds(p + assign_opt("name"@, name_bound(*u))),
        final(q).binds@.len() <= old(q).binds@.len() + 1,
        changes_view(final(changes)@) == changes_view(old(changes)@) + name_change(*b, *u),
        changed == (name_change(*b, *u).len() > 0),
{
    let ghost c0 = changes_view(changes@);
    match &u.name {
        Some(n) => {
            let stored = stored_text(&b.name);
            let mut changed = false;
            if !str_eq(stored, n.as_str()) {
                let bv = crate::audit::opt_value(
                    match &b.name {
                        Some(x) => Some(x.as_str()),
                        None => None,
                    },
                );
                record_change(changes, "name", bv, FieldValue::Text(n.clone()));
                changed = true;
            } else {
                assert(c0 + name_change(*b, *u) =~= c0);
            }
            q.push_assign(Ghost(p), "name", SqlValue::Text(n.clone()));
            changed
        },
        None => {
            assert(p + assign_opt("name"@, name_bound(*u)) =~= p);
            assert(c0 + name_change(*b, *u) =~= c0);
            false
        },
    }
}

fn id_step(
    q: &mut QueryText,
    Ghost(p): Ghost<Seq<Piece>>,
    changes: &mut Vec<FieldChange>,
    col: &str,
    stored: u128,
    o: &Option<String>,
) -> (changed: bool)
    requires
        old(q).holds(p),
        old(q).binds@.len() < 10,
    ensures
        final(q).holds(p + assign_opt(col@, id_bound(*o))),
        final(q).binds@.len() <= old(q).binds@.len() + 1,
        changes_view(final(changes)@) == changes_view(old(changes)@) + id_change(col@, stored, *o),
        changed == (id_change(col@, stored, *o).len() > 0),
{
    let ghost c0 = changes_view(changes@);
    match parse_opt(o) {
        Some(x) => {
            let mut changed = false;
            if x != stored {
                record_change(
                    changes,
                    col,
                    FieldValue::Text(uuid_to_string(stored)),
                    FieldValue::Text(uuid_to_string(x)),
                );
                changed = true;
            } else {
                assert(c0 + id_change(col@, stored, *o) =~= c0);
            }
            q.push_assign(Ghost(p), col, SqlValue::Uuid(x));
            changed
        },
        None => {
            assert(p + assign_opt(col@, id_bound(*o)) =~= p);
            assert(c0 + id_change(col@, stored, *o) =~= c0);
            false
        },
    }
}

fn status_step(
    q: &mut QueryText,
    Ghost(p): Ghost<Seq<Piece>>,
    changes: &mut Vec<FieldChange>,
    b: &CampaignRecord,
    u: &CampaignUpdate,
    in_ping_tree: bool,
) -> (r: Result<bool, String>)
    requires
        old(q).holds(p),
        old(q).binds@.len() < 10,
    ensures
        match u.status {
            Some(s) if status_target(s@, in_ping_tree) is None => r matches Err(m) && m@
                == invalid_status_message(s@),
            _ => r matches Ok(changed) && changed == (status_written(*b, *u, in_ping_tree) is Some)
                && final(q).holds(p + assign_opt("status"@, status_bound(*b, *u, in_ping_tree)))
                && final(q).binds@.len() <= old(q).binds@.len() + 1 && changes_view(final(changes)@)
                == changes_view(old(changes)@) + status_change(*b, *u, in_ping_tree),
        },
{
    let ghost c0 = changes_view(changes@);
    match &u.status {
        Some(s) => {
            match target_of(s.as_str(), in_ping_tree) {
                None => Err(
                    concat3(
                        "Invalid status value: ",
                        s.as_str(),
                        ". Must be one of: active, paused, inactive",
                    ),
                ),
                Some(t) => {
                    if !str_eq(t, b.status.as_str()) {
                        record_change(
                            changes,
                            "status",
                            FieldValue::Text(b.status.clone()),
                            FieldValue::Text(String::from_str(t)),
                        );
                        q.push_assign(Ghost(p), "status", SqlValue::Label(String::from_str(t)));
                        Ok(true)
                    } else {
                        assert(p + assign_opt("status"@, status_bound(*b, *u, in_ping_tree)) =~= p);
                        assert(c0 + status_change(*b, *u, in_ping_tree) =~= c0);
                        Ok(false)
                    }
                },
            }
        },
        None => {
            assert(p + assign_opt("status"@, status_bound(*b, *u, in_ping_tree)) =~= p);
            assert(c0 + status_change(*b, *u, in_ping_tree) =~= c0);
            Ok(false)
        },
    }
}

/// The action chosen from which single field changed.
fn action_of(n: usize, name: bool, publisher: bool, buyer: bool) -> (r: String)
    ensures
        r@ == if n == 1 && name {
            "campaign_name_changed"@
        } else if n == 1 && publisher {
            "campaign_publisher_changed"@
        } else if n == 1 && buyer {
            "campaign_buyer_changed"@
        } else {
            "campaign_updated"@
        },
{
    if n == 1 && name {
        String::from_str("campaign_name_changed")
    } else if n == 1 && publisher {
        String::from_str("campaign_publisher_changed")
    } else if n == 1 && buyer {
        String::from_str("campaign_buyer_changed")
    } else {
        String::from_str("campaign_updated")
    }
}

proof fn lemma_action(b: CampaignRecord, u: CampaignUpdate, t: bool, name: bool, publisher: bool, buyer: bool, status: bool)
    requires
        name == (name_change(b, u).len() > 0),
        publisher == (id_change("publisher_id"@, b.publisher_id, u.publisher_id).len() > 0),
        buyer == (id_change("buyer_id"@, b.buyer_id, u.buyer_id).len() > 0),
        status == (status_written(b, u, t) is Some),
    ensures
        action_for(update_changes(b, u, t)) == if update_changes(b, u, t).len() == 1 && name {
            "campaign_name_changed"@
        } else if update_changes(b, u, t).len() == 1 && publisher {
            "campaign_publisher_changed"@
        } else if update_changes(b, u, t).len() == 1 && buyer {
            "campaign_buyer_changed"@
        } else {
            "campaign_updated"@
        },
{
    reveal_strlit("name");
    reveal_strlit("publisher_id");
    reveal_strlit("buyer_id");
    reveal_strlit("status");
    let c1 = name_change(b, u);
    let c2 = id_change("publisher_id"@, b.publisher_id, u.publisher_id);
    let c3 = id_change("buyer_id"@, b.buyer_id, u.buyer_id);
    let c4 = status_change(b, u, t);
    let cs = c1 + c2 + c3 + c4;
    assert(update_changes(b, u, t) == cs);
    assert("name"@.len() == 4);
    assert("publisher_id"@.len() == 12);
    assert("buyer_id"@.len() == 8);
    assert("status"@.len() == 6);
    if cs.len() == 1 {
        if name {
            assert(cs[0] == c1[0]);
        } else if publisher {
            assert(cs[0] == c2[0]);
        } else if buyer {
            assert(cs[0] == c3[0]);
        } else {
            assert(cs[0] == c4[0]);
        }
    }
}

/// What an update of campaign `id` writes and records. `before` is the
/// stored campaign when it was found; `in_ping_tree` whether the campaign
/// belongs to a ping tree, which matters only when a status is given.
pub fn plan_campaign_update(
    id: u128,
    before: Option<&CampaignRecord>,
    u: &CampaignUpdate,
    in_ping_tree: bool,
) -> (r: CampaignUpdatePlan)
    ensures
        match before {
            None => r is NotFound,
            Some(b) => match u.status {
                Some(s) if status_target(s@, in_ping_tree) is None => r matches CampaignUpdatePlan::InvalidStatus(
                    m,
                ) && m@ == invalid_status_message(s@),
                _ => if !writes_anything(*b, *u, in_ping_tree) {
                    r is NothingToWrite
                } else {
                    r matches CampaignUpdatePlan::Write { query, changes, action } && query.holds(
                        update_pieces(id, *b, *u, in_ping_tree),
                    ) && changes_view(changes@) == update_changes(*b, *u, in_ping_tree) && action@
                        == action_for(update_changes(*b, *u, in_ping_tree))
                },
            },
        },
{
    let b = match before {
        Some(b) => b,
        None => return CampaignUpdatePlan::NotFound,
    };
    let mut q = QueryText::start("UPDATE campaigns SET ");
    let mut changes: Vec<FieldChange> = Vec::new();
    let ghost p0 = seq![Piece::Text("UPDATE campaigns SET "@)];
    assert(changes_view(changes@) =~= Seq::<(Seq<char>, Scalar, Scalar)>::empty());
    let name_changed = name_step(&mut q, Ghost(p0), &mut changes, b, u);
    let ghost p1 = p0 + assign_opt("name"@, name_bound(*u));
    let publisher_changed = id_step(&mut q, Ghost(p1), &mut changes, "publisher_id", b.publisher_id, &u.publisher_id);
    let ghost p2 = p1 + assign_opt("publisher_id"@, id_bound(u.publisher_id));
    let buyer_changed = id_step(&mut q, Ghost(p2), &mut changes, "buyer_id", b.buyer_id, &u.buyer_id);
    let ghost p3 = p2 + assign_opt("buyer_id"@, id_bound(u.buyer_id));
    let status_changed = match status_step(&mut q, Ghost(p3), &mut changes, b, u, in_ping_tree) {
        Err(m) => return CampaignUpdatePlan::InvalidStatus(m),
        Ok(c) => c,
    };
    let any = u.name.is_some() || parse_opt(&u.publisher_id).is_some() || parse_opt(&u.buyer_id).is_some() || status_changed;
    if !any {
        return CampaignUpdatePlan::NothingToWrite;
    }
    let ghost p4 = p3 + assign_opt("status"@, status_bound(*b, *u, in_ping_tree));
    q.push(Ghost(p4), "updated_at = NOW() WHERE id = ");
    q.push_bind(Ghost(p4.push(Piece::Text("updated_at = NOW() WHERE id = "@))), SqlValue::Uuid(id));
    q.push(
        Ghost(
            p4.push(Piece::Text("updated_at = NOW() WHERE id = "@)).push(
                Piece::Bind(Bound::Uuid(id)),
            ),
        ),
        " AND deleted_at IS NULL",
    );
    assert(update_pieces(id, *b, *u, in_ping_tree) =~= p4.push(
        Piece::Text("updated_at = NOW() WHERE id = "@),
    ).push(Piece::Bind(Bound::Uuid(id))).push(Piece::Text(" AND deleted_at IS NULL"@)));
    let action = action_of(changes.len(), name_changed, publisher_changed, buyer_changed);
    proof {
        lemma_action(*b, *u, in_ping_tree, name_changed, publisher_changed, buyer_changed, status_changed);
        assert(changes_view(changes@).len() == changes@.len());
    }
    CampaignUpdatePlan::Write { query: q, changes, action }
}

/// The last value an update binds is the campaign's id.
pub proof fn law_update_targets_campaign(
    id: u128,
    before: CampaignRecord,
    u: CampaignUpdate,
    in_ping_tree: bool,
)
    ensures
        bound(update_pieces(id, before, u, in_ping_tree)).len() > 0,
        bound(update_pieces(id, before, u, in_ping_tree)).last() == Bound::Uuid(id),
{
    let all = update_pieces(id, before, u, in_ping_tree);
    let tail = seq![
        Piece::Text("updated_at = NOW() WHERE id = "@),
        Piece::Bind(Bound::Uuid(id)),
        Piece::Text(" AND deleted_at IS NULL"@),
    ];
    let head = all.subrange(0, all.len() - 3);
    assert(all =~= head + tail);
    lemma_bound_concat(head, tail);
    reveal_with_fuel(bound, 4);
    assert(tail.drop_first().drop_first().drop_first() =~= Seq::<Piece>::empty());
    assert(bound(tail) =~= seq![Bound::Uuid(id)]);
}

/// Activating a campaign that belongs to no ping tree never makes it
/// active.
pub proof fn law_activation_needs_ping_tree(s: Seq<char>)
    ensures
        status_target(s, false) != Some("active"@),
{
    reveal_strlit("active");
    reveal_strlit("inactive");
    reveal_strlit("paused");
    assert("inactive"@.len() != "active"@.len());
    assert("paused"@[0] != "active"@[0]);
}

/// A requested `paused` or `inactive` status is set exactly as requested,
/// whatever the ping trees; only `active` depends on ping-tree membership
/// (active in a ping tree, inactive outside one); and any other status is
/// refused.
pub proof fn law_requested_status_is_set(s: Seq<char>, in_ping_tree: bool)
    ensures
        (s == "paused"@ || s == "inactive"@) ==> status_target(s, in_ping_tree) == Some(s),
        s == "active"@ ==> status_target(s, in_ping_tree) == Some(
            if in_ping_tree {
                "active"@
            } else {
                "inactive"@
            },
        ),
        s != "active"@ ==> status_target(s, true) == status_target(s, false),
        (status_target(s, in_ping_tree) is None) <==> !(s == "active"@ || s == "paused"@ || s
            == "inactive"@),
{
    reveal_strlit("active");
    reveal_strlit("inactive");
    reveal_strlit("paused");
    assert("inactive"@.len() != "active"@.len());
    assert("paused"@[0] != "active"@[0]);
    assert("paused"@.len() != "inactive"@.len());
}

/// The token of a new campaign: the hex digits of 20 random bytes.
pub fn new_campaign_token() -> (r: String)
    ensures
        exists|b: Seq<u8>| b.len() == 20 && r@ == hex_lower(b),
        r@.len() == 40,
{
    let bytes = random_bytes(20);
    proof {
        crate::codec::lemma_hex_lower_len(bytes@);
    }
    hex_encode(bytes.as_slice())
}

} // verus!
