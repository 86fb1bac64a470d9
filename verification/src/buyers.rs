//! Buyers: what an update writes and records, and the checks a new buyer
//! must pass.

use vstd::prelude::*;
use crate::audit::{
    changes_view, record_change, FieldChange, FieldValue, Scalar,
};
use crate::codec::{uuid_parse, uuid_parsed};
use crate::sql::{assign, assign_opt, bound, bound_view, lemma_bound_concat, Bound, Piece, QueryText, SqlValue};
use crate::text::{concat2, concat3, contains, chars_of, contains_seq, opt_view, str_eq};

verus! {

broadcast use vstd::string::group_string_axioms;

/// A stored buyer: the fields an update can change.
pub struct BuyerRecord {
    pub name: String,
    pub email_address: Option<String>,
    pub ein_tin: Option<String>,
    pub address_street: Option<String>,
    pub address_city: Option<String>,
    pub address_state: Option<String>,
    pub address_zip: Option<String>,
    pub representative_first_name: Option<String>,
    pub representative_last_name: Option<String>,
    /// The status label: active, incomplete, inactive or suspended.
    pub status: String,
}

/// The `buyer_integration_id` member of an update request.
pub enum IntegrationField {
    /// Not in the request.
    Absent,
    /// `null`.
    Null,
    /// A string.
    Text(String),
    /// Any other JSON value.
    Other,
}

/// The fields of an update request, each a string where the request gives
/// one.
pub struct BuyerUpdate {
    pub name: Option<String>,
    pub email_address: Option<String>,
    pub ein_tin: Option<String>,
    pub address_street: Option<String>,
    pub address_city: Option<String>,
    pub address_state: Option<String>,
    pub address_zip: Option<String>,
    pub representative_first_name: Option<String>,
    pub representative_last_name: Option<String>,
    pub buyer_integration_id: IntegrationField,
    pub status: Option<String>,
}

/// What an update comes to.
pub enum BuyerUpdatePlan {
    /// The status is not one of the four labels: the request is answered
    /// `success: false` with this message and nothing is written.
    InvalidStatus(String),
    /// The request names nothing to change: it succeeds without a write.
    NothingToWrite,
    /// Run `query`; then audit `changes` under `action`.
    Write { query: QueryText, changes: Vec<FieldChange>, action: String },
}

/// The editable text columns, in the order an update writes them.
pub open spec fn text_columns() -> Seq<Seq<char>> {
    seq![
        "name"@,
        "email_address"@,
        "ein_tin"@,
        "address_street"@,
        "address_city"@,
        "address_state"@,
        "address_zip"@,
        "representative_first_name"@,
        "representative_last_name"@,
    ]
}

/// The request's values for the text columns, in column order.
pub open spec fn update_texts(u: BuyerUpdate) -> Seq<Option<Seq<char>>> {
    seq![
        opt_view(u.name),
        opt_view(u.email_address),
        opt_view(u.ein_tin),
        opt_view(u.address_street),
        opt_view(u.address_city),
        opt_view(u.address_state),
        opt_view(u.address_zip),
        opt_view(u.representative_first_name),
        opt_view(u.representative_last_name),
    ]
}

/// An absent text compared as empty.
pub open spec fn or_empty(o: Option<Seq<char>>) -> Seq<char> {
    match o {
        Some(s) => s,
        None => Seq::empty(),
    }
}

/// The stored values of the text columns, absent ones as empty text.
pub open spec fn record_texts(b: BuyerRecord) -> Seq<Seq<char>> {
    seq![
        b.name@,
        or_empty(opt_view(b.email_address)),
        or_empty(opt_view(b.ein_tin)),
        or_empty(opt_view(b.address_street)),
        or_empty(opt_view(b.address_city)),
        or_empty(opt_view(b.address_state)),
        or_empty(opt_view(b.address_zip)),
        or_empty(opt_view(b.representative_first_name)),
        or_empty(opt_view(b.representative_last_name)),
    ]
}

/// The assignment of text column `i` when the request gives it.
pub open spec fn text_assign(u: BuyerUpdate, i: int) -> Seq<Piece> {
    assign_opt(text_columns()[i], text_bound(update_texts(u)[i]))
}

/// The assignments of the first `n` text columns that the request gives.
pub open spec fn assigns_upto(u: BuyerUpdate, n: nat) -> Seq<Piece>
    decreases n,
{
    if n == 0 {
        Seq::empty()
    } else {
        assigns_upto(u, (n - 1) as nat) + text_assign(u, n - 1)
    }
}

/// The assignments of the text columns the request gives, in order.
pub open spec fn text_assigns(u: BuyerUpdate) -> Seq<Piece> {
    assigns_upto(u, 9)
}

pub open spec fn text_bound(v: Option<Seq<char>>) -> Option<Bound> {
    match v {
        Some(s) => Some(Bound::Text(s)),
        None => None,
    }
}

/// The change of one field: recorded when a stored record is known and
/// the given value differs from the stored one.
pub open spec fn text_change(col: Seq<char>, before: Option<Seq<char>>, after: Option<Seq<char>>) -> Seq<
    (Seq<char>, Scalar, Scalar),
> {
    match (before, after) {
        (Some(b), Some(a)) => if b != a {
            seq![(col, Scalar::Text(b), Scalar::Text(a))]
        } else {
            Seq::empty()
        },
        _ => Seq::empty(),
    }
}

/// The stored value of text column `i`, when the buyer was found.
pub open spec fn stored(before: Option<BuyerRecord>, i: int) -> Option<Seq<char>> {
    match before {
        Some(b) => Some(record_texts(b)[i]),
        None => None,
    }
}

/// The change of text column `i`.
pub open spec fn text_change_at(before: Option<BuyerRecord>, u: BuyerUpdate, i: int) -> Seq<
    (Seq<char>, Scalar, Scalar),
> {
    text_change(text_columns()[i], stored(before, i), update_texts(u)[i])
}

/// The changes of the first `n` text columns.
pub open spec fn changes_upto(before: Option<BuyerRecord>, u: BuyerUpdate, n: nat) -> Seq<
    (Seq<char>, Scalar, Scalar),
>
    decreases n,
{
    if n == 0 {
        Seq::empty()
    } else {
        changes_upto(before, u, (n - 1) as nat) + text_change_at(before, u, n - 1)
    }
}

/// The changes of the text columns, in order.
pub open spec fn text_changes(before: Option<BuyerRecord>, u: BuyerUpdate) -> Seq<
    (Seq<char>, Scalar, Scalar),
> {
    changes_upto(before, u, 9)
}

/// Whether the request gives any text column.
pub open spec fn any_text(u: BuyerUpdate) -> bool {
    exists|i: int| 0 <= i < 9 && #[trigger] update_texts(u)[i] is Some
}

/// What the integration member asks for: `Some(None)` to clear it,
/// `Some(Some(id))` to set it, `None` to leave it.
pub open spec fn integration_request(f: IntegrationField) -> Option<Option<u128>> {
    match f {
        IntegrationField::Absent => None,
        IntegrationField::Null => Some(None),
        IntegrationField::Text(s) => if s@.len() == 0 {
            Some(None)
        } else {
            match uuid_parsed(s@) {
                Some(id) => Some(Some(id)),
                None => None,
            }
        },
        IntegrationField::Other => None,
    }
}

pub open spec fn integration_pieces(r: Option<Option<u128>>) -> Seq<Piece> {
    match r {
        None => Seq::empty(),
        Some(None) => seq![Piece::Text("buyer_integration_id = NULL, "@)],
        Some(Some(id)) => assign("buyer_integration_id"@, Bound::Uuid(id)),
    }
}

/// The four status labels.
pub open spec fn valid_status(s: Seq<char>) -> bool {
    s == "active"@ || s == "incomplete"@ || s == "inactive"@ || s == "suspended"@
}

/// The message for a status that is not a label.
pub open spec fn invalid_status_message(s: Seq<char>) -> Seq<char> {
    "Invalid status value: "@ + s + ". Must be one of: active, incomplete, inactive, suspended"@
}

pub open spec fn label_bound(o: Option<String>) -> Option<Bound> {
    match o {
        Some(s) => Some(Bound::Label(s@)),
        None => None,
    }
}

/// The statement an update runs.
pub open spec fn update_pieces(id: u128, u: BuyerUpdate) -> Seq<Piece> {
    seq![Piece::Text("UPDATE buyers SET "@)] + text_assigns(u)
        + integration_pieces(integration_request(u.buyer_integration_id)) + assign_opt(
        "status"@,
        label_bound(u.status),
    ) + seq![
        Piece::Text(" updated_at = NOW() WHERE id = "@),
        Piece::Bind(Bound::Uuid(id)),
        Piece::Text(" AND deleted_at IS NULL"@),
    ]
}

/// The changes an update records, given the stored buyer when it was
/// found.
pub open spec fn update_changes(before: Option<BuyerRecord>, u: BuyerUpdate) -> Seq<
    (Seq<char>, Scalar, Scalar),
> {
    text_changes(before, u) + text_change(
        "status"@,
        match before {
            Some(b) => Some(b.status@),
            None => None,
        },
        opt_view(u.status),
    )
}

/// The audit action of an update: a status changed to active activates
/// the buyer, one changed to suspended deactivates it, anything else
/// updates it.
pub open spec fn action_for(before: Option<BuyerRecord>, u: BuyerUpdate) -> Seq<char> {
    match (before, u.status) {
        (Some(b), Some(s)) => if b.status@ != s@ && s@ == "active"@ {
            "buyer_activated"@
        } else if b.status@ != s@ && s@ == "suspended"@ {
            "buyer_deactivated"@
        } else {
            "buyer_updated"@
        },
        _ => "buyer_updated"@,
    }
}

pub open spec fn deref_opt<T>(o: Option<&T>) -> Option<T> {
    match o {
        Some(x) => Some(*x),
        None => None,
    }
}

/// Whether an update writes anything.
pub open spec fn has_updates(u: BuyerUpdate) -> bool {
    any_text(u) || integration_request(u.buyer_integration_id) is Some
        || u.status is Some
}

fn opt_str(o: &Option<String>) -> (r: Option<&str>)
    ensures
        match r {
            Some(s) => opt_view(*o) == Some(s@),
            None => o is None,
        },
{
    match o {
        Some(s) => Some(s.as_str()),
        None => None,
    }
}

fn opt_or_empty(o: &Option<String>) -> (r: &str)
    ensures
        r@ == or_empty(opt_view(*o)),
{
    match o {
        Some(s) => s.as_str(),
        None => {
            proof {
                reveal_strlit("");
            }
            ""
        },
    }
}

/// Writes `col = $n, ` when a value is given, and records its change
/// against the stored value.
fn text_field(
    q: &mut QueryText,
    Ghost(pieces): Ghost<Seq<Piece>>,
    changes: &mut Vec<FieldChange>,
    col: &str,
    before: Option<&str>,
    val: &Option<String>,
)
    requires
        old(q).holds(pieces),
        old(q).binds@.len() < 1000,
    ensures
        final(q).holds(pieces + assign_opt(col@, text_bound(opt_view(*val)))),
        final(q).binds@.len() <= old(q).binds@.len() + 1,
        changes_view(final(changes)@) == changes_view(old(changes)@) + text_change(
            col@,
            match before {
                Some(b) => Some(b@),
                None => None,
            },
            opt_view(*val),
        ),
{
    match val {
        Some(v) => {
            match before {
                Some(b) => {
                    if !str_eq(b, v.as_str()) {
                        record_change(
                            changes,
                            col,
                            FieldValue::Text(String::from_str(b)),
                            FieldValue::Text(v.clone()),
                        );
                    } else {
                        assert(changes_view(changes@) =~= changes_view(changes@) + Seq::<
                            (Seq<char>, Scalar, Scalar),
                        >::empty());
                    }
                },
                None => {
                    assert(changes_view(changes@) =~= changes_view(changes@) + Seq::<
                        (Seq<char>, Scalar, Scalar),
                    >::empty());
                },
            }
            q.push_assign(Ghost(pieces), col, SqlValue::Text(v.clone()));
        },
        None => {
            assert(pieces + Seq::<Piece>::empty() =~= pieces);
            assert(changes_view(changes@) =~= changes_view(changes@) + Seq::<
                (Seq<char>, Scalar, Scalar),
            >::empty());
        },
    }
}

fn column_of(i: usize) -> (r: &'static str)
    requires
        i < 9,
    ensures
        r@ == text_columns()[i as int],
{
    proof {
        reveal_strlit("name");
        reveal_strlit("email_address");
        reveal_strlit("ein_tin");
        reveal_strlit("address_street");
        reveal_strlit("address_city");
        reveal_strlit("address_state");
        reveal_strlit("address_zip");
        reveal_strlit("representative_first_name");
        reveal_strlit("representative_last_name");
    }
    if i == 0 {
        "name"
    } else if i == 1 {
        "email_address"
    } else if i == 2 {
        "ein_tin"
    } else if i == 3 {
        "address_street"
    } else if i == 4 {
        "address_city"
    } else if i == 5 {
        "address_state"
    } else if i == 6 {
        "address_zip"
    } else if i == 7 {
        "representative_first_name"
    } else {
        "representative_last_name"
    }
}

fn update_text_of(u: &BuyerUpdate, i: usize) -> (r: &Option<String>)
    requires
        i < 9,
    ensures
        opt_view(*r) == update_texts(*u)[i as int],
{
    if i == 0 {
        &u.name
    } else if i == 1 {
        &u.email_address
    } else if i == 2 {
        &u.ein_tin
    } else if i == 3 {
        &u.address_street
    } else if i == 4 {
        &u.address_city
    } else if i == 5 {
        &u.address_state
    } else if i == 6 {
        &u.address_zip
    } else if i == 7 {
        &u.representative_first_name
    } else {
        &u.representative_last_name
    }
}

fn stored_of(before: Option<&BuyerRecord>, i: usize) -> (r: Option<&str>)
    requires
        i < 9,
    ensures
        match r {
            Some(s) => stored(deref_opt(before), i as int) == Some(s@),
            None => stored(deref_opt(before), i as int) is None,
        },
{
    match before {
        None => None,
        Some(b) => Some(
            if i == 0 {
                b.name.as_str()
            } else if i == 1 {
                opt_or_empty(&b.email_address)
            } else if i == 2 {
                opt_or_empty(&b.ein_tin)
            } else if i == 3 {
                opt_or_empty(&b.address_street)
            } else if i == 4 {
                opt_or_empty(&b.address_city)
            } else if i == 5 {
                opt_or_empty(&b.address_state)
            } else if i == 6 {
                opt_or_empty(&b.address_zip)
            } else if i == 7 {
                opt_or_empty(&b.representative_first_name)
            } else {
                opt_or_empty(&b.representative_last_name)
            },
        ),
    }
}

/// The statement up to and with the text columns, their changes, and
/// whether any was given.
fn text_part(before: Option<&BuyerRecord>, u: &BuyerUpdate) -> (r: (QueryText, Vec<FieldChange>, bool))
    ensures
        r.0.holds(seq![Piece::Text("UPDATE buyers SET "@)] + text_assigns(*u)),
        r.0.binds@.len() <= 9,
        changes_view(r.1@) == text_changes(deref_opt(before), *u),
        r.2 == any_text(*u),
{
    let ghost p0 = seq![Piece::Text("UPDATE buyers SET "@)];
    let mut q = QueryText::start("UPDATE buyers SET ");
    let mut changes: Vec<FieldChange> = Vec::new();
    let mut any = false;
    assert(p0 + assigns_upto(*u, 0) =~= p0);
    assert(changes_view(changes@) =~= changes_upto(deref_opt(before), *u, 0));
    for i in 0..9
        invariant
            q.holds(p0 + assigns_upto(*u, i as nat)),
            q.binds@.len() <= i,
            changes_view(changes@) == changes_upto(deref_opt(before), *u, i as nat),
            any == exists|j: int| 0 <= j < i && #[trigger] update_texts(*u)[j] is Some,
    {
        let ghost pi = p0 + assigns_upto(*u, i as nat);
        let col = column_of(i);
        let val = update_text_of(u, i);
        let st = stored_of(before, i);
        text_field(&mut q, Ghost(pi), &mut changes, col, st, val);
        assert(p0 + assigns_upto(*u, (i + 1) as nat) =~= pi + text_assign(*u, i as int));
        if val.is_some() {
            any = true;
        }
        assert(any == exists|j: int| 0 <= j < i + 1 && #[trigger] update_texts(*u)[j] is Some) by {
            if val.is_some() {
                assert(update_texts(*u)[i as int] is Some);
            }
        }
    }
    (q, changes, any)
}

fn status_is_valid(s: &str) -> (r: bool)
    ensures
        r == valid_status(s@),
{
    str_eq(s, "active") || str_eq(s, "incomplete") || str_eq(s, "inactive") || str_eq(
        s,
        "suspended",
    )
}

/// What an update of buyer `id` writes and records: the request `u`
/// against the stored buyer, when it was found.
pub fn plan_buyer_update(id: u128, before: Option<&BuyerRecord>, u: &BuyerUpdate) -> (r:
    BuyerUpdatePlan)
    ensures
        match u.status {
            Some(s) if !valid_status(s@) => r matches BuyerUpdatePlan::InvalidStatus(m) && m@
                == invalid_status_message(s@),
            _ => if !has_updates(*u) {
                r is NothingToWrite
            } else {
                r matches BuyerUpdatePlan::Write { query, changes, action } && query.holds(
                    update_pieces(id, *u),
                ) && changes_view(changes@) == update_changes(deref_opt(before), *u) && action@
                    == action_for(deref_opt(before), *u)
            },
        },
{
    let (mut q, mut changes, mut any_update) = text_part(before, u);
    let ghost p9 = seq![Piece::Text("UPDATE buyers SET "@)] + text_assigns(*u);
    let ghost r_int = integration_request(u.buyer_integration_id);
    match &u.buyer_integration_id {
        IntegrationField::Absent => {
            assert(p9 + integration_pieces(r_int) =~= p9);
        },
        IntegrationField::Null => {
            q.push(Ghost(p9), "buyer_integration_id = NULL, ");
            assert(p9.push(Piece::Text("buyer_integration_id = NULL, "@)) =~= p9 + integration_pieces(
                r_int,
            ));
            any_update = true;
        },
        IntegrationField::Text(s) => {
            if s.as_str().is_empty() {
                q.push(Ghost(p9), "buyer_integration_id = NULL, ");
                assert(p9.push(Piece::Text("buyer_integration_id = NULL, "@)) =~= p9
                    + integration_pieces(r_int));
                any_update = true;
            } else {
                match uuid_parse(s.as_str()) {
                    Some(iid) => {
                        q.push_assign(Ghost(p9), "buyer_integration_id", SqlValue::Uuid(iid));
                        any_update = true;
                    },
                    None => {
                        assert(p9 + integration_pieces(r_int) =~= p9);
                    },
                }
            }
        },
        IntegrationField::Other => {
            assert(p9 + integration_pieces(r_int) =~= p9);
        },
    }
    let ghost p10 = p9 + integration_pieces(r_int);
    let ghost sb = label_bound(u.status);
    let mut status_changed = false;
    match &u.status {
        Some(s) => {
            if !status_is_valid(s.as_str()) {
                return BuyerUpdatePlan::InvalidStatus(
                    concat3(
                        "Invalid status value: ",
                        s.as_str(),
                        ". Must be one of: active, incomplete, inactive, suspended",
                    ),
                );
            }
            match before {
                Some(b) => {
                    if !str_eq(b.status.as_str(), s.as_str()) {
                        record_change(
                            &mut changes,
                            "status",
                            FieldValue::Text(b.status.clone()),
                            FieldValue::Text(s.clone()),
                        );
                        status_changed = true;
                    } else {
                        assert(changes_view(changes@) =~= changes_view(changes@) + Seq::<
                            (Seq<char>, Scalar, Scalar),
                        >::empty());
                    }
                },
                None => {
                    assert(changes_view(changes@) =~= changes_view(changes@) + Seq::<
                        (Seq<char>, Scalar, Scalar),
                    >::empty());
                },
            }
            q.push_assign(Ghost(p10), "status", SqlValue::Label(s.clone()));
            any_update = true;
        },
        None => {
            assert(p10 + assign_opt("status"@, sb) =~= p10);
            assert(changes_view(changes@) =~= changes_view(changes@) + Seq::<
                (Seq<char>, Scalar, Scalar),
            >::empty());
        },
    }
    if !any_update {
        return BuyerUpdatePlan::NothingToWrite;
    }
    let ghost p11 = p10 + assign_opt("status"@, sb);
    q.push(Ghost(p11), " updated_at = NOW() WHERE id = ");
    q.push_bind(Ghost(p11.push(Piece::Text(" updated_at = NOW() WHERE id = "@))), SqlValue::Uuid(id));
    q.push(
        Ghost(
            p11.push(Piece::Text(" updated_at = NOW() WHERE id = "@)).push(
                Piece::Bind(Bound::Uuid(id)),
            ),
        ),
        " AND deleted_at IS NULL",
    );
    let action = if status_changed {
        match &u.status {
            Some(s) => if str_eq(s.as_str(), "active") {
                String::from_str("buyer_activated")
            } else if str_eq(s.as_str(), "suspended") {
                String::from_str("buyer_deactivated")
            } else {
                String::from_str("buyer_updated")
            },
            None => String::from_str("buyer_updated"),
        }
    } else {
        String::from_str("buyer_updated")
    };
    proof {
        assert(update_pieces(id, *u) =~= p11.push(
            Piece::Text(" updated_at = NOW() WHERE id = "@),
        ).push(Piece::Bind(Bound::Uuid(id))).push(Piece::Text(" AND deleted_at IS NULL"@)));
    }
    BuyerUpdatePlan::Write { query: q, changes, action }
}

/// A stored optional text after an update that may give a new value: the
/// new value when it differs from the stored one read as empty-when-absent.
pub open spec fn updated_opt(stored: Option<Seq<char>>, given: Option<Seq<char>>) -> Option<
    Seq<char>,
> {
    match given {
        Some(g) => if or_empty(stored) != g {
            Some(g)
        } else {
            stored
        },
        None => stored,
    }
}

pub open spec fn updated_text(stored: Seq<char>, given: Option<Seq<char>>) -> Seq<char> {
    match given {
        Some(g) => g,
        None => stored,
    }
}

fn apply_opt(stored: &Option<String>, given: &Option<String>) -> (r: Option<String>)
    ensures
        opt_view(r) == updated_opt(opt_view(*stored), opt_view(*given)),
{
    match given {
        Some(g) => if !str_eq(opt_or_empty(stored), g.as_str()) {
            Some(g.clone())
        } else {
            stored.clone()
        },
        None => stored.clone(),
    }
}

fn apply_text(stored: &String, given: &Option<String>) -> (r: String)
    ensures
        r@ == updated_text(stored@, opt_view(*given)),
{
    match given {
        Some(g) => g.clone(),
        None => stored.clone(),
    }
}

/// The buyer as the audit entry shows it after an update: the stored
/// buyer with each recorded change applied.
pub fn buyer_after(before: &BuyerRecord, u: &BuyerUpdate) -> (r: BuyerRecord)
    ensures
        r.name@ == updated_text(before.name@, opt_view(u.name)),
        opt_view(r.email_address) == updated_opt(opt_view(before.email_address), opt_view(u.email_address)),
        opt_view(r.ein_tin) == updated_opt(opt_view(before.ein_tin), opt_view(u.ein_tin)),
        opt_view(r.address_street) == updated_opt(opt_view(before.address_street), opt_view(u.address_street)),
        opt_view(r.address_city) == updated_opt(opt_view(before.address_city), opt_view(u.address_city)),
        opt_view(r.address_state) == updated_opt(opt_view(before.address_state), opt_view(u.address_state)),
        opt_view(r.address_zip) == updated_opt(opt_view(before.address_zip), opt_view(u.address_zip)),
        opt_view(r.representative_first_name) == updated_opt(
            opt_view(before.representative_first_name),
            opt_view(u.representative_first_name),
        ),
        opt_view(r.representative_last_name) == updated_opt(
            opt_view(before.representative_last_name),
            opt_view(u.representative_last_name),
        ),
        r.status@ == updated_text(before.status@, opt_view(u.status)),
{
    BuyerRecord {
        name: apply_text(&before.name, &u.name),
        email_address: apply_opt(&before.email_address, &u.email_address),
        ein_tin: apply_opt(&before.ein_tin, &u.ein_tin),
        address_street: apply_opt(&before.address_street, &u.address_street),
        address_city: apply_opt(&before.address_city, &u.address_city),
        address_state: apply_opt(&before.address_state, &u.address_state),
        address_zip: apply_opt(&before.address_zip, &u.address_zip),
        representative_first_name: apply_opt(
            &before.representative_first_name,
            &u.representative_first_name,
        ),
        representative_last_name: apply_opt(
            &before.representative_last_name,
            &u.representative_last_name,
        ),
        status: apply_text(&before.status, &u.status),
    }
}

/// An update never records a change whose value before and after are
/// the same.
pub proof fn law_update_changes_differ(before: Option<BuyerRecord>, u: BuyerUpdate)
    ensures
        forall|i: int|
            0 <= i < update_changes(before, u).len() ==> #[trigger] update_changes(before, u)[i].1
                != update_changes(before, u)[i].2,
{
    lemma_changes_upto_differ(before, u, 9);
    let t = text_changes(before, u);
    let s = text_change("status"@, match before { Some(b) => Some(b.status@), None => None }, opt_view(u.status));
    assert forall|i: int| 0 <= i < (t + s).len() implies #[trigger] (t + s)[i].1 != (t + s)[i].2 by {
        if i < t.len() {
            assert((t + s)[i] == t[i]);
        } else {
            assert((t + s)[i] == s[i - t.len()]);
        }
    }
}

proof fn lemma_changes_upto_differ(before: Option<BuyerRecord>, u: BuyerUpdate, n: nat)
    ensures
        forall|i: int|
            0 <= i < changes_upto(before, u, n).len() ==> #[trigger] changes_upto(before, u, n)[i].1
                != changes_upto(before, u, n)[i].2,
    decreases n,
{
    if n > 0 {
        lemma_changes_upto_differ(before, u, (n - 1) as nat);
        let t = changes_upto(before, u, (n - 1) as nat);
        let s = text_change_at(before, u, n - 1);
        assert(changes_upto(before, u, n) == t + s);
        assert forall|i: int| 0 <= i < (t + s).len() implies #[trigger] (t + s)[i].1 != (t
            + s)[i].2 by {
            if i < t.len() {
                assert((t + s)[i] == t[i]);
            } else {
                assert((t + s)[i] == s[i - t.len()]);
            }
        }
    }
}

/// The last value an update binds is the buyer's id: the statement writes
/// the buyer it was asked to update and no other.
pub proof fn law_update_targets_buyer(id: u128, u: BuyerUpdate)
    ensures
        bound(update_pieces(id, u)).len() > 0,
        bound(update_pieces(id, u)).last() == Bound::Uuid(id),
{
    let head = seq![Piece::Text("UPDATE buyers SET "@)] + text_assigns(u) + integration_pieces(
        integration_request(u.buyer_integration_id),
    ) + assign_opt("status"@, label_bound(u.status));
    let tail = seq![
        Piece::Text(" updated_at = NOW() WHERE id = "@),
        Piece::Bind(Bound::Uuid(id)),
        Piece::Text(" AND deleted_at IS NULL"@),
    ];
    assert(update_pieces(id, u) == head + tail);
    lemma_bound_concat(head, tail);
    reveal_with_fuel(bound, 4);
    assert(tail.drop_first().drop_first().drop_first() =~= Seq::<Piece>::empty());
    assert(bound(tail) =~= seq![Bound::Uuid(id)]);
}

/// After an update, a field the request gives reads as the given value
/// (absent read as empty), and a field it does not give keeps its value.
pub proof fn law_after_reads_given(stored: Option<Seq<char>>, given: Option<Seq<char>>)
    ensures
        given matches Some(g) ==> or_empty(updated_opt(stored, given)) == g,
        given is None ==> updated_opt(stored, given) == stored,
{
}

/// The post type of a new buyer (full_post when the request names none),
/// or the message that rejects the request's post or buyer type.
pub open spec fn new_buyer_types(post_type: Option<Seq<char>>, buyer_type: Option<Seq<char>>) -> Result<
    Seq<char>,
    Seq<char>,
> {
    let pt = match post_type {
        Some(p) => p,
        None => "full_post"@,
    };
    if pt != "full_post"@ && pt != "ping_post"@ {
        Err("Invalid post_type: "@ + pt + ". Must be 'full_post' or 'ping_post'"@)
    } else {
        match buyer_type {
            Some(bt) => if bt != "internal"@ && bt != "external"@ {
                Err("Invalid buyer_type: "@ + bt + ". Must be 'internal' or 'external'"@)
            } else {
                Ok(pt)
            },
            None => Ok(pt),
        }
    }
}

pub open spec fn str_opt(o: Option<&str>) -> Option<Seq<char>> {
    match o {
        Some(s) => Some(s@),
        None => None,
    }
}

/// Checks a new buyer's post type and buyer type (see `new_buyer_types`).
pub fn check_new_buyer_types(post_type: Option<&str>, buyer_type: Option<&str>) -> (r: Result<
    String,
    String,
>)
    ensures
        match (r, new_buyer_types(str_opt(post_type), str_opt(buyer_type))) {
            (Ok(p), Ok(q)) => p@ == q,
            (Err(m), Err(n)) => m@ == n,
            _ => false,
        },
{
    let pt = match post_type {
        Some(p) => p,
        None => "full_post",
    };
    if !str_eq(pt, "full_post") && !str_eq(pt, "ping_post") {
        return Err(concat3("Invalid post_type: ", pt, ". Must be 'full_post' or 'ping_post'"));
    }
    match buyer_type {
        Some(bt) => {
            if !str_eq(bt, "internal") && !str_eq(bt, "external") {
                return Err(
                    concat3("Invalid buyer_type: ", bt, ". Must be 'internal' or 'external'"),
                );
            }
        },
        None => {},
    }
    Ok(String::from_str(pt))
}

/// The answer to a new buyer whose name an active buyer of the instance
/// already has.
pub fn duplicate_name_message(name: &str) -> (r: String)
    ensures
        r@ == "A buyer with the name '"@ + name@ + "' already exists. Please choose a different name."@,
{
    concat3("A buyer with the name '", name, "' already exists. Please choose a different name.")
}

/// Whether a failed insert of a buyer is the unique-name constraint: the
/// database's message names a duplicate key and that constraint or index.
pub fn is_name_constraint_violation(error_text: &str) -> (r: bool)
    ensures
        r == (contains_seq(error_text@, "duplicate key"@) && (contains_seq(
            error_text@,
            "instance_id_and_name"@,
        ) || contains_seq(error_text@, "idx_buyers_instance_name"@))),
{
    let e = chars_of(error_text);
    contains(&e, &chars_of("duplicate key")) && (contains(&e, &chars_of("instance_id_and_name"))
        || contains(&e, &chars_of("idx_buyers_instance_name")))
}

/// The answer when the insert hits the unique-name constraint.
pub fn name_constraint_message(name: &str) -> (r: String)
    ensures
        r@ == "A buyer with the name '"@ + name@
            + "' already exists. Please restart the API server to refresh the database connection pool (the constraint has been removed from the database)."@,
{
    concat3(
        "A buyer with the name '",
        name,
        "' already exists. Please restart the API server to refresh the database connection pool (the constraint has been removed from the database).",
    )
}

/// Whether a new buyer gets the internal Pulsar integration of its
/// vertical: an internal buyer with a vertical.
pub fn takes_pulsar_integration(buyer_type: Option<&str>, has_vertical: bool) -> (r: bool)
    ensures
        r == (str_opt(buyer_type) == Some("internal"@) && has_vertical),
{
    match buyer_type {
        Some(bt) => str_eq(bt, "internal") && has_vertical,
        None => false,
    }
}

/// The slug of the Pulsar integration made for a vertical.
pub fn pulsar_integration_slug(vertical_slug: &str) -> (r: String)
    ensures
        r@ == "pulsar-"@ + vertical_slug@,
{
    concat2("pulsar-", vertical_slug)
}

/// Whether a buyer's profile is complete enough to activate it: a
/// non-empty name, every contact and address field present, and an
/// integration chosen.
pub open spec fn activatable(b: BuyerRecord, has_integration: bool) -> bool {
    &&& b.name@.len() > 0
    &&& b.email_address is Some
    &&& b.ein_tin is Some
    &&& b.address_street is Some
    &&& b.address_city is Some
    &&& b.address_state is Some
    &&& b.address_zip is Some
    &&& b.representative_first_name is Some
    &&& b.representative_last_name is Some
    &&& has_integration
}

/// Whether the buyer can be activated (see `activatable`).
pub fn can_activate(b: &BuyerRecord, has_integration: bool) -> (r: bool)
    ensures
        r == activatable(*b, has_integration),
{
    !b.name.as_str().is_empty() && b.email_address.is_some() && b.ein_tin.is_some()
        && b.address_street.is_some() && b.address_city.is_some() && b.address_state.is_some()
        && b.address_zip.is_some() && b.representative_first_name.is_some()
        && b.representative_last_name.is_some() && has_integration
}

/// Each part of a buyer's profile is needed to activate it: without a
/// name, an email address, an EIN/TIN, any part of the address, either
/// name of the representative, or a chosen integration, the buyer cannot
/// be activated; with all of them it can.
pub proof fn law_activation_needs_every_profile_field(b: BuyerRecord, has_integration: bool)
    ensures
        b.name@.len() == 0 ==> !activatable(b, has_integration),
        b.email_address is None ==> !activatable(b, has_integration),
        b.ein_tin is None ==> !activatable(b, has_integration),
        b.address_street is None ==> !activatable(b, has_integration),
        b.address_city is None ==> !activatable(b, has_integration),
        b.address_state is None ==> !activatable(b, has_integration),
        b.address_zip is None ==> !activatable(b, has_integration),
        b.representative_first_name is None ==> !activatable(b, has_integration),
        b.representative_last_name is None ==> !activatable(b, has_integration),
        !has_integration ==> !activatable(b, has_integration),
        (b.name@.len() > 0 && b.email_address is Some && b.ein_tin is Some && b.address_street is Some
            && b.address_city is Some && b.address_state is Some && b.address_zip is Some
            && b.representative_first_name is Some && b.representative_last_name is Some
            && has_integration) ==> activatable(b, has_integration),
{
}

/// A vertical as the buyer listing reads it.
pub struct VerticalRecord {
    pub id: u128,
    pub name: String,
    pub slug: String,
}

/// What the buyer listing shows of a buyer's vertical.
pub enum BuyerVertical {
    /// The vertical was found: its id, name and slug.
    Known { id: String, name: String, slug: String },
    /// Only its id.
    IdOnly(String),
}

/// The last vertical record with id `v` among the first `n` (the listing
/// keeps the last one read for an id).
pub open spec fn last_vertical(vs: Seq<VerticalRecord>, v: u128, n: nat) -> Option<VerticalRecord>
    decreases n,
{
    if n == 0 {
        None
    } else if vs[n - 1].id == v {
        Some(vs[n - 1])
    } else {
        last_vertical(vs, v, (n - 1) as nat)
    }
}

/// What the buyer listing shows of the vertical of a buyer: nothing when
/// it has none, its name and slug when the vertical is known, its id only
/// otherwise.
pub fn buyer_vertical(vertical_id: Option<u128>, verticals: &Vec<VerticalRecord>) -> (r: Option<BuyerVertical>)
    ensures
        match vertical_id {
            None => r is None,
            Some(v) => match last_vertical(verticals@, v, verticals@.len()) {
                Some(rec) => r matches Some(BuyerVertical::Known { id, name, slug }) && id@
                    == crate::codec::uuid_text(v) && name@ == rec.name@ && slug@ == rec.slug@,
                None => r matches Some(BuyerVertical::IdOnly(id)) && id@ == crate::codec::uuid_text(v),
            },
        },
{
    let v = match vertical_id {
        Some(v) => v,
        None => return None,
    };
    let mut i = verticals.len();
    while i > 0
        invariant
            i <= verticals@.len(),
            vertical_id == Some(v),
            last_vertical(verticals@, v, verticals@.len()) == last_vertical(verticals@, v, i as nat),
        decreases i,
    {
        if verticals[i - 1].id == v {
            let rec = &verticals[i - 1];
            return Some(
                BuyerVertical::Known {
                    id: crate::codec::uuid_to_string(v),
                    name: rec.name.clone(),
                    slug: rec.slug.clone(),
                },
            );
        }
        i = i - 1;
    }
    Some(BuyerVertical::IdOnly(crate::codec::uuid_to_string(v)))
}

} // verus!
