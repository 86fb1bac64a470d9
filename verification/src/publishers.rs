//! Publishers: what an update writes and records, the listing with each
//! publisher's verticals, and the keys and secrets a publisher is given.

use vstd::prelude::*;
use crate::audit::{changes_view, opt_scalar, record_change, FieldChange, FieldValue, Scalar};
use crate::codec::{hex_encode, hex_lower, random_bytes, sha256, sha256_digest, uuid_text, uuid_to_string};
use crate::sql::{
    any_given, assigns_of, bound, bound_view, lemma_bound_concat, opt_bound, Bound, Piece,
    QueryText, SqlValue,
};
use crate::text::{chars_of, concat2, concat3, contains, contains_seq, opt_view, str_eq};

verus! {

broadcast use vstd::string::group_string_axioms;

/// The fields an update request may give; each absent one is left as is.
pub struct UpdatePublisherRequest {
    pub name: Option<String>,
    pub email: Option<String>,
    pub status: Option<String>,
    pub hmac_required: Option<bool>,
    pub representative_first_name: Option<String>,
    pub representative_last_name: Option<String>,
    pub address_street: Option<String>,
    pub address_city: Option<String>,
    pub address_state: Option<String>,
    pub address_zip: Option<String>,
    pub timezone: Option<String>,
    pub ein_tin: Option<String>,
}

/// The columns an update writes, in order.
pub open spec fn update_columns() -> Seq<Seq<char>> {
    seq![
        "name"@,
        "email"@,
        "status"@,
        "hmac_required"@,
        "representative_first_name"@,
        "representative_last_name"@,
        "address_street"@,
        "address_city"@,
        "address_state"@,
        "address_zip"@,
        "timezone"@,
        "ein_tin"@,
    ]
}

pub open spec fn text_value(o: Option<String>) -> Option<Bound> {
    match o {
        Some(s) => Some(Bound::Text(s@)),
        None => None,
    }
}

/// The values the request gives for the columns, in column order.
pub open spec fn update_values(u: UpdatePublisherRequest) -> Seq<Option<Bound>> {
    seq![
        text_value(u.name),
        text_value(u.email),
        text_value(u.status),
        match u.hmac_required {
            Some(b) => Some(Bound::Bool(b)),
            None => None,
        },
        text_value(u.representative_first_name),
        text_value(u.representative_last_name),
        text_value(u.address_street),
        text_value(u.address_city),
        text_value(u.address_state),
        text_value(u.address_zip),
        text_value(u.timezone),
        text_value(u.ein_tin),
    ]
}

/// The statement an update of publisher `id` runs.
pub open spec fn update_pieces(id: u128, u: UpdatePublisherRequest) -> Seq<Piece> {
    seq![Piece::Text("UPDATE publishers SET "@)] + assigns_of(update_columns(), update_values(u), 12)
        + seq![
        Piece::Text("updated_at = NOW() WHERE id = "@),
        Piece::Bind(Bound::Uuid(id)),
        Piece::Text(" AND deleted_at IS NULL"@),
    ]
}

/// What an update comes to.
pub enum PublisherUpdatePlan {
    /// No publisher with that id: 404.
    NotFound,
    /// The request gives no field: 400.
    NoFields,
    /// Run the statement.
    Write(QueryText),
}

fn column_of(i: usize) -> (r: &'static str)
    requires
        i < 12,
    ensures
        r@ == update_columns()[i as int],
{
    proof {
        reveal_strlit("name");
        reveal_strlit("email");
        reveal_strlit("status");
        reveal_strlit("hmac_required");
        reveal_strlit("representative_first_name");
        reveal_strlit("representative_last_name");
        reveal_strlit("address_street");
        reveal_strlit("address_city");
        reveal_strlit("address_state");
        reveal_strlit("address_zip");
        reveal_strlit("timezone");
        reveal_strlit("ein_tin");
    }
    if i == 0 {
        "name"
    } else if i == 1 {
        "email"
    } else if i == 2 {
        "status"
    } else if i == 3 {
        "hmac_required"
    } else if i == 4 {
        "representative_first_name"
    } else if i == 5 {
        "representative_last_name"
    } else if i == 6 {
        "address_street"
    } else if i == 7 {
        "address_city"
    } else if i == 8 {
        "address_state"
    } else if i == 9 {
        "address_zip"
    } else if i == 10 {
        "timezone"
    } else {
        "ein_tin"
    }
}

fn text_of(o: &Option<String>) -> (r: Option<SqlValue>)
    ensures
        opt_bound(r) == text_value(*o),
{
    match o {
        Some(s) => Some(SqlValue::Text(s.clone())),
        None => None,
    }
}

fn value_of(u: &UpdatePublisherRequest, i: usize) -> (r: Option<SqlValue>)
    requires
        i < 12,
    ensures
        opt_bound(r) == update_values(*u)[i as int],
{
    if i == 0 {
        text_of(&u.name)
    } else if i == 1 {
        text_of(&u.email)
    } else if i == 2 {
        text_of(&u.status)
    } else if i == 3 {
        match u.hmac_required {
            Some(b) => Some(SqlValue::Bool(b)),
            None => None,
        }
    } else if i == 4 {
        text_of(&u.representative_first_name)
    } else if i == 5 {
        text_of(&u.representative_last_name)
    } else if i == 6 {
        text_of(&u.address_street)
    } else if i == 7 {
        text_of(&u.address_city)
    } else if i == 8 {
        text_of(&u.address_state)
    } else if i == 9 {
        text_of(&u.address_zip)
    } else if i == 10 {
        text_of(&u.timezone)
    } else {
        text_of(&u.ein_tin)
    }
}

/// What an update of publisher `id` writes, given whether the publisher
/// was found.
pub fn plan_publisher_update(id: u128, found: bool, u: &UpdatePublisherRequest) -> (r:
    PublisherUpdatePlan)
    ensures
        !found ==> r is NotFound,
        found && !any_given(update_values(*u), 12) ==> r is NoFields,
        found && any_given(update_values(*u), 12) ==> (r matches PublisherUpdatePlan::Write(q)
            && q.holds(update_pieces(id, *u))),
{
    if !found {
        return PublisherUpdatePlan::NotFound;
    }
    let ghost cols = update_columns();
    let ghost vals = update_values(*u);
    let ghost p0 = seq![Piece::Text("UPDATE publishers SET "@)];
    let mut q = QueryText::start("UPDATE publishers SET ");
    let mut any = false;
    assert(p0 + assigns_of(cols, vals, 0) =~= p0);
    for i in 0..12
        invariant
            cols == update_columns(),
            vals == update_values(*u),
            q.holds(p0 + assigns_of(cols, vals, i as nat)),
            q.binds@.len() <= i,
            any == any_given(vals, i as nat),
    {
        let ghost pi = p0 + assigns_of(cols, vals, i as nat);
        let v = value_of(u, i);
        if v.is_some() {
            any = true;
            assert(vals[i as int] is Some);
        }
        q.push_assign_opt(Ghost(pi), column_of(i), v);
        assert(p0 + assigns_of(cols, vals, (i + 1) as nat) =~= pi + crate::sql::assign_opt(
            cols[i as int],
            vals[i as int],
        ));
        assert(any == any_given(vals, (i + 1) as nat));
    }
    if !any {
        return PublisherUpdatePlan::NoFields;
    }
    let ghost p12 = p0 + assigns_of(cols, vals, 12);
    q.push(Ghost(p12), "updated_at = NOW() WHERE id = ");
    q.push_bind(Ghost(p12.push(Piece::Text("updated_at = NOW() WHERE id = "@))), SqlValue::Uuid(id));
    q.push(
        Ghost(
            p12.push(Piece::Text("updated_at = NOW() WHERE id = "@)).push(
                Piece::Bind(Bound::Uuid(id)),
            ),
        ),
        " AND deleted_at IS NULL",
    );
    assert(update_pieces(id, *u) =~= p12.push(Piece::Text("updated_at = NOW() WHERE id = "@)).push(
        Piece::Bind(Bound::Uuid(id)),
    ).push(Piece::Text(" AND deleted_at IS NULL"@)));
    PublisherUpdatePlan::Write(q)
}

/// The last value an update binds is the publisher's id.
pub proof fn law_update_targets_publisher(id: u128, u: UpdatePublisherRequest)
    ensures
        bound(update_pieces(id, u)).len() > 0,
        bound(update_pieces(id, u)).last() == Bound::Uuid(id),
{
    let head = seq![Piece::Text("UPDATE publishers SET "@)] + assigns_of(
        update_columns(),
        update_values(u),
        12,
    );
    let tail = seq![
        Piece::Text("updated_at = NOW() WHERE id = "@),
        Piece::Bind(Bound::Uuid(id)),
        Piece::Text(" AND deleted_at IS NULL"@),
    ];
    assert(update_pieces(id, u) == head + tail);
    lemma_bound_concat(head, tail);
    reveal_with_fuel(bound, 4);
    assert(tail.drop_first().drop_first().drop_first() =~= Seq::<Piece>::empty());
    assert(bound(tail) =~= seq![Bound::Uuid(id)]);
}

/// A publisher as the audit entry of an update shows it.
pub struct PublisherSnapshot {
    pub name: String,
    pub email: String,
    pub status: String,
    pub representative_first_name: Option<String>,
    pub representative_last_name: Option<String>,
    pub address_street: Option<String>,
    pub address_city: Option<String>,
    pub address_state: Option<String>,
    pub address_zip: Option<String>,
    pub timezone: Option<String>,
    pub ein_tin: Option<String>,
    pub hmac_required: bool,
}

/// The audited fields of a snapshot, in the order they are compared.
pub open spec fn snapshot_fields(p: PublisherSnapshot) -> Seq<(Seq<char>, Scalar)> {
    seq![
        ("name"@, Scalar::Text(p.name@)),
        ("email"@, Scalar::Text(p.email@)),
        ("status"@, Scalar::Text(p.status@)),
        ("representative_first_name"@, opt_scalar(opt_view(p.representative_first_name))),
        ("representative_last_name"@, opt_scalar(opt_view(p.representative_last_name))),
        ("address_street"@, opt_scalar(opt_view(p.address_street))),
        ("address_city"@, opt_scalar(opt_view(p.address_city))),
        ("address_state"@, opt_scalar(opt_view(p.address_state))),
        ("address_zip"@, opt_scalar(opt_view(p.address_zip))),
        ("timezone"@, opt_scalar(opt_view(p.timezone))),
        ("ein_tin"@, opt_scalar(opt_view(p.ein_tin))),
        ("hmac_required"@, Scalar::Flag(p.hmac_required)),
    ]
}

/// The changes between the first `n` fields of two snapshots.
pub open spec fn changes_between(
    before: Seq<(Seq<char>, Scalar)>,
    after: Seq<(Seq<char>, Scalar)>,
    n: nat,
) -> Seq<(Seq<char>, Scalar, Scalar)>
    decreases n,
{
    if n == 0 {
        Seq::empty()
    } else {
        let rest = changes_between(before, after, (n - 1) as nat);
        if before[n - 1].1 != after[n - 1].1 {
            rest.push((before[n - 1].0, before[n - 1].1, after[n - 1].1))
        } else {
            rest
        }
    }
}

/// The changes an update records: each audited field whose value before
/// differs from its value after.
pub open spec fn publisher_changes(before: PublisherSnapshot, after: PublisherSnapshot) -> Seq<
    (Seq<char>, Scalar, Scalar),
> {
    changes_between(snapshot_fields(before), snapshot_fields(after), 12)
}

fn opt_field(o: &Option<String>) -> (r: FieldValue)
    ensures
        crate::audit::scalar(r) == opt_scalar(opt_view(*o)),
{
    match o {
        Some(s) => FieldValue::Text(s.clone()),
        None => FieldValue::Null,
    }
}

fn field_at(p: &PublisherSnapshot, i: usize) -> (r: (&'static str, FieldValue))
    requires
        i < 12,
    ensures
        r.0@ == snapshot_fields(*p)[i as int].0,
        crate::audit::scalar(r.1) == snapshot_fields(*p)[i as int].1,
{
    proof {
        reveal_strlit("name");
        reveal_strlit("email");
        reveal_strlit("status");
        reveal_strlit("hmac_required");
        reveal_strlit("representative_first_name");
        reveal_strlit("representative_last_name");
        reveal_strlit("address_street");
        reveal_strlit("address_city");
        reveal_strlit("address_state");
        reveal_strlit("address_zip");
        reveal_strlit("timezone");
        reveal_strlit("ein_tin");
    }
    if i == 0 {
        ("name", FieldValue::Text(p.name.clone()))
    } else if i == 1 {
        ("email", FieldValue::Text(p.email.clone()))
    } else if i == 2 {
        ("status", FieldValue::Text(p.status.clone()))
    } else if i == 3 {
        ("representative_first_name", opt_field(&p.representative_first_name))
    } else if i == 4 {
        ("representative_last_name", opt_field(&p.representative_last_name))
    } else if i == 5 {
        ("address_street", opt_field(&p.address_street))
    } else if i == 6 {
        ("address_city", opt_field(&p.address_city))
    } else if i == 7 {
        ("address_state", opt_field(&p.address_state))
    } else if i == 8 {
        ("address_zip", opt_field(&p.address_zip))
    } else if i == 9 {
        ("timezone", opt_field(&p.timezone))
    } else if i == 10 {
        ("ein_tin", opt_field(&p.ein_tin))
    } else {
        ("hmac_required", FieldValue::Flag(p.hmac_required))
    }
}

/// The changes an update of a publisher records (see `publisher_changes`).
pub fn changes_of_update(before: &PublisherSnapshot, after: &PublisherSnapshot) -> (r: Vec<
    FieldChange,
>)
    ensures
        changes_view(r@) == publisher_changes(*before, *after),
{
    let ghost bf = snapshot_fields(*before);
    let ghost af = snapshot_fields(*after);
    let mut r: Vec<FieldChange> = Vec::new();
    assert(changes_view(r@) =~= changes_between(bf, af, 0));
    for i in 0..12
        invariant
            bf == snapshot_fields(*before),
            af == snapshot_fields(*after),
            changes_view(r@) == changes_between(bf, af, i as nat),
    {
        let (name, b) = field_at(before, i);
        let (_, a) = field_at(after, i);
        if !crate::audit::same_value(&b, &a) {
            record_change(&mut r, name, b, a);
        }
    }
    r
}

/// A vertical a publisher sends leads for.
pub struct VerticalInfo {
    pub id: String,
    pub name: String,
    pub slug: String,
}

/// A publisher as the listing shows it.
pub struct PublisherResponse {
    pub id: String,
    pub name: String,
    pub email: String,
    pub status: String,
    pub api_key_prefix: String,
    pub hmac_required: bool,
    pub created_at: String,
    pub deleted_at: Option<String>,
    pub verticals: Vec<VerticalInfo>,
}

pub open spec fn vertical_view(v: VerticalInfo) -> (Seq<char>, Seq<char>, Seq<char>) {
    (v.id@, v.name@, v.slug@)
}

/// A stored publisher, its times already in RFC 3339 text.
pub struct PublisherRow {
    pub id: u128,
    pub name: String,
    pub email: String,
    pub status: String,
    pub api_key_prefix: String,
    pub hmac_required: bool,
    pub created_at: String,
    pub deleted_at: Option<String>,
}

/// A vertical of a publisher, as the association query returns it.
pub struct VerticalRow {
    pub publisher_id: u128,
    pub id: u128,
    pub name: String,
    pub slug: String,
}

/// The verticals among the first `n` rows that belong to publisher `pid`,
/// in row order.
pub open spec fn rows_for(rows: Seq<VerticalRow>, pid: u128, n: nat) -> Seq<
    (Seq<char>, Seq<char>, Seq<char>),
>
    decreases n,
{
    if n == 0 {
        Seq::empty()
    } else {
        let rest = rows_for(rows, pid, (n - 1) as nat);
        let r = rows[n - 1];
        if r.publisher_id == pid {
            rest.push((uuid_text(r.id), r.name@, r.slug@))
        } else {
            rest
        }
    }
}

/// Whether a publisher with the same id comes earlier in the list.
pub open spec fn seen_before(pubs: Seq<PublisherRow>, i: int) -> bool {
    exists|j: int| 0 <= j < i && #[trigger] pubs[j].id == pubs[i].id
}

/// The verticals the listing shows for the `i`-th publisher: its rows, in
/// row order, the first time its id comes up; none after that.
pub open spec fn listed_verticals(pubs: Seq<PublisherRow>, rows: Seq<VerticalRow>, i: int) -> Seq<
    (Seq<char>, Seq<char>, Seq<char>),
> {
    if seen_before(pubs, i) {
        Seq::empty()
    } else {
        rows_for(rows, pubs[i].id, rows.len())
    }
}

fn verticals_of(rows: &Vec<VerticalRow>, pid: u128) -> (r: Vec<VerticalInfo>)
    ensures
        r@.map_values(|v: VerticalInfo| vertical_view(v)) == rows_for(rows@, pid, rows@.len()),
{
    let mut r: Vec<VerticalInfo> = Vec::new();
    let n = rows.len();
    assert(r@.map_values(|v: VerticalInfo| vertical_view(v)) =~= rows_for(rows@, pid, 0));
    for k in 0..n
        invariant
            n == rows@.len(),
            r@.map_values(|v: VerticalInfo| vertical_view(v)) == rows_for(rows@, pid, k as nat),
    {
        let row = &rows[k];
        if row.publisher_id == pid {
            let ghost before = r@;
            r.push(
                VerticalInfo {
                    id: uuid_to_string(row.id),
                    name: row.name.clone(),
                    slug: row.slug.clone(),
                },
            );
            assert(r@.map_values(|v: VerticalInfo| vertical_view(v)) =~= before.map_values(
                |v: VerticalInfo| vertical_view(v),
            ).push((uuid_text(row.id), row.name@, row.slug@)));
        }
    }
    r
}

/// The publisher listing: one entry per publisher, in the given order,
/// each with its verticals (see `listed_verticals`).
pub fn publisher_listing(pubs: &Vec<PublisherRow>, rows: &Vec<VerticalRow>) -> (r: Vec<
    PublisherResponse,
>)
    ensures
        r@.len() == pubs@.len(),
        forall|i: int|
            0 <= i < r@.len() ==> {
                let e = #[trigger] r@[i];
                let p = pubs@[i];
                &&& e.id@ == uuid_text(p.id)
                &&& e.name@ == p.name@
                &&& e.email@ == p.email@
                &&& e.status@ == p.status@
                &&& e.api_key_prefix@ == p.api_key_prefix@
                &&& e.hmac_required == p.hmac_required
                &&& e.created_at@ == p.created_at@
                &&& opt_view(e.deleted_at) == opt_view(p.deleted_at)
                &&& e.verticals@.map_values(|v: VerticalInfo| vertical_view(v)) == listed_verticals(
                    pubs@,
                    rows@,
                    i,
                )
            },
{
    let mut r: Vec<PublisherResponse> = Vec::new();
    let n = pubs.len();
    for i in 0..n
        invariant
            n == pubs@.len(),
            r@.len() == i,
            forall|k: int|
                0 <= k < i ==> {
                    let e = #[trigger] r@[k];
                    let p = pubs@[k];
                    &&& e.id@ == uuid_text(p.id)
                    &&& e.name@ == p.name@
                    &&& e.email@ == p.email@
                    &&& e.status@ == p.status@
                    &&& e.api_key_prefix@ == p.api_key_prefix@
                    &&& e.hmac_required == p.hmac_required
                    &&& e.created_at@ == p.created_at@
                    &&& opt_view(e.deleted_at) == opt_view(p.deleted_at)
                    &&& e.verticals@.map_values(|v: VerticalInfo| vertical_view(v))
                        == listed_verticals(pubs@, rows@, k)
                },
    {
        let p = &pubs[i];
        let mut seen = false;
        let mut j: usize = 0;
        while j < i
            invariant
                j <= i,
                i < n,
                n == pubs@.len(),
                p.id == pubs@[i as int].id,
                seen == exists|m: int| 0 <= m < j && #[trigger] pubs@[m].id == pubs@[i as int].id,
            decreases i - j,
        {
            if pubs[j].id == p.id {
                seen = true;
                assert(pubs@[j as int].id == pubs@[i as int].id);
            }
            j = j + 1;
        }
        let verticals = if seen {
            Vec::new()
        } else {
            verticals_of(rows, p.id)
        };
        proof {
            if seen {
                assert(verticals@.map_values(|v: VerticalInfo| vertical_view(v)) =~= Seq::<
                    (Seq<char>, Seq<char>, Seq<char>),
                >::empty());
            }
        }
        let deleted_at = match &p.deleted_at {
            Some(d) => Some(d.clone()),
            None => None,
        };
        r.push(
            PublisherResponse {
                id: uuid_to_string(p.id),
                name: p.name.clone(),
                email: p.email.clone(),
                status: p.status.clone(),
                api_key_prefix: p.api_key_prefix.clone(),
                hmac_required: p.hmac_required,
                created_at: p.created_at.clone(),
                deleted_at,
                verticals,
            },
        );
    }
    r
}

/// A new API key and the hash stored in its place.
pub struct ApiKeyMaterial {
    pub api_key: String,
    pub api_key_hash: String,
}

/// The UTF-8 bytes of a text.
pub open spec fn utf8(s: Seq<char>) -> Seq<u8> {
    vstd::utf8::encode_utf8(s)
}

/// The API key made from `bytes`: `pk_live_` and their hex digits; its
/// hash is the hex SHA-256 of the key's text.
pub fn api_key_from_bytes(bytes: &[u8]) -> (r: ApiKeyMaterial)
    ensures
        r.api_key@ == "pk_live_"@ + hex_lower(bytes@),
        r.api_key_hash@ == hex_lower(sha256(utf8(r.api_key@))),
{
    let key = concat2("pk_live_", hex_encode(bytes).as_str());
    let hash = hex_encode(sha256_digest(key.as_str().as_bytes()).as_slice());
    ApiKeyMaterial { api_key: key, api_key_hash: hash }
}

/// A new API key made from 32 random bytes (see `api_key_from_bytes`).
pub fn new_api_key() -> (r: ApiKeyMaterial)
    ensures
        exists|b: Seq<u8>|
            b.len() == 32 && r.api_key@ == "pk_live_"@ + hex_lower(b) && r.api_key_hash@
                == hex_lower(sha256(utf8(r.api_key@))),
{
    let bytes = random_bytes(32);
    api_key_from_bytes(bytes.as_slice())
}

/// A new HMAC secret, the hash stored for it and the prefix shown of it.
pub struct HmacSecretMaterial {
    pub secret: String,
    pub secret_hash: String,
    pub secret_prefix: String,
}

/// The HMAC secret made from `bytes`: their hex digits; its hash is the
/// hex SHA-256 of that text and its prefix the first 20 characters.
pub fn hmac_secret_from_bytes(bytes: &[u8]) -> (r: HmacSecretMaterial)
    requires
        bytes@.len() >= 10,
    ensures
        r.secret@ == hex_lower(bytes@),
        r.secret_hash@ == hex_lower(sha256(utf8(r.secret@))),
        r.secret_prefix@ == r.secret@.take(20),
{
    let secret = hex_encode(bytes);
    let hash = hex_encode(sha256_digest(secret.as_str().as_bytes()).as_slice());
    let cs = chars_of(secret.as_str());
    proof {
        crate::codec::lemma_hex_lower_len(bytes@);
    }
    let mut prefix: Vec<char> = Vec::new();
    for i in 0..20
        invariant
            cs@ == secret@,
            cs@.len() >= 20,
            prefix@ == cs@.take(i as int),
    {
        prefix.push(cs[i]);
        assert(cs@.take(i + 1) == cs@.take(i as int).push(cs@[i as int]));
    }
    HmacSecretMaterial {
        secret,
        secret_hash: hash,
        secret_prefix: crate::text::string_of(prefix.as_slice()),
    }
}

/// A new HMAC secret made from 64 random bytes (see
/// `hmac_secret_from_bytes`).
pub fn new_hmac_secret() -> (r: HmacSecretMaterial)
    ensures
        exists|b: Seq<u8>|
            b.len() == 64 && r.secret@ == hex_lower(b) && r.secret_hash@ == hex_lower(
                sha256(utf8(r.secret@)),
            ) && r.secret_prefix@ == r.secret@.take(20),
{
    let bytes = random_bytes(64);
    hmac_secret_from_bytes(bytes.as_slice())
}

/// Why the insert of a new publisher failed, as the database says it.
pub enum PublisherInsertFailure {
    /// An active publisher has that email.
    DuplicateEmail,
    /// The new key's hash collides with a stored one.
    KeyCollision,
    /// Anything else: 500.
    Other,
}

/// Classifies a failed insert by the database's message.
pub fn classify_publisher_insert_error(error_text: &str) -> (r: PublisherInsertFailure)
    ensures
        r is DuplicateEmail <==> (contains_seq(error_text@, "duplicate key"@) && (contains_seq(
            error_text@,
            "publishers_email_key"@,
        ) || contains_seq(error_text@, "publishers_email_unique_not_deleted"@))),
        r is KeyCollision <==> (contains_seq(error_text@, "duplicate key"@) && !(contains_seq(
            error_text@,
            "publishers_email_key"@,
        ) || contains_seq(error_text@, "publishers_email_unique_not_deleted"@)) && contains_seq(
            error_text@,
            "publishers_api_key_hash"@,
        )),
{
    let e = chars_of(error_text);
    if contains(&e, &chars_of("duplicate key")) {
        if contains(&e, &chars_of("publishers_email_key")) || contains(
            &e,
            &chars_of("publishers_email_unique_not_deleted"),
        ) {
            return PublisherInsertFailure::DuplicateEmail;
        } else if contains(&e, &chars_of("publishers_api_key_hash")) {
            return PublisherInsertFailure::KeyCollision;
        }
    }
    PublisherInsertFailure::Other
}

/// The answer to a new publisher whose email an active publisher has.
pub fn duplicate_email_message(email: &str) -> (r: String)
    ensures
        r@ == "A publisher with the email '"@ + email@
            + "' already exists. Please use a different email address."@,
{
    concat3("A publisher with the email '", email, "' already exists. Please use a different email address.")
}

/// What a request for a publisher's stored API key comes to.
pub enum ApiKeyAccess {
    /// The user is not an admin of the publisher's instance: 403.
    Forbidden,
    /// No encrypted key is stored: the key must be regenerated.
    NeedsRegeneration,
    /// Decrypt this stored text.
    Decrypt(String),
}

/// Decides a request for a publisher's API key from whether the user is
/// an admin of its instance and what encrypted key is stored.
pub fn api_key_access(is_admin: bool, encrypted: &Option<String>) -> (r: ApiKeyAccess)
    ensures
        !is_admin ==> r is Forbidden,
        is_admin ==> match opt_view(*encrypted) {
            Some(e) if e.len() > 0 => r matches ApiKeyAccess::Decrypt(d) && d@ == e,
            _ => r is NeedsRegeneration,
        },
{
    if !is_admin {
        return ApiKeyAccess::Forbidden;
    }
    match encrypted {
        Some(e) => if !e.as_str().is_empty() {
            ApiKeyAccess::Decrypt(e.clone())
        } else {
            ApiKeyAccess::NeedsRegeneration
        },
        None => ApiKeyAccess::NeedsRegeneration,
    }
}

} // verus!
