//! Ping trees: the strategies a new tree may have, and what an update
//! writes and records.

use vstd::prelude::*;
use crate::audit::{changes_view, record_change, FieldChange, FieldValue, Scalar};
use crate::sql::{bound, lemma_bound_concat, Bound, Piece, QueryText, SqlValue};
use crate::text::{opt_view, str_eq};

verus! {

broadcast use vstd::string::group_string_axioms;

/// Whether a new ping tree's strategy is one of the two a tree may have.
pub fn valid_strategy(strategy: &str) -> (r: bool)
    ensures
        r == (strategy@ == "ping_post"@ || strategy@ == "fullpost"@),
{
    str_eq(strategy, "ping_post") || str_eq(strategy, "fullpost")
}

/// A stored ping tree: the fields an update can change.
pub struct PingTreeRecord {
    pub name: String,
    pub priority: Option<i32>,
    pub status: String,
}

/// The members of an update request an update reads.
pub struct PingTreeUpdate {
    pub name: Option<String>,
    /// An integer `priority` member.
    pub priority: Option<i64>,
    pub status: Option<String>,
}

/// What an update comes to.
pub enum PingTreeUpdatePlan {
    NotFound,
    /// Nothing given: answered "No changes to update".
    NothingToWrite,
    Write { query: QueryText, changes: Vec<FieldChange> },
}

/// The priority written for a requested one: its low 32 bits, as `as i32`
/// keeps them.
pub open spec fn priority_written(p: i64) -> i32 {
    p as i32
}

/// The statement an update runs. Its pieces are the ones the handler has
/// always written: a status after other fields is preceded by an extra
/// `, `, and no `, ` follows the status, so such statements are not
/// valid SQL.
pub open spec fn update_pieces(id: u128, u: PingTreeUpdate) -> Seq<Piece> {
    let name_part = match u.name {
        Some(n) => seq![Piece::Text("name = "@), Piece::Bind(Bound::Text(n@)), Piece::Text(", "@)],
        None => Seq::empty(),
    };
    let priority_part = match u.priority {
        Some(p) => seq![
            Piece::Text("priority = "@),
            Piece::Bind(Bound::Int(priority_written(p))),
            Piece::Text(", "@),
        ],
        None => Seq::empty(),
    };
    let status_part = match u.status {
        Some(s) => (if u.name is Some || u.priority is Some {
            seq![Piece::Text(", "@)]
        } else {
            Seq::empty()
        }) + seq![Piece::Text("status = "@), Piece::Bind(Bound::Text(s@))],
        None => Seq::empty(),
    };
    seq![Piece::Text("UPDATE ping_trees SET "@)] + name_part + priority_part + status_part + seq![
        Piece::Text("updated_at = NOW() WHERE id = "@),
        Piece::Bind(Bound::Uuid(id)),
        Piece::Text(" AND deleted_at IS NULL"@),
    ]
}

pub open spec fn opt_int(o: Option<i32>) -> Scalar {
    match o {
        Some(i) => Scalar::Int(i as int),
        None => Scalar::Null,
    }
}

/// The changes an update records: each given field whose new value
/// differs from the stored one.
pub open spec fn update_changes(b: PingTreeRecord, u: PingTreeUpdate) -> Seq<(Seq<char>, Scalar, Scalar)> {
    (match u.name {
        Some(n) => if b.name@ != n@ {
            seq![("name"@, Scalar::Text(b.name@), Scalar::Text(n@))]
        } else {
            Seq::empty()
        },
        None => Seq::empty(),
    }) + (match u.priority {
        Some(p) => if b.priority != Some(priority_written(p)) {
            seq![("priority"@, opt_int(b.priority), Scalar::Int(priority_written(p) as int))]
        } else {
            Seq::empty()
        },
        None => Seq::empty(),
    }) + (match u.status {
        Some(s) => if b.status@ != s@ {
            seq![("status"@, Scalar::Text(b.status@), Scalar::Text(s@))]
        } else {
            Seq::empty()
        },
        None => Seq::empty(),
    })
}

/// What an update of ping tree `id` writes and records.
pub fn plan_ping_tree_update(id: u128, before: Option<&PingTreeRecord>, u: &PingTreeUpdate) -> (r:
    PingTreeUpdatePlan)
    ensures
        match before {
            None => r is NotFound,
            Some(b) => if u.name is None && u.priority is None && u.status is None {
                r is NothingToWrite
            } else {
                r matches PingTreeUpdatePlan::Write { query, changes } && query.holds(
                    update_pieces(id, *u),
                ) && changes_view(changes@) == update_changes(*b, *u)
            },
        },
{
    let b = match before {
        Some(b) => b,
        None => return PingTreeUpdatePlan::NotFound,
    };
    if u.name.is_none() && u.priority.is_none() && u.status.is_none() {
        return PingTreeUpdatePlan::NothingToWrite;
    }
    let mut q = QueryText::start("UPDATE ping_trees SET ");
    let ghost mut p = seq![Piece::Text("UPDATE ping_trees SET "@)];
    let mut changes: Vec<FieldChange> = Vec::new();
    let ghost c0 = Seq::<(Seq<char>, Scalar, Scalar)>::empty();
    assert(changes_view(changes@) =~= c0);
    match &u.name {
        Some(n) => {
            if !str_eq(b.name.as_str(), n.as_str()) {
                record_change(
                    &mut changes,
                    "name",
                    FieldValue::Text(b.name.clone()),
                    FieldValue::Text(n.clone()),
                );
            }
            q.push(Ghost(p), "name = ");
            q.push_bind(Ghost(p.push(Piece::Text("name = "@))), SqlValue::Text(n.clone()));
            q.push(
                Ghost(p.push(Piece::Text("name = "@)).push(Piece::Bind(Bound::Text(n@)))),
                ", ",
            );
            proof {
                p = p.push(Piece::Text("name = "@)).push(Piece::Bind(Bound::Text(n@))).push(
                    Piece::Text(", "@),
                );
            }
        },
        None => {},
    }
    let ghost c1 = changes_view(changes@);
    match u.priority {
        Some(pr) => {
            #[verifier::truncate]
            let p32 = pr as i32;
            if b.priority != Some(p32) {
                let bv = match b.priority {
                    Some(x) => FieldValue::Int(x as i64),
                    None => FieldValue::Null,
                };
                record_change(&mut changes, "priority", bv, FieldValue::Int(p32 as i64));
            }
            q.push(Ghost(p), "priority = ");
            q.push_bind(Ghost(p.push(Piece::Text("priority = "@))), SqlValue::Int(p32));
            q.push(Ghost(p.push(Piece::Text("priority = "@)).push(Piece::Bind(Bound::Int(p32)))), ", ");
            proof {
                p = p.push(Piece::Text("priority = "@)).push(Piece::Bind(Bound::Int(p32))).push(
                    Piece::Text(", "@),
                );
            }
        },
        None => {},
    }
    match &u.status {
        Some(s) => {
            if !str_eq(b.status.as_str(), s.as_str()) {
                record_change(
                    &mut changes,
                    "status",
                    FieldValue::Text(b.status.clone()),
                    FieldValue::Text(s.clone()),
                );
            }
            if u.name.is_some() || u.priority.is_some() {
                q.push(Ghost(p), ", ");
                proof {
                    p = p.push(Piece::Text(", "@));
                }
            }
            q.push(Ghost(p), "status = ");
            q.push_bind(Ghost(p.push(Piece::Text("status = "@))), SqlValue::Text(s.clone()));
            proof {
                p = p.push(Piece::Text("status = "@)).push(Piece::Bind(Bound::Text(s@)));
            }
        },
        None => {},
    }
    q.push(Ghost(p), "updated_at = NOW() WHERE id = ");
    q.push_bind(Ghost(p.push(Piece::Text("updated_at = NOW() WHERE id = "@))), SqlValue::Uuid(id));
    q.push(
        Ghost(p.push(Piece::Text("updated_at = NOW() WHERE id = "@)).push(Piece::Bind(Bound::Uuid(id)))),
        " AND deleted_at IS NULL",
    );
    assert(update_pieces(id, *u) =~= p.push(Piece::Text("updated_at = NOW() WHERE id = "@)).push(
        Piece::Bind(Bound::Uuid(id)),
    ).push(Piece::Text(" AND deleted_at IS NULL"@)));
    assert(changes_view(changes@) =~= update_changes(*b, *u));
    PingTreeUpdatePlan::Write { query: q, changes }
}

/// Whether a campaign taken out of a ping tree is left in no other tree
/// (and so is set inactive): the count of its other memberships is zero
/// or could not be read.
pub fn left_in_no_tree(other_memberships: Option<i64>) -> (r: bool)
    ensures
        r == match other_memberships {
            Some(n) => n == 0,
            None => true,
        },
{
    match other_memberships {
        Some(n) => n == 0,
        None => true,
    }
}

} // verus!
