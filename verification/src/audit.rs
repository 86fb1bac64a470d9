//! Pieces shared by the dashboard's audit trail: field changes, actor and
//! user names, and the client context taken from request headers.

use vstd::prelude::*;
use crate::text::{
    append_chars, chars_of, find_char, first_index_of, is_ws, str_eq, string_of, trim, trim_chars,
};

verus! {

broadcast use vstd::string::group_string_axioms;

/// A field's value as it is shown in an audit entry.
pub enum FieldValue {
    Null,
    Text(String),
    Flag(bool),
    Int(i64),
}

/// A field's value as a mathematical value.
pub enum Scalar {
    Null,
    Text(Seq<char>),
    Flag(bool),
    Int(int),
}

pub open spec fn scalar(v: FieldValue) -> Scalar {
    match v {
        FieldValue::Null => Scalar::Null,
        FieldValue::Text(s) => Scalar::Text(s@),
        FieldValue::Flag(b) => Scalar::Flag(b),
        FieldValue::Int(i) => Scalar::Int(i as int),
    }
}

/// A text field that may be absent: absent is shown as null.
pub open spec fn opt_scalar(o: Option<Seq<char>>) -> Scalar {
    match o {
        Some(s) => Scalar::Text(s),
        None => Scalar::Null,
    }
}

pub open spec fn opt_text(o: Option<&str>) -> Option<Seq<char>> {
    match o {
        Some(s) => Some(s@),
        None => None,
    }
}

/// The value shown for an optional text.
pub fn opt_value(o: Option<&str>) -> (r: FieldValue)
    ensures
        scalar(r) == opt_scalar(opt_text(o)),
{
    match o {
        Some(s) => FieldValue::Text(String::from_str(s)),
        None => FieldValue::Null,
    }
}

/// Whether two shown values are the same value.
pub fn same_value(a: &FieldValue, b: &FieldValue) -> (r: bool)
    ensures
        r == (scalar(*a) == scalar(*b)),
{
    match (a, b) {
        (FieldValue::Null, FieldValue::Null) => true,
        (FieldValue::Text(x), FieldValue::Text(y)) => str_eq(x.as_str(), y.as_str()),
        (FieldValue::Flag(x), FieldValue::Flag(y)) => *x == *y,
        (FieldValue::Int(x), FieldValue::Int(y)) => *x == *y,
        _ => false,
    }
}

/// A changed field: its name, and its value before and after.
pub struct FieldChange {
    pub field: String,
    pub before: FieldValue,
    pub after: FieldValue,
}

pub open spec fn change_view(c: FieldChange) -> (Seq<char>, Scalar, Scalar) {
    (c.field@, scalar(c.before), scalar(c.after))
}

pub open spec fn changes_view(v: Seq<FieldChange>) -> Seq<(Seq<char>, Scalar, Scalar)> {
    v.map_values(|c: FieldChange| change_view(c))
}

/// Appends the change of `field` from `before` to `after`.
pub fn record_change(changes: &mut Vec<FieldChange>, field: &str, before: FieldValue, after: FieldValue)
    ensures
        changes_view(final(changes)@) == changes_view(old(changes)@).push(
            (field@, scalar(before), scalar(after)),
        ),
{
    let ghost old_v = changes@;
    let ghost entry = (field@, scalar(before), scalar(after));
    changes.push(FieldChange { field: String::from_str(field), before, after });
    assert(changes_view(changes@) =~= changes_view(old_v).push(entry));
}

/// Whether `changes` records a change of `field`.
pub open spec fn has_change(changes: Seq<(Seq<char>, Scalar, Scalar)>, field: Seq<char>) -> bool {
    exists|i: int| 0 <= i < changes.len() && changes[i].0 == field
}

/// Whether `changes` records a change of `field`.
pub fn changed(changes: &Vec<FieldChange>, field: &str) -> (r: bool)
    ensures
        r == has_change(changes_view(changes@), field@),
{
    let n = changes.len();
    for i in 0..n
        invariant
            n == changes@.len(),
            forall|j: int| 0 <= j < i ==> changes_view(changes@)[j].0 != field@,
    {
        if str_eq(changes[i].field.as_str(), field) {
            assert(changes_view(changes@)[i as int].0 == field@);
            return true;
        }
    }
    false
}

/// "first last" with surrounding whitespace trimmed.
pub open spec fn full_name(first: Seq<char>, last: Seq<char>) -> Seq<char> {
    trim(first + " "@ + last)
}

/// "first last" (absent parts empty) with surrounding whitespace trimmed.
pub fn full_name_of(first: Option<&str>, last: Option<&str>) -> (r: String)
    ensures
        r@ == full_name(
            match first {
                Some(f) => f@,
                None => Seq::empty(),
            },
            match last {
                Some(l) => l@,
                None => Seq::empty(),
            },
        ),
{
    let mut v: Vec<char> = Vec::new();
    match first {
        Some(f) => append_chars(&mut v, &chars_of(f)),
        None => {},
    }
    append_chars(&mut v, &chars_of(" "));
    match last {
        Some(l) => append_chars(&mut v, &chars_of(l)),
        None => {},
    }
    string_of(&trim_chars(&v))
}

/// The actor named in an audit entry: the user's trimmed full name, or the
/// email when that name is empty.
pub fn actor_name(first: Option<&str>, last: Option<&str>, email: &str) -> (r: String)
    ensures
        ({
            let n = full_name(
                match first {
                    Some(f) => f@,
                    None => Seq::empty(),
                },
                match last {
                    Some(l) => l@,
                    None => Seq::empty(),
                },
            );
            r@ == if n.len() == 0 {
                email@
            } else {
                n
            }
        }),
{
    let n = full_name_of(first, last);
    if n.as_str().unicode_len() == 0 {
        String::from_str(email)
    } else {
        n
    }
}

/// The user shown for an audit entry: the trimmed full name when both
/// name parts are known and not both empty, else the email, else
/// "Unknown".
pub fn audit_user_name(first: Option<&str>, last: Option<&str>, email: Option<&str>) -> (r: String)
    ensures
        r@ == match (first, last) {
            (Some(f), Some(l)) if f@.len() > 0 || l@.len() > 0 => full_name(f@, l@),
            _ => match email {
                Some(e) => e@,
                None => "Unknown"@,
            },
        },
{
    match (first, last) {
        (Some(f), Some(l)) => {
            if f.unicode_len() > 0 || l.unicode_len() > 0 {
                return full_name_of(Some(f), Some(l));
            }
        },
        _ => {},
    }
    match email {
        Some(e) => String::from_str(e),
        None => String::from_str("Unknown"),
    }
}

/// The part of a forwarded-for header before its first comma, trimmed.
pub open spec fn first_forwarded(h: Seq<char>) -> Seq<char> {
    match first_index_of(h, ',') {
        Some(i) => trim(h.subrange(0, i)),
        None => trim(h),
    }
}

/// The client address of a request: the first entry of
/// `X-Forwarded-For`, else of `X-Real-IP`, trimmed.
pub fn client_ip(forwarded_for: Option<&str>, real_ip: Option<&str>) -> (r: Option<String>)
    ensures
        match (forwarded_for, real_ip) {
            (Some(h), _) => r matches Some(s) && s@ == first_forwarded(h@),
            (None, Some(h)) => r matches Some(s) && s@ == first_forwarded(h@),
            (None, None) => r is None,
        },
{
    let h = match forwarded_for {
        Some(h) => h,
        None => match real_ip {
            Some(h) => h,
            None => return None,
        },
    };
    let cs = chars_of(h);
    let part = match find_char(&cs, ',') {
        Some(i) => {
            assert(first_index_of(h@, ',') == Some(i as int));
            let mut p: Vec<char> = Vec::new();
            let mut j: usize = 0;
            while j < i
                invariant
                    j <= i,
                    i < cs@.len(),
                    p@ == cs@.subrange(0, j as int),
                decreases i - j,
            {
                p.push(cs[j]);
                assert(cs@.subrange(0, j + 1) == cs@.subrange(0, j as int).push(cs@[j as int]));
                j = j + 1;
            }
            assert(p@ == h@.subrange(0, i as int));
            assert(trim(p@) == first_forwarded(h@));
            p
        },
        None => {
            assert(first_index_of(h@, ',') is None);
            assert(trim(cs@) == first_forwarded(h@));
            cs
        },
    };
    assert(trim(part@) == first_forwarded(h@));
    Some(string_of(&trim_chars(&part)))
}

/// The request id of an audit entry: `X-Request-ID`, else
/// `X-Correlation-ID`, else the fallback (a fresh UUID text).
pub fn request_id(request_header: Option<&str>, correlation_id: Option<&str>, fallback: String) -> (r: String)
    ensures
        r@ == match (request_header, correlation_id) {
            (Some(h), _) => h@,
            (None, Some(h)) => h@,
            (None, None) => fallback@,
        },
{
    match request_header {
        Some(h) => String::from_str(h),
        None => match correlation_id {
            Some(h) => String::from_str(h),
            None => fallback,
        },
    }
}

} // verus!
