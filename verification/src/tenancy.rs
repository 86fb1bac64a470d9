//! Which instance a new record belongs to. Records are never shared across
//! instances: a record is created in an instance its user owns.

use vstd::prelude::*;

verus! {

/// The instance a new record goes to, or why there is none.
#[derive(PartialEq, Eq, Structural)]
pub enum InstanceChoice {
    /// Create the record in this instance.
    Use(u128),
    /// The request names no instance and the user owns none: 400.
    NoInstance,
    /// The request names an instance the user does not own: 403.
    NotOwned,
}

/// The instance of a new record. `requested` is the instance the request
/// names, `owns_requested` whether the user owns it, and `own` the instance
/// the user owns. A named instance is used only when the user owns it;
/// without one, the user's own instance is used.
pub open spec fn instance_for(requested: Option<u128>, owns_requested: bool, own: Option<u128>) -> InstanceChoice {
    match requested {
        Some(i) => if owns_requested {
            InstanceChoice::Use(i)
        } else {
            InstanceChoice::NotOwned
        },
        None => match own {
            Some(o) => InstanceChoice::Use(o),
            None => InstanceChoice::NoInstance,
        },
    }
}

/// Chooses the instance of a new record (see `instance_for`).
pub fn choose_instance(requested: Option<u128>, owns_requested: bool, own: Option<u128>) -> (r:
    InstanceChoice)
    ensures
        r == instance_for(requested, owns_requested, own),
{
    match requested {
        Some(i) => if owns_requested {
            InstanceChoice::Use(i)
        } else {
            InstanceChoice::NotOwned
        },
        None => match own {
            Some(o) => InstanceChoice::Use(o),
            None => InstanceChoice::NoInstance,
        },
    }
}

/// A record is only ever placed in an instance the user owns: the one the
/// request named and the user owns, or the user's own.
pub proof fn law_record_stays_in_own_instance(
    requested: Option<u128>,
    owns_requested: bool,
    own: Option<u128>,
    i: u128,
)
    requires
        instance_for(requested, owns_requested, own) == InstanceChoice::Use(i),
    ensures
        (requested == Some(i) && owns_requested) || (requested is None && own == Some(i)),
{
}

} // verus!
