//! The access roles that verification grants and revokes.

use crate::fresher::Fresher;
use vstd::prelude::*;

verus! {

/// An access role of the chat server.
#[derive(Clone, Copy, Debug, PartialEq, Eq, Structural)]
pub enum Role {
    /// Held by every verified member.
    Member,
    /// Held by those who have not verified yet.
    NonMember,
    /// Held by members of an earlier year.
    OldMember,
    /// Held by postgraduate freshers.
    FresherPg,
    /// Held by undergraduate freshers.
    FresherUg,
}

/// The extra role that a fresher category brings, if any.
pub open spec fn spec_fresher_role(fresher: Fresher) -> Option<Role> {
    match fresher {
        Fresher::No => None,
        Fresher::YesPg => Some(Role::FresherPg),
        Fresher::YesUg => Some(Role::FresherUg),
    }
}

/// The extra role that a fresher category brings, if any.
pub fn fresher_role(fresher: Fresher) -> (role: Option<Role>)
    ensures
        role == spec_fresher_role(fresher),
{
    match fresher {
        Fresher::No => None,
        Fresher::YesPg => Some(Role::FresherPg),
        Fresher::YesUg => Some(Role::FresherUg),
    }
}

} // verus!
