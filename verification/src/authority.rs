//! Who performs an action.

use crate::ids::UserId;
use crate::idmap::IdKey;
use vstd::prelude::*;

verus! {

/// The party on whose behalf something happens.
#[derive(Clone, Copy, PartialEq, Eq, Structural, Debug, Hash)]
pub enum Actor {
    /// The service itself.
    System,
    /// Nobody in particular.
    Anonymous,
    /// A signed-in user.
    User(UserId),
}

/// The authority under which an action is taken.
#[derive(Clone, Copy, PartialEq, Eq, Structural, Debug, Hash)]
pub enum Authority {
    /// The actor acts for itself.
    Direct(Actor),
}

impl Authority {
    pub open spec fn spec_actor(&self) -> Actor {
        match self {
            Authority::Direct(a) => *a,
        }
    }

    pub open spec fn spec_user_id(&self) -> Option<UserId> {
        match self.spec_actor() {
            Actor::User(u) => Some(u),
            _ => None,
        }
    }

    /// The acting party.
    pub fn actor(&self) -> (a: Actor)
        ensures
            a == self.spec_actor(),
    {
        match self {
            Authority::Direct(a) => *a,
        }
    }

    /// The user behind the authority, if it is a user.
    pub fn user_id(&self) -> (u: Option<UserId>)
        ensures
            u == self.spec_user_id(),
    {
        match self.actor() {
            Actor::User(u) => Some(u),
            _ => None,
        }
    }
}

impl IdKey for Actor {
    fn same(&self, other: &Self) -> (r: bool) {
        *self == *other
    }
}

} // verus!
