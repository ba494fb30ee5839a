//! Lifecycle status of an entity, as folded from its events.

use vstd::prelude::*;

verus! {

/// Whether an entity was never created, exists, or was deleted.
#[derive(Clone, Copy, PartialEq, Eq, Structural, Debug, Hash)]
pub enum Status {
    /// No creation event was seen.
    Missing,
    /// The entity exists.
    Valid,
    /// The entity was deleted.
    Deleted,
}

impl Status {
    /// Some creation event was seen (the entity exists or existed).
    pub fn found(&self) -> (r: bool)
        ensures
            r == (*self != Status::Missing),
    {
        !matches!(self, Status::Missing)
    }

    /// The entity exists.
    pub fn valid(&self) -> (r: bool)
        ensures
            r == (*self == Status::Valid),
    {
        matches!(self, Status::Valid)
    }
}

impl Default for Status {
    fn default() -> (s: Status)
        ensures
            s == Status::Missing,
    {
        Status::Missing
    }
}

} // verus!
