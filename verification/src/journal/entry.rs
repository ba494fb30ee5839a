//! The two sides of a double-entry record, and what an entry is booked against.

use crate::ids::{AccountId, ActivityId, FundId};
use vstd::prelude::*;

verus! {

/// Debit or credit.
#[derive(Clone, Copy, PartialEq, Eq, Structural, Debug, Hash)]
pub enum EntrySide {
    Debit,
    Credit,
}

/// A stored entry side that is neither 1 (debit) nor 2 (credit).
#[derive(Debug, Clone, PartialEq, Eq)]
pub struct EntrySideFromIntError(pub i8);

impl EntrySide {
    /// The stored number of the side: 1 for a debit, 2 for a credit.
    pub open spec fn spec_code(&self) -> i8 {
        match self {
            EntrySide::Debit => 1,
            EntrySide::Credit => 2,
        }
    }

    /// The stored number of the side.
    pub fn code(&self) -> (c: i8)
        ensures
            c == self.spec_code(),
    {
        match self {
            EntrySide::Debit => 1,
            EntrySide::Credit => 2,
        }
    }

    /// The side with this stored number.
    pub fn try_from(value: i8) -> (r: Result<EntrySide, EntrySideFromIntError>)
        ensures
            value == 1 <==> r == Ok::<EntrySide, EntrySideFromIntError>(EntrySide::Debit),
            value == 2 <==> r == Ok::<EntrySide, EntrySideFromIntError>(EntrySide::Credit),
            value != 1 && value != 2 <==> r == Err::<EntrySide, EntrySideFromIntError>(
                EntrySideFromIntError(value),
            ),
    {
        if value == 1 {
            Ok(EntrySide::Debit)
        } else if value == 2 {
            Ok(EntrySide::Credit)
        } else {
            Err(EntrySideFromIntError(value))
        }
    }

    /// The usual abbreviation: `Dr` or `Cr`.
    pub fn label(&self) -> (s: &'static str)
        ensures
            *self == EntrySide::Debit ==> s@ == "Dr"@,
            *self == EntrySide::Credit ==> s@ == "Cr"@,
    {
        match self {
            EntrySide::Debit => "Dr",
            EntrySide::Credit => "Cr",
        }
    }
}

impl Default for EntrySide {
    fn default() -> (s: EntrySide)
        ensures
            s == EntrySide::Debit,
    {
        EntrySide::Debit
    }
}

/// What an entry is booked against: an account, or an activity within a fund (possibly as
/// part of a transfer between activities).
#[derive(Clone, Copy, PartialEq, Eq, Structural, Debug, Hash)]
pub enum EntryKind {
    Account { account_id: AccountId },
    Activity { activity_id: ActivityId, fund_id: FundId, transfer: bool },
}

impl Default for EntryKind {
    fn default() -> (k: EntryKind)
        ensures
            k matches EntryKind::Account { account_id } && account_id.0
                == crate::ident::Ident::spec_nil(),
    {
        EntryKind::Account { account_id: AccountId::nil() }
    }
}

} // verus!
