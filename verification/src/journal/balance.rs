//! Transactions kept as lists of balance changes, and the events that record them.

use crate::ident::Ident;
use crate::store::Timestamp;
use vstd::prelude::*;

verus! {

/// A change to the balance of an account.
#[derive(Clone, Debug, PartialEq, Eq)]
pub struct BalanceUpdate {
    pub account_id: Ident,
    pub changed_by: i64,
}

/// What can happen to a transaction kept as balance changes.
#[derive(Clone, Debug)]
pub enum TransactionEvent {
    Created {
        id: Ident,
        author: Ident,
        description: String,
        updates: Vec<BalanceUpdate>,
        created_at: Timestamp,
    },
    UpdatedDescription { new_desc: String },
    UpdatedBalancedUpdates { new_balanceupdates: Vec<BalanceUpdate> },
}

/// The kind of a transaction event, stored as a small number.
#[derive(Clone, Copy, PartialEq, Eq, Structural, Debug)]
pub enum TransactionEventType {
    Created,
    UpdatedDescription,
    UpdatedBalanceUpdates,
}

impl TransactionEventType {
    /// The stored number: 1, 2 and 3 in the order of the variants.
    pub fn code(&self) -> (c: i16)
        ensures
            *self == TransactionEventType::Created ==> c == 1,
            *self == TransactionEventType::UpdatedDescription ==> c == 2,
            *self == TransactionEventType::UpdatedBalanceUpdates ==> c == 3,
    {
        match self {
            TransactionEventType::Created => 1,
            TransactionEventType::UpdatedDescription => 2,
            TransactionEventType::UpdatedBalanceUpdates => 3,
        }
    }
}

impl TransactionEvent {
    /// The kind of the event.
    pub fn get_type(&self) -> (t: TransactionEventType)
        ensures
            self is Created ==> t == TransactionEventType::Created,
            self is UpdatedDescription ==> t == TransactionEventType::UpdatedDescription,
            self is UpdatedBalancedUpdates ==> t == TransactionEventType::UpdatedBalanceUpdates,
    {
        match self {
            TransactionEvent::Created { .. } => TransactionEventType::Created,
            TransactionEvent::UpdatedBalancedUpdates { .. } => TransactionEventType::UpdatedBalanceUpdates,
            TransactionEvent::UpdatedDescription { .. } => TransactionEventType::UpdatedDescription,
        }
    }
}

} // verus!
