//! Everything that can happen in a journal.

use crate::authority::Authority;
use crate::ids::{AccountId, ActivityId, EntryId, FileId, FundId, JournalId, TransactionId, UserId};
use crate::journal::account::AccountType;
use crate::journal::activity::ActivityType;
use crate::journal::entry::{EntryKind, EntrySide};
use crate::journal::transaction::{FinancialPeriod, TransactionEntryIds};
use crate::name::Name;
use crate::permissions::Permissions;
use crate::store::Timestamp;
use vstd::prelude::*;

verus! {

/// An event of a journal, with the authority that caused it and when.
#[derive(Debug)]
pub enum JournalDomainEvent {
    JournalCreated {
        journal_id: JournalId,
        owner: UserId,
        name: Name,
        authority: Authority,
        timestamp: Timestamp,
    },
    JournalDeleted { journal_id: JournalId, authority: Authority, timestamp: Timestamp },
    MemberAdded {
        journal_id: JournalId,
        user_id: UserId,
        permissions: Permissions,
        authority: Authority,
        timestamp: Timestamp,
    },
    MemberPermissionsUpdated {
        journal_id: JournalId,
        user_id: UserId,
        permissions: Permissions,
        authority: Authority,
        timestamp: Timestamp,
    },
    MemberRemoved {
        journal_id: JournalId,
        user_id: UserId,
        authority: Authority,
        timestamp: Timestamp,
    },
    AccountCreated {
        account_id: AccountId,
        journal_id: JournalId,
        name: Name,
        account_type: AccountType,
        authority: Authority,
        timestamp: Timestamp,
    },
    AccountRenamed {
        account_id: AccountId,
        journal_id: JournalId,
        new_name: Name,
        authority: Authority,
        timestamp: Timestamp,
    },
    AccountDeleted {
        account_id: AccountId,
        journal_id: JournalId,
        authority: Authority,
        timestamp: Timestamp,
    },
    FundCreated {
        fund_id: FundId,
        journal_id: JournalId,
        fund_name: Name,
        authority: Authority,
        timestamp: Timestamp,
    },
    ActivityCreated {
        activity_id: ActivityId,
        journal_id: JournalId,
        activity_name: Name,
        activity_type: ActivityType,
        authority: Authority,
        timestamp: Timestamp,
    },
    EntryCreated {
        entry_id: EntryId,
        journal_id: JournalId,
        amount: u64,
        entry_side: EntrySide,
        entry_kind: EntryKind,
        authority: Authority,
        timestamp: Timestamp,
    },
    TransactionCreated {
        transaction_id: TransactionId,
        journal_id: JournalId,
        entries: TransactionEntryIds,
        financial_period: FinancialPeriod,
        authority: Authority,
        timestamp: Timestamp,
    },
    FileUploaded {
        file_id: FileId,
        journal_id: JournalId,
        hash: [u8; 16],
        file_name: String,
        authority: Authority,
        timestamp: Timestamp,
    },
}

} // verus!
