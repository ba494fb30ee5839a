//! The read model of journals: the rows that each journal event inserts, updates or
//! deletes, and the balances that its entries move. Applying the changes to a database is
//! left to the caller; this module decides what they are.

use crate::ids::{AccountId, ActivityId, EntryId, FileId, FundId, JournalId, TransactionId, UserId};
use crate::journal::account::AccountType;
use crate::journal::activity::ActivityType;
use crate::journal::entry::{EntryKind, EntrySide};
use crate::journal::event::JournalDomainEvent;
use crate::journal::transaction::{
    TransactionEntry,
    TransactionEntryIds,
    entry_change,
    overall_sum,
    wrapped_amount,
};
use crate::name::Name;
use crate::permissions::Permissions;
use vstd::prelude::*;

verus! {

/// One change to the read model.
#[derive(Debug)]
pub enum ProjectionChange {
    /// Adds the journal unless it is already there.
    InsertJournal { journal_id: JournalId, owner: UserId, name: Name },
    /// Removes the journal.
    DeleteJournal { journal_id: JournalId },
    /// Adds the membership unless it is already there.
    InsertMember { user_id: UserId, journal_id: JournalId, permissions: Permissions },
    /// Sets the permissions of the membership of this user in this journal (the row is
    /// found by both identifiers, each bound to its own column; a writer that swapped
    /// them would match no row and leave the permissions unchanged).
    UpdateMemberPermissions { user_id: UserId, journal_id: JournalId, permissions: Permissions },
    /// Removes the membership.
    DeleteMember { user_id: UserId, journal_id: JournalId },
    /// Adds the account with a zero balance unless it is already there.
    InsertAccount {
        account_id: AccountId,
        journal_id: JournalId,
        name: Name,
        account_type: AccountType,
    },
    /// Renames the account.
    RenameAccount { account_id: AccountId, journal_id: JournalId, new_name: Name },
    /// Removes the account.
    DeleteAccount { account_id: AccountId, journal_id: JournalId },
    /// Adds the transaction unless it is already there.
    InsertTransaction {
        transaction_id: TransactionId,
        journal_id: JournalId,
        entries: TransactionEntryIds,
    },
    /// Adds the file unless it is already there.
    InsertFile { file_id: FileId, journal_id: JournalId, hash: [u8; 16], name: String },
    /// Adds the fund with a zero balance unless it is already there.
    InsertFund { fund_id: FundId, journal_id: JournalId, name: Name },
    /// Adds the activity with a zero balance unless it is already there.
    InsertActivity {
        activity_id: ActivityId,
        journal_id: JournalId,
        name: Name,
        activity_type: ActivityType,
    },
    /// Adds the entry unless it is already there; the amount is stored as a signed number.
    InsertEntry {
        entry_id: EntryId,
        journal_id: JournalId,
        amount: i64,
        entry_side: EntrySide,
        entry_kind: EntryKind,
    },
    /// Adds `diff` to the balance of the account.
    AdjustAccountBalance { account_id: AccountId, journal_id: JournalId, diff: i64 },
    /// Adds `diff` to the balance of the fund.
    AdjustFundBalance { fund_id: FundId, journal_id: JournalId, diff: i64 },
    /// Adds `diff` to the balance of the activity.
    AdjustActivityBalance { activity_id: ActivityId, journal_id: JournalId, diff: i64 },
}

/// What an entry moves the balances it is booked against by: its amount for a credit,
/// minus its amount for a debit, the amount read as a signed number.
pub open spec fn entry_diff(amount: u64, side: EntrySide) -> int {
    match side {
        EntrySide::Credit => wrapped_amount(amount),
        EntrySide::Debit => -wrapped_amount(amount),
    }
}

/// The amount as stored: read as a signed number.
pub open spec fn stored_amount(amount: u64) -> int {
    wrapped_amount(amount)
}

/// Whether the event can be projected: the negation of a debit's amount must fit, so a
/// debit of exactly 2^63 cents cannot.
pub open spec fn projectable(event: JournalDomainEvent) -> bool {
    match event {
        JournalDomainEvent::EntryCreated { amount, entry_side, .. } => !(entry_side
            == EntrySide::Debit && amount == 0x8000_0000_0000_0000u64),
        _ => true,
    }
}

/// The changes that an event makes to the read model, in order.
pub open spec fn spec_projection_changes(event: JournalDomainEvent) -> Seq<ProjectionChange> {
    match event {
        JournalDomainEvent::JournalCreated { journal_id, owner, name, .. } => seq![
            ProjectionChange::InsertJournal { journal_id, owner, name },
        ],
        JournalDomainEvent::JournalDeleted { journal_id, .. } => seq![
            ProjectionChange::DeleteJournal { journal_id },
        ],
        JournalDomainEvent::MemberAdded { journal_id, user_id, permissions, .. } => seq![
            ProjectionChange::InsertMember { user_id, journal_id, permissions },
        ],
        JournalDomainEvent::MemberPermissionsUpdated { journal_id, user_id, permissions, .. } => seq![
            ProjectionChange::UpdateMemberPermissions { user_id, journal_id, permissions },
        ],
        JournalDomainEvent::MemberRemoved { journal_id, user_id, .. } => seq![
            ProjectionChange::DeleteMember { user_id, journal_id },
        ],
        JournalDomainEvent::AccountCreated { account_id, journal_id, name, account_type, .. } => seq![
            ProjectionChange::InsertAccount { account_id, journal_id, name, account_type },
        ],
        JournalDomainEvent::AccountRenamed { account_id, journal_id, new_name, .. } => seq![
            ProjectionChange::RenameAccount { account_id, journal_id, new_name },
        ],
        JournalDomainEvent::AccountDeleted { account_id, journal_id, .. } => seq![
            ProjectionChange::DeleteAccount { account_id, journal_id },
        ],
        JournalDomainEvent::TransactionCreated { transaction_id, journal_id, entries, .. } => seq![
            ProjectionChange::InsertTransaction { transaction_id, journal_id, entries },
        ],
        JournalDomainEvent::FileUploaded { file_id, journal_id, hash, file_name, .. } => seq![
            ProjectionChange::InsertFile { file_id, journal_id, hash, name: file_name },
        ],
        JournalDomainEvent::FundCreated { fund_id, journal_id, fund_name, .. } => seq![
            ProjectionChange::InsertFund { fund_id, journal_id, name: fund_name },
        ],
        JournalDomainEvent::ActivityCreated {
            activity_id,
            journal_id,
            activity_name,
            activity_type,
            ..
        } => seq![
            ProjectionChange::InsertActivity {
                activity_id,
                journal_id,
                name: activity_name,
                activity_type,
            },
        ],
        JournalDomainEvent::EntryCreated {
            entry_id,
            journal_id,
            amount,
            entry_side,
            entry_kind,
            ..
        } => {
            let insert = ProjectionChange::InsertEntry {
                entry_id,
                journal_id,
                amount: stored_amount(amount) as i64,
                entry_side,
                entry_kind,
            };
            let diff = entry_diff(amount, entry_side) as i64;
            match entry_kind {
                EntryKind::Account { account_id } => seq![
                    insert,
                    ProjectionChange::AdjustAccountBalance { account_id, journal_id, diff },
                ],
                EntryKind::Activity { activity_id, fund_id, .. } => seq![
                    insert,
                    ProjectionChange::AdjustFundBalance { fund_id, journal_id, diff },
                    ProjectionChange::AdjustActivityBalance { activity_id, journal_id, diff },
                ],
            }
        },
    }
}

proof fn lemma_stored_amount(amount: u64)
    ensures
        #[verifier::truncate]
        (amount as i64) as int == wrapped_amount(amount),
{
    assert(amount <= 0x7fff_ffff_ffff_ffffu64 ==> (amount as i64) == amount) by (bit_vector);
    assert(amount > 0x7fff_ffff_ffff_ffffu64 ==> (amount as i64) as int == amount as int
        - 0x1_0000_0000_0000_0000int) by (bit_vector);
}

/// How much a change moves a balance, if it adjusts one.
pub open spec fn adjustment_diff(c: ProjectionChange) -> Option<int> {
    match c {
        ProjectionChange::AdjustAccountBalance { diff, .. } => Some(diff as int),
        ProjectionChange::AdjustFundBalance { diff, .. } => Some(diff as int),
        ProjectionChange::AdjustActivityBalance { diff, .. } => Some(diff as int),
        _ => None,
    }
}

/// The amount of an entry as a signed change: plus the amount for a credit, minus it for
/// a debit (an amount above `i64::MAX` counting as stored, wrapped to a negative number).
pub open spec fn signed_entry_amount(amount: u64, side: EntrySide) -> int {
    let stored = if amount <= 0x7fff_ffff_ffff_ffffu64 {
        amount as int
    } else {
        amount as int - 0x1_0000_0000_0000_0000int
    };
    if side == EntrySide::Credit {
        stored
    } else {
        -stored
    }
}

/// An entry is stored, then moves its account's balance, or its fund's and its activity's,
/// each by the entry's signed amount: a credit raises every balance it touches by the
/// amount and a debit lowers each by it; no other row is changed.
pub proof fn lemma_entry_moves_each_balance_by_its_signed_amount(event: JournalDomainEvent)
    requires
        projectable(event),
    ensures
        event matches JournalDomainEvent::EntryCreated {
            entry_id,
            journal_id,
            amount,
            entry_side,
            entry_kind,
            ..
        } ==> {
            let cs = spec_projection_changes(event);
            &&& cs.len() == if entry_kind is Account {
                2int
            } else {
                3int
            }
            &&& cs[0] matches ProjectionChange::InsertEntry {
                entry_id: e,
                journal_id: j,
                amount: a,
                entry_side: s,
                entry_kind: k,
            } && e == entry_id && j == journal_id && s == entry_side && k == entry_kind && (
            if entry_side == EntrySide::Credit {
                a as int
            } else {
                -(a as int)
            }) == signed_entry_amount(amount, entry_side)
            &&& match entry_kind {
                EntryKind::Account { account_id } => (cs[1] matches ProjectionChange::AdjustAccountBalance {
                    account_id: x,
                    journal_id: j,
                    ..
                } && x == account_id && j == journal_id),
                EntryKind::Activity { activity_id, fund_id, .. } => (cs[1] matches ProjectionChange::AdjustFundBalance {
                    fund_id: f,
                    journal_id: j,
                    ..
                } && f == fund_id && j == journal_id) && (cs[2] matches ProjectionChange::AdjustActivityBalance {
                    activity_id: x,
                    journal_id: j2,
                    ..
                } && x == activity_id && j2 == journal_id),
            }
            &&& forall|i: int|
                1 <= i < cs.len() ==> #[trigger] adjustment_diff(cs[i]) == Some(
                    signed_entry_amount(amount, entry_side),
                )
        },
{
    if let JournalDomainEvent::EntryCreated { amount, entry_side, .. } = event {
        let d = entry_diff(amount, entry_side);
        assert(d == signed_entry_amount(amount, entry_side));
        assert(i64::MIN <= d <= i64::MAX);
        assert((d as i64) as int == d);
    }
}

/// The changes that the event makes to the read model: one row for each kind of event;
/// an entry also moves the balance of its account, or of its fund and its activity, by
/// its signed amount.
pub fn projection_changes(event: JournalDomainEvent) -> (r: Vec<ProjectionChange>)
    requires
        projectable(event),
    ensures
        r@ == spec_projection_changes(event),
        event matches JournalDomainEvent::EntryCreated { amount, entry_side, .. } ==> forall|i: int|
            1 <= i < r@.len() ==> #[trigger] adjustment_diff(r@[i]) == Some(
                signed_entry_amount(amount, entry_side),
            ),
{
    match event {
        JournalDomainEvent::JournalCreated { journal_id, owner, name, .. } => vec![
            ProjectionChange::InsertJournal { journal_id, owner, name },
        ],
        JournalDomainEvent::JournalDeleted { journal_id, .. } => vec![
            ProjectionChange::DeleteJournal { journal_id },
        ],
        JournalDomainEvent::MemberAdded { journal_id, user_id, permissions, .. } => vec![
            ProjectionChange::InsertMember { user_id, journal_id, permissions },
        ],
        JournalDomainEvent::MemberPermissionsUpdated { journal_id, user_id, permissions, .. } => vec![
            ProjectionChange::UpdateMemberPermissions { user_id, journal_id, permissions },
        ],
        JournalDomainEvent::MemberRemoved { journal_id, user_id, .. } => vec![
            ProjectionChange::DeleteMember { user_id, journal_id },
        ],
        JournalDomainEvent::AccountCreated { account_id, journal_id, name, account_type, .. } => vec![
            ProjectionChange::InsertAccount { account_id, journal_id, name, account_type },
        ],
        JournalDomainEvent::AccountRenamed { account_id, journal_id, new_name, .. } => vec![
            ProjectionChange::RenameAccount { account_id, journal_id, new_name },
        ],
        JournalDomainEvent::AccountDeleted { account_id, journal_id, .. } => vec![
            ProjectionChange::DeleteAccount { account_id, journal_id },
        ],
        JournalDomainEvent::TransactionCreated { transaction_id, journal_id, entries, .. } => vec![
            ProjectionChange::InsertTransaction { transaction_id, journal_id, entries },
        ],
        JournalDomainEvent::FileUploaded { file_id, journal_id, hash, file_name, .. } => vec![
            ProjectionChange::InsertFile { file_id, journal_id, hash, name: file_name },
        ],
        JournalDomainEvent::FundCreated { fund_id, journal_id, fund_name, .. } => vec![
            ProjectionChange::InsertFund { fund_id, journal_id, name: fund_name },
        ],
        JournalDomainEvent::ActivityCreated {
            activity_id,
            journal_id,
            activity_name,
            activity_type,
            ..
        } => vec![
            ProjectionChange::InsertActivity {
                activity_id,
                journal_id,
                name: activity_name,
                activity_type,
            },
        ],
        JournalDomainEvent::EntryCreated {
            entry_id,
            journal_id,
            amount,
            entry_side,
            entry_kind,
            ..
        } => {
            proof {
                lemma_stored_amount(amount);
            }
            let stored: i64 = #[verifier::truncate] (amount as i64);
            let diff: i64 = match entry_side {
                EntrySide::Credit => stored,
                EntrySide::Debit => -stored,
            };
            let insert = ProjectionChange::InsertEntry {
                entry_id,
                journal_id,
                amount: stored,
                entry_side,
                entry_kind,
            };
            match entry_kind {
                EntryKind::Account { account_id } => vec![
                    insert,
                    ProjectionChange::AdjustAccountBalance { account_id, journal_id, diff },
                ],
                EntryKind::Activity { activity_id, fund_id, .. } => vec![
                    insert,
                    ProjectionChange::AdjustFundBalance { fund_id, journal_id, diff },
                    ProjectionChange::AdjustActivityBalance { activity_id, journal_id, diff },
                ],
            }
        },
    }
}

/// What a change adds to the total of the account and fund balances.
pub open spec fn ledger_change(c: ProjectionChange) -> int {
    match c {
        ProjectionChange::AdjustAccountBalance { diff, .. } => diff as int,
        ProjectionChange::AdjustFundBalance { diff, .. } => diff as int,
        _ => 0,
    }
}

/// The total of `ledger_change` over a sequence of changes.
pub open spec fn ledger_total(cs: Seq<ProjectionChange>) -> int
    decreases cs.len(),
{
    if cs.len() == 0 {
        0
    } else {
        ledger_total(cs.drop_last()) + ledger_change(cs.last())
    }
}

/// The total of `ledger_change` over the changes of the first `k` events.
pub open spec fn events_ledger_total(evs: Seq<JournalDomainEvent>, k: int) -> int
    decreases k,
{
    if k <= 0 {
        0
    } else {
        events_ledger_total(evs, k - 1) + ledger_total(spec_projection_changes(evs[k - 1]))
    }
}

/// The event that books the entry.
pub open spec fn books_entry(ev: JournalDomainEvent, e: TransactionEntry) -> bool {
    ev matches JournalDomainEvent::EntryCreated { amount, entry_side, entry_kind, .. }
        && amount == e.amount && entry_side == e.entry_side && entry_kind == e.entry_kind
}

/// An entry moves the total of the account and fund balances by exactly its change to
/// the balance of its transaction.
pub proof fn lemma_entry_moves_ledger(ev: JournalDomainEvent, e: TransactionEntry)
    requires
        books_entry(ev, e),
        projectable(ev),
    ensures
        ledger_total(spec_projection_changes(ev)) == entry_change(e),
{
    let cs = spec_projection_changes(ev);
    if let JournalDomainEvent::EntryCreated { amount, entry_side, entry_kind, .. } = ev {
        let d = entry_diff(amount, entry_side);
        assert(i64::MIN <= d <= i64::MAX);
        assert((d as i64) as int == d);
        match entry_kind {
            EntryKind::Account { .. } => {
                assert(cs.drop_last().drop_last() =~= Seq::<ProjectionChange>::empty());
                assert(ledger_total(cs.drop_last().drop_last()) == 0);
                assert(ledger_change(cs.drop_last().last()) == 0);
                assert(ledger_total(cs.drop_last()) == 0);
                assert(ledger_change(cs.last()) == d);
            },
            EntryKind::Activity { .. } => {
                let c1 = cs.drop_last();
                let c2 = c1.drop_last();
                assert(c2.drop_last() =~= Seq::<ProjectionChange>::empty());
                assert(ledger_total(c2.drop_last()) == 0);
                assert(ledger_change(c2.last()) == 0);
                assert(ledger_total(c2) == 0);
                assert(ledger_change(c1.last()) == d);
                assert(ledger_total(c1) == d);
                assert(ledger_change(cs.last()) == 0);
            },
        }
    }
}

/// Projecting the entries of a balanced transaction leaves the total of all account and
/// fund balances unchanged: what its credits add, its debits take away.
pub proof fn lemma_balanced_entries_keep_ledger(es: Seq<TransactionEntry>, evs: Seq<JournalDomainEvent>)
    requires
        evs.len() == es.len(),
        forall|i: int| 0 <= i < es.len() ==> books_entry(#[trigger] evs[i], es[i]),
        forall|i: int| 0 <= i < es.len() ==> projectable(#[trigger] evs[i]),
        overall_sum(es, es.len() as int) == 0,
    ensures
        events_ledger_total(evs, evs.len() as int) == 0,
{
    lemma_ledger_follows_sum(es, evs, es.len() as int);
}

proof fn lemma_ledger_follows_sum(es: Seq<TransactionEntry>, evs: Seq<JournalDomainEvent>, k: int)
    requires
        evs.len() == es.len(),
        0 <= k <= es.len(),
        forall|i: int| 0 <= i < es.len() ==> books_entry(#[trigger] evs[i], es[i]),
        forall|i: int| 0 <= i < es.len() ==> projectable(#[trigger] evs[i]),
    ensures
        events_ledger_total(evs, k) == overall_sum(es, k),
    decreases k,
{
    if k > 0 {
        lemma_ledger_follows_sum(es, evs, k - 1);
        lemma_entry_moves_ledger(evs[k - 1], es[k - 1]);
    }
}

} // verus!
