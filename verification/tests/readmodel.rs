use monkesto::authority::{Actor, Authority};
use monkesto::idmap::IdMap;
use monkesto::ids::{AccountId, ActivityId, EntryId, FileId, FundId, JournalId, TransactionId, UserId};
use monkesto::journal::entry::{EntryKind, EntrySide};
use monkesto::journal::error::JournalError;
use monkesto::journal::event::JournalDomainEvent;
use monkesto::journal::projection::{ProjectionChange, projection_changes};
use monkesto::journal::transaction::{StoredTransactionEntry, TransactionEntryIds, collect_entries};
use monkesto::name::Name;
use monkesto::permissions::Permissions;
use monkesto::store::Timestamp;

fn authority() -> Authority {
    Authority::Direct(Actor::System)
}

fn entry_event(amount: u64, side: EntrySide, kind: EntryKind) -> JournalDomainEvent {
    JournalDomainEvent::EntryCreated {
        entry_id: EntryId::new(),
        journal_id: JournalId::nil(),
        amount,
        entry_side: side,
        entry_kind: kind,
        authority: authority(),
        timestamp: Timestamp(0),
    }
}

fn ledger_total(changes: &[ProjectionChange]) -> i64 {
    changes
        .iter()
        .map(|c| match c {
            ProjectionChange::AdjustAccountBalance { diff, .. } => *diff,
            ProjectionChange::AdjustFundBalance { diff, .. } => *diff,
            _ => 0,
        })
        .sum()
}

#[test]
fn an_account_entry_moves_its_account() {
    let account_id = AccountId::new();
    let changes = projection_changes(entry_event(250, EntrySide::Debit, EntryKind::Account { account_id }));
    assert_eq!(changes.len(), 2);
    assert!(matches!(changes[0], ProjectionChange::InsertEntry { amount: 250, entry_side: EntrySide::Debit, .. }));
    assert!(matches!(changes[1], ProjectionChange::AdjustAccountBalance { account_id: a, diff: -250, .. } if a == account_id));
}

#[test]
fn an_activity_entry_moves_its_fund_and_activity() {
    let activity_id = ActivityId::new();
    let fund_id = FundId::new();
    let changes = projection_changes(entry_event(
        40,
        EntrySide::Credit,
        EntryKind::Activity { activity_id, fund_id, transfer: false },
    ));
    assert_eq!(changes.len(), 3);
    assert!(matches!(changes[1], ProjectionChange::AdjustFundBalance { fund_id: f, diff: 40, .. } if f == fund_id));
    assert!(matches!(changes[2], ProjectionChange::AdjustActivityBalance { activity_id: a, diff: 40, .. } if a == activity_id));
}

#[test]
fn large_amounts_are_stored_as_signed_numbers() {
    let account_id = AccountId::new();
    let changes = projection_changes(entry_event(u64::MAX, EntrySide::Credit, EntryKind::Account { account_id }));
    assert!(matches!(changes[0], ProjectionChange::InsertEntry { amount: -1, .. }));
    assert!(matches!(changes[1], ProjectionChange::AdjustAccountBalance { diff: -1, .. }));
}

#[test]
fn a_balanced_transaction_keeps_the_ledger_total() {
    let cash = AccountId::new();
    let fund_id = FundId::new();
    let events = vec![
        entry_event(300, EntrySide::Debit, EntryKind::Account { account_id: cash }),
        entry_event(100, EntrySide::Credit, EntryKind::Activity { activity_id: ActivityId::new(), fund_id, transfer: false }),
        entry_event(200, EntrySide::Credit, EntryKind::Account { account_id: AccountId::new() }),
    ];
    let total: i64 = events.into_iter().map(|e| ledger_total(&projection_changes(e))).sum();
    assert_eq!(total, 0);
}

#[test]
fn each_event_has_its_row() {
    let journal_id = JournalId::new();
    let owner = UserId::new();
    let changes = projection_changes(JournalDomainEvent::JournalCreated {
        journal_id,
        owner,
        name: Name::try_new("Books".to_string()).expect("a name"),
        authority: authority(),
        timestamp: Timestamp(0),
    });
    assert!(matches!(&changes[..], [ProjectionChange::InsertJournal { journal_id: j, owner: o, .. }] if *j == journal_id && *o == owner));
    let changes = projection_changes(JournalDomainEvent::MemberPermissionsUpdated {
        journal_id,
        user_id: owner,
        permissions: Permissions::read(),
        authority: authority(),
        timestamp: Timestamp(0),
    });
    assert!(matches!(&changes[..], [ProjectionChange::UpdateMemberPermissions { permissions, .. }] if *permissions == Permissions::read()));
    let changes = projection_changes(JournalDomainEvent::TransactionCreated {
        transaction_id: TransactionId::new(),
        journal_id,
        entries: TransactionEntryIds(vec![EntryId::new()]),
        financial_period: monkesto::journal::transaction::FinancialPeriod::April,
        authority: authority(),
        timestamp: Timestamp(0),
    });
    assert!(matches!(&changes[..], [ProjectionChange::InsertTransaction { entries, .. }] if entries.0.len() == 1));
    let changes = projection_changes(JournalDomainEvent::FileUploaded {
        file_id: FileId::new(),
        journal_id,
        hash: [7u8; 16],
        file_name: "receipt.pdf".to_string(),
        authority: authority(),
        timestamp: Timestamp(0),
    });
    assert!(matches!(&changes[..], [ProjectionChange::InsertFile { name, hash, .. }] if name == "receipt.pdf" && *hash == [7u8; 16]));
}

fn stored(id: EntryId, amount: i64) -> StoredTransactionEntry {
    StoredTransactionEntry {
        id,
        journal_id: JournalId::nil(),
        amount,
        entry_side: EntrySide::Credit,
        entry_kind: EntryKind::Account { account_id: AccountId::nil() },
    }
}

#[test]
fn entries_are_collected_in_order() {
    let a = EntryId::new();
    let b = EntryId::new();
    let mut map = IdMap::new();
    map.insert(a, stored(a, 1));
    map.insert(b, stored(b, 2));
    let v = collect_entries(&vec![b, a], &map).expect("both are stored");
    assert_eq!(v.iter().map(|e| e.amount).collect::<Vec<_>>(), vec![2, 1]);
    let missing = EntryId::new();
    assert!(matches!(collect_entries(&vec![a, missing, b], &map), Err(JournalError::InvalidEntry(e)) if e == missing));
}
