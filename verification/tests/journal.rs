use monkesto::authority::{Actor, Authority};
use monkesto::ids::{AccountId, ActivityId, FundId, JournalId, TransactionId, UserId};
use monkesto::journal::account::{AccountType, CreateAccount, DeleteAccount, RenameAccount};
use monkesto::journal::activity::{ActivityType, CreateActivity};
use monkesto::journal::entry::{EntryKind, EntrySide};
use monkesto::journal::error::{JournalError, TransactionValidationError};
use monkesto::journal::event::JournalDomainEvent;
use monkesto::journal::fund::CreateFund;
use monkesto::journal::member::{AddJournalMember, JournalMember, RemoveJournalMember, UpdateJournalMember};
use monkesto::journal::transaction::{
    CreateTransaction, FinancialPeriod, JournalAFTs, TransactionEntries, TransactionEntry,
};
use monkesto::journal::{
    CreateJournal, DeleteJournal, Journal, effective_permissions, require_permissions,
    validate_permissions,
};
use monkesto::name::Name;
use monkesto::permissions::Permissions;
use monkesto::status::Status;
use monkesto::store::Timestamp;

fn name(s: &str) -> Name {
    Name::try_new(s.to_string()).expect("a valid name")
}

fn now() -> Timestamp {
    Timestamp(1_700_000_000_000)
}

fn created_journal(owner: UserId) -> (JournalId, Journal, Vec<JournalDomainEvent>) {
    let journal_id = JournalId::new();
    let cmd = CreateJournal::new(journal_id, owner, name("Books"), Authority::Direct(Actor::User(owner)), now());
    let mut journal = cmd.state_query();
    let events = cmd.process(&journal).expect("a new journal is created");
    let mut rest = Vec::new();
    for e in events {
        match e {
            JournalDomainEvent::JournalCreated { .. } => journal.mutate(e),
            other => rest.push(other),
        }
    }
    (journal_id, journal, rest)
}

#[test]
fn creating_a_journal_adds_a_general_fund() {
    let owner = UserId::new();
    let (journal_id, journal, rest) = created_journal(owner);
    assert_eq!(journal.status, Status::Valid);
    assert_eq!(journal.owner, owner);
    assert_eq!(journal.name.as_str(), "Books");
    assert_eq!(rest.len(), 1);
    match &rest[0] {
        JournalDomainEvent::FundCreated { journal_id: j, fund_name, authority, .. } => {
            assert_eq!(*j, journal_id);
            assert_eq!(fund_name.as_str(), "General");
            assert_eq!(*authority, Authority::Direct(Actor::System));
        }
        other => panic!("unexpected event {:?}", other),
    }
}

#[test]
fn creating_a_journal_twice_collides() {
    let owner = UserId::new();
    let (journal_id, journal, _) = created_journal(owner);
    let again = CreateJournal::new(journal_id, owner, name("Other"), Authority::Direct(Actor::User(owner)), now());
    assert!(matches!(again.process(&journal), Err(JournalError::IdCollision(j)) if j == journal_id));
}

#[test]
fn deleting_a_journal() {
    let owner = UserId::new();
    let (journal_id, mut journal, _) = created_journal(owner);
    let cmd = DeleteJournal::new(journal_id, Authority::Direct(Actor::User(owner)), now());
    let events = cmd.process(&journal).expect("an existing journal is deleted");
    assert_eq!(events.len(), 1);
    for e in events {
        journal.mutate(e);
    }
    assert_eq!(journal.status, Status::Deleted);
    assert!(matches!(cmd.process(&journal), Err(JournalError::InvalidJournal(_))));
}

#[test]
fn members_are_added_updated_and_removed_by_the_owner() {
    let owner = UserId::new();
    let invitee = UserId::new();
    let (journal_id, journal, _) = created_journal(owner);
    let authority = Authority::Direct(Actor::User(owner));

    let add = AddJournalMember::new(journal_id, invitee, Permissions::read(), authority, now());
    let (_, member, actor) = add.state_query();
    let events = add.process(&journal, &member, &actor).expect("the owner may invite");
    let mut member = JournalMember::new(journal_id, invitee);
    for e in events {
        member.mutate(e);
    }
    assert_eq!(member.status, Status::Valid);
    assert_eq!(member.permissions, Permissions::read());

    assert!(matches!(
        add.process(&journal, &member, &actor),
        Err(JournalError::UserAlreadyHasAccess(u)) if u == invitee
    ));

    let update = UpdateJournalMember::new(journal_id, invitee, Permissions::all(), authority, now());
    for e in update.process(&journal, &member, &actor).expect("the owner may update") {
        member.mutate(e);
    }
    assert_eq!(member.permissions, Permissions::all());

    let remove = RemoveJournalMember::new(journal_id, invitee, authority, now());
    for e in remove.process(&journal, &member, &actor).expect("the owner may remove") {
        member.mutate(e);
    }
    assert_eq!(member.status, Status::Deleted);
}

#[test]
fn a_stranger_may_not_add_members() {
    let owner = UserId::new();
    let stranger = UserId::new();
    let (journal_id, journal, _) = created_journal(owner);
    let add = AddJournalMember::new(
        journal_id,
        UserId::new(),
        Permissions::read(),
        Authority::Direct(Actor::User(stranger)),
        now(),
    );
    let (_, member, actor) = add.state_query();
    assert!(matches!(add.process(&journal, &member, &actor), Err(JournalError::Permissions(p)) if p.bits() == 65));
}

#[test]
fn accounts_are_created_renamed_and_deleted() {
    let owner = UserId::new();
    let (journal_id, journal, _) = created_journal(owner);
    let authority = Authority::Direct(Actor::User(owner));
    let account_id = AccountId::new();

    let create = CreateAccount::new(account_id, journal_id, name("Cash"), AccountType::Asset, authority, now());
    let (mut account, _, actor) = create.state_query();
    for e in create.process(&account, &journal, &actor).expect("the owner may add accounts") {
        account.mutate(e);
    }
    assert_eq!(account.status, Status::Valid);
    assert!(matches!(
        create.process(&account, &journal, &actor),
        Err(JournalError::AccountIdCollision(a)) if a == account_id
    ));

    let rename = RenameAccount::new(account_id, journal_id, name("Petty cash"), authority, now());
    for e in rename.process(&account, &journal, &actor).expect("the owner may rename") {
        account.mutate(e);
    }
    assert_eq!(account.name.as_str(), "Petty cash");

    let delete = DeleteAccount::new(account_id, journal_id, authority, now());
    for e in delete.process(&account, &journal, &actor).expect("the owner may delete") {
        account.mutate(e);
    }
    assert_eq!(account.status, Status::Deleted);
}

#[test]
fn funds_and_activities_need_a_journal() {
    let owner = UserId::new();
    let journal_id = JournalId::new();
    let authority = Authority::Direct(Actor::User(owner));
    let fund = CreateFund::new(FundId::new(), journal_id, name("Missions"), authority, now());
    let (journal, actor, f) = fund.state_query();
    assert!(matches!(fund.process(&journal, &actor, &f), Err(JournalError::InvalidJournal(j)) if j == journal_id));
    let activity = CreateActivity::new(ActivityId::new(), journal_id, name("Rent"), ActivityType::Expense, authority, now());
    let (journal, actor, a) = activity.state_query();
    assert!(matches!(activity.process(&journal, &actor, &a), Err(JournalError::InvalidJournal(_))));
}

fn books(owner: UserId) -> (JournalId, Journal, JournalAFTs, AccountId, AccountId) {
    let (journal_id, journal, _) = created_journal(owner);
    let mut afts = JournalAFTs::new(journal_id);
    let cash = AccountId::new();
    let bank = AccountId::new();
    for (id, label) in [(cash, "Cash"), (bank, "Bank")] {
        afts.mutate(JournalDomainEvent::AccountCreated {
            account_id: id,
            journal_id,
            name: name(label),
            account_type: AccountType::Asset,
            authority: Authority::Direct(Actor::User(owner)),
            timestamp: now(),
        });
    }
    (journal_id, journal, afts, cash, bank)
}

fn entry(account_id: AccountId, amount: u64, side: EntrySide) -> TransactionEntry {
    TransactionEntry { amount, entry_side: side, entry_kind: EntryKind::Account { account_id } }
}

#[test]
fn a_balanced_transaction_is_booked() {
    let owner = UserId::new();
    let (journal_id, journal, afts, cash, bank) = books(owner);
    let cmd = CreateTransaction::new(
        TransactionId::new(),
        journal_id,
        TransactionEntries(vec![entry(cash, 500, EntrySide::Debit), entry(bank, 500, EntrySide::Credit)]),
        FinancialPeriod::January,
        Authority::Direct(Actor::User(owner)),
        now(),
    );
    let (transaction, _, _, actor) = cmd.state_query();
    let events = cmd.process(&transaction, &afts, &journal, &actor).expect("balanced entries are booked");
    assert_eq!(events.len(), 3);
    assert!(matches!(events[0], JournalDomainEvent::EntryCreated { amount: 500, entry_side: EntrySide::Debit, .. }));
    assert!(matches!(events[1], JournalDomainEvent::EntryCreated { amount: 500, entry_side: EntrySide::Credit, .. }));
    match &events[2] {
        JournalDomainEvent::TransactionCreated { entries, .. } => assert_eq!(entries.0.len(), 2),
        other => panic!("unexpected event {:?}", other),
    }
}

#[test]
fn an_imbalanced_transaction_is_refused() {
    let owner = UserId::new();
    let (journal_id, journal, afts, cash, bank) = books(owner);
    let cmd = CreateTransaction::new(
        TransactionId::new(),
        journal_id,
        TransactionEntries(vec![entry(cash, 500, EntrySide::Debit), entry(bank, 400, EntrySide::Credit)]),
        FinancialPeriod::March,
        Authority::Direct(Actor::User(owner)),
        now(),
    );
    let (transaction, _, _, actor) = cmd.state_query();
    assert!(matches!(
        cmd.process(&transaction, &afts, &journal, &actor),
        Err(JournalError::TransactionValidation(TransactionValidationError::ImbalancedTransaction(t))) if t.0.len() == 2
    ));
}

#[test]
fn an_unknown_account_is_refused() {
    let owner = UserId::new();
    let (journal_id, journal, afts, cash, _) = books(owner);
    let unknown = AccountId::new();
    let cmd = CreateTransaction::new(
        TransactionId::new(),
        journal_id,
        TransactionEntries(vec![entry(cash, 100, EntrySide::Debit), entry(unknown, 100, EntrySide::Credit)]),
        FinancialPeriod::March,
        Authority::Direct(Actor::User(owner)),
        now(),
    );
    let (transaction, _, _, actor) = cmd.state_query();
    assert!(matches!(
        cmd.process(&transaction, &afts, &journal, &actor),
        Err(JournalError::InvalidAccount(a)) if a == unknown
    ));
}

#[test]
fn transfers_must_use_transfer_activities() {
    let owner = UserId::new();
    let (journal_id, journal, mut afts, cash, _) = books(owner);
    let fund = FundId::new();
    let rent = ActivityId::new();
    afts.mutate(JournalDomainEvent::FundCreated {
        fund_id: fund,
        journal_id,
        fund_name: name("General"),
        authority: Authority::Direct(Actor::System),
        timestamp: now(),
    });
    afts.mutate(JournalDomainEvent::ActivityCreated {
        activity_id: rent,
        journal_id,
        activity_name: name("Rent"),
        activity_type: ActivityType::Expense,
        authority: Authority::Direct(Actor::User(owner)),
        timestamp: now(),
    });
    let cmd = CreateTransaction::new(
        TransactionId::new(),
        journal_id,
        TransactionEntries(vec![
            entry(cash, 100, EntrySide::Credit),
            TransactionEntry {
                amount: 100,
                entry_side: EntrySide::Debit,
                entry_kind: EntryKind::Activity { activity_id: rent, fund_id: fund, transfer: true },
            },
        ]),
        FinancialPeriod::May,
        Authority::Direct(Actor::User(owner)),
        now(),
    );
    let (transaction, _, _, actor) = cmd.state_query();
    assert!(matches!(
        cmd.process(&transaction, &afts, &journal, &actor),
        Err(JournalError::TransactionValidation(TransactionValidationError::TransferViolation(a))) if a == rent
    ));
}

#[test]
fn effective_permissions_by_actor() {
    let system = effective_permissions(Authority::Direct(Actor::System), None).expect("system");
    assert_eq!(system.bits(), 128);
    let anonymous = effective_permissions(Authority::Direct(Actor::Anonymous), Some(255)).expect("anonymous");
    assert!(anonymous.is_empty());
    let user = Authority::Direct(Actor::User(UserId::new()));
    assert_eq!(effective_permissions(user, Some(33)).expect("member").bits(), 33);
    assert!(effective_permissions(user, None).expect("no journal").is_empty());
    assert!(matches!(
        effective_permissions(user, Some(256)),
        Err(JournalError::PermissionDecode(e)) if e.0 == 256
    ));
}

#[test]
fn require_permissions_names_what_is_missing() {
    assert!(require_permissions(Permissions::all(), Permissions::upload_file()).is_ok());
    assert!(matches!(
        require_permissions(Permissions::read(), Permissions::upload_file()),
        Err(JournalError::Permissions(p)) if p == Permissions::upload_file()
    ));
}

#[test]
fn owners_and_the_system_are_always_permitted() {
    let owner = UserId::new();
    let journal_id = JournalId::new();
    let nobody = JournalMember::new(journal_id, UserId::new());
    assert!(validate_permissions(&nobody, Authority::Direct(Actor::User(owner)), owner, Permissions::owner()));
    assert!(validate_permissions(&nobody, Authority::Direct(Actor::System), owner, Permissions::owner()));
    assert!(!validate_permissions(&nobody, Authority::Direct(Actor::Anonymous), owner, Permissions::read()));
}

#[test]
fn a_journal_shows_only_to_its_readers() {
    let journal_id = JournalId::new();
    assert!(monkesto::journal::check_journal_visible(journal_id, Permissions::read()).is_ok());
    assert!(matches!(
        monkesto::journal::check_journal_visible(journal_id, Permissions::invite()),
        Err(JournalError::InvalidJournal(j)) if j == journal_id
    ));
}
