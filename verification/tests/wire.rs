use monkesto::authority::{Actor, Authority};
use monkesto::ids::{AccountId, ActivityId, EntryId, FileId, FundId, JournalId, UserId};
use monkesto::journal::account::{AccountType, AccountTypeFromIntError};
use monkesto::journal::entry::{EntryKind, EntrySide, EntrySideFromIntError};
use monkesto::journal::error::{JewelImportError, JournalError, TransactionValidationError};
use monkesto::journal::event::JournalDomainEvent;
use monkesto::journal::wire::{
    DecodeError, WireEntryKind, WireEntryKindVariant, WireEvent, WireEventKind, WireJewelImportError, WireJournalError,
    WireJournalErrorKind, WireValidationError, event_from_wire, event_to_wire, journal_error_from_wire,
    journal_error_to_wire,
};
use monkesto::name::{Name, NameError};
use monkesto::permissions::Permissions;
use monkesto::store::Timestamp;

fn system() -> Authority {
    Authority::Direct(Actor::System)
}

#[test]
fn a_stored_event_reads_back_as_itself() {
    let journal_id = JournalId::new();
    let owner = UserId::new();
    let event = JournalDomainEvent::JournalCreated {
        journal_id,
        owner,
        name: Name::try_new("Books".to_string()).expect("name"),
        authority: system(),
        timestamp: Timestamp(7),
    };
    let back = event_from_wire(event_to_wire(event)).expect("readable");
    assert!(matches!(back, JournalDomainEvent::JournalCreated { journal_id: j, owner: o, ref name, timestamp: Timestamp(7), .. }
        if j == journal_id && o == owner && name.as_str() == "Books"));

    let file_id = FileId::new();
    let upload = JournalDomainEvent::FileUploaded {
        file_id,
        journal_id,
        hash: [3u8; 16],
        file_name: "a.pdf".to_string(),
        authority: system(),
        timestamp: Timestamp(1),
    };
    let back = event_from_wire(event_to_wire(upload)).expect("readable");
    assert!(matches!(back, JournalDomainEvent::FileUploaded { file_id: f, hash, ref file_name, .. }
        if f == file_id && hash == [3u8; 16] && file_name == "a.pdf"));

    let account_id = AccountId::new();
    let entry = JournalDomainEvent::EntryCreated {
        entry_id: EntryId::new(),
        journal_id,
        amount: 1250,
        entry_side: EntrySide::Credit,
        entry_kind: EntryKind::Account { account_id },
        authority: system(),
        timestamp: Timestamp(2),
    };
    let back = event_from_wire(event_to_wire(entry)).expect("readable");
    assert!(matches!(back, JournalDomainEvent::EntryCreated { amount: 1250, entry_side: EntrySide::Credit,
        entry_kind: EntryKind::Account { account_id: a }, .. } if a == account_id));
}

#[test]
fn an_event_without_a_kind_or_a_field_is_field_required() {
    assert!(matches!(event_from_wire(WireEvent { kind: None }), Err(DecodeError::FieldRequired)));
    let missing_owner = WireEvent {
        kind: Some(WireEventKind::JournalCreated {
            journal_id: Some(JournalId::new()),
            owner_id: None,
            name: "   ".to_string(),
            authority: Some(system()),
            timestamp: Some(Timestamp(1)),
        }),
    };
    assert!(matches!(event_from_wire(missing_owner), Err(DecodeError::FieldRequired)));
}

#[test]
fn the_first_bad_field_gives_the_error() {
    let blank_name = WireEvent {
        kind: Some(WireEventKind::JournalCreated {
            journal_id: Some(JournalId::new()),
            owner_id: Some(UserId::new()),
            name: "   ".to_string(),
            authority: None,
            timestamp: Some(Timestamp(1)),
        }),
    };
    assert!(matches!(event_from_wire(blank_name), Err(DecodeError::Name(NameError::TooShort(s))) if s == "   "));

    let bad_permissions = WireEvent {
        kind: Some(WireEventKind::MemberAdded {
            journal_id: Some(JournalId::new()),
            user_id: Some(UserId::new()),
            permissions: 0x100,
            authority: Some(system()),
            timestamp: Some(Timestamp(1)),
        }),
    };
    assert!(matches!(event_from_wire(bad_permissions), Err(DecodeError::PermissionDecode(0x100))));

    let short_hash = WireEvent {
        kind: Some(WireEventKind::FileUploaded {
            file_id: Some(FileId::new()),
            journal_id: Some(JournalId::new()),
            hash: vec![0u8; 15],
            file_name: "a".to_string(),
            authority: Some(system()),
            timestamp: Some(Timestamp(1)),
        }),
    };
    assert!(matches!(event_from_wire(short_hash), Err(DecodeError::Deserialize)));

    let bad_side_then_missing_kind = WireEvent {
        kind: Some(WireEventKind::EntryCreated {
            entry_id: Some(EntryId::new()),
            journal_id: Some(JournalId::new()),
            entry_kind: None,
            amount: 5,
            entry_side: 0,
            authority: Some(system()),
            timestamp: Some(Timestamp(1)),
        }),
    };
    assert!(matches!(event_from_wire(bad_side_then_missing_kind),
        Err(DecodeError::EntrySide(EntrySideFromIntError(0)))));

    let activity_without_fund = WireEvent {
        kind: Some(WireEventKind::EntryCreated {
            entry_id: Some(EntryId::new()),
            journal_id: Some(JournalId::new()),
            entry_kind: Some(WireEntryKind {
                variant: Some(WireEntryKindVariant::Activity {
                    activity_id: Some(ActivityId::new()),
                    fund_id: None,
                    transfer: false,
                }),
            }),
            amount: 5,
            entry_side: 1,
            authority: Some(system()),
            timestamp: Some(Timestamp(1)),
        }),
    };
    assert!(matches!(event_from_wire(activity_without_fund), Err(DecodeError::FieldRequired)));
}

#[test]
fn stored_codes_are_read_by_their_low_byte() {
    let account = |code: i32| WireEvent {
        kind: Some(WireEventKind::AccountCreated {
            account_id: Some(AccountId::new()),
            journal_id: Some(JournalId::new()),
            name: "Cash".to_string(),
            account_type: code,
            authority: Some(system()),
            timestamp: Some(Timestamp(1)),
        }),
    };
    assert!(matches!(event_from_wire(account(2)),
        Ok(JournalDomainEvent::AccountCreated { account_type: AccountType::Liability, .. })));
    assert!(matches!(event_from_wire(account(257)),
        Ok(JournalDomainEvent::AccountCreated { account_type: AccountType::Asset, .. })));
    assert!(matches!(event_from_wire(account(3)),
        Err(DecodeError::AccountType(AccountTypeFromIntError(3)))));
}

#[test]
fn a_stored_error_reads_back_as_itself() {
    let journal_id = JournalId::new();
    let back = journal_error_from_wire(journal_error_to_wire(JournalError::InvalidJournal(journal_id)));
    assert!(matches!(back, Ok(JournalError::InvalidJournal(j)) if j == journal_id));
    let back = journal_error_from_wire(journal_error_to_wire(JournalError::Permissions(Permissions::read())));
    assert!(matches!(back, Ok(JournalError::Permissions(p)) if p == Permissions::read()));
    let back = journal_error_from_wire(journal_error_to_wire(JournalError::TransactionValidation(
        TransactionValidationError::ParseDecimal("x".to_string()),
    )));
    assert!(matches!(back, Ok(JournalError::TransactionValidation(TransactionValidationError::ParseDecimal(s))) if s == "x"));
    let entry_id = EntryId::new();
    let back = journal_error_from_wire(journal_error_to_wire(JournalError::EntryIdCollision(entry_id)));
    assert!(matches!(back, Ok(JournalError::EntryIdCollision(e)) if e == entry_id));
}

#[test]
fn a_fund_id_collision_is_stored_as_a_file_id_collision() {
    let fund_id = FundId::new();
    let stored = journal_error_to_wire(JournalError::FundIdCollision(fund_id));
    assert!(matches!(stored.kind, Some(WireJournalErrorKind::FileIdCollision(f)) if f == FileId(fund_id.0)));
    let back = journal_error_from_wire(stored);
    assert!(matches!(back, Ok(JournalError::FileIdCollision(f)) if f == FileId(fund_id.0)));
}

#[test]
fn unreadable_stored_errors_are_decode_errors() {
    assert!(matches!(journal_error_from_wire(WireJournalError { kind: None }), Err(DecodeError::FieldRequired)));
    let bad = WireJournalError { kind: Some(WireJournalErrorKind::Permissions(-1)) };
    assert!(matches!(journal_error_from_wire(bad), Err(DecodeError::PermissionDecode(-1))));
    let no_validation_kind = WireJournalError {
        kind: Some(WireJournalErrorKind::TransactionValidation(WireValidationError { kind: None })),
    };
    assert!(matches!(journal_error_from_wire(no_validation_kind), Err(DecodeError::FieldRequired)));
    let stored_fund = WireJournalError { kind: Some(WireJournalErrorKind::FundIdCollision(FundId::new())) };
    assert!(matches!(journal_error_from_wire(stored_fund), Ok(JournalError::FundIdCollision(_))));
}

#[test]
fn decoding_and_import_errors_read_back_as_themselves() {
    let back = journal_error_from_wire(journal_error_to_wire(JournalError::ProtoDecode(DecodeError::PermissionDecode(9))));
    assert!(matches!(back, Ok(JournalError::ProtoDecode(DecodeError::PermissionDecode(9)))));
    let back = journal_error_from_wire(journal_error_to_wire(JournalError::JewelImport(
        JewelImportError::ChildProcessExitFailure("exit 1".to_string()),
    )));
    assert!(matches!(back, Ok(JournalError::JewelImport(JewelImportError::ChildProcessExitFailure(s))) if s == "exit 1"));
    let back = journal_error_from_wire(journal_error_to_wire(JournalError::JewelImport(JewelImportError::Io("disk".to_string()))));
    assert!(matches!(back, Ok(JournalError::JewelImport(JewelImportError::Io(s))) if s == "disk"));
    let no_import_kind = WireJournalError {
        kind: Some(WireJournalErrorKind::JewelImport(WireJewelImportError { kind: None })),
    };
    assert!(matches!(journal_error_from_wire(no_import_kind), Err(DecodeError::FieldRequired)));
}
