//! The form in which journal events and errors are stored: a message of one kind per
//! event or error, whose fields may be absent, whose enumerations are numbers and whose
//! names are plain text. Reading a stored event checks each field in order and fails at
//! the first one that is absent or out of range. Identifiers, authorities and timestamps
//! are carried here as the library's values, read from their own stored forms elsewhere.

use crate::authority::Authority;
use crate::ident::IdentError;
use crate::ids::{AccountId, ActivityId, EntryId, FileId, FundId, JournalId, TransactionId, UserId};
use crate::journal::account::{AccountType, AccountTypeFromIntError};
use crate::journal::activity::{ActivityType, ActivityTypeFromIntError};
use crate::journal::entry::{EntryKind, EntrySide, EntrySideFromIntError};
use crate::journal::error::{JewelImportError, JournalError, TransactionValidationError};
use crate::journal::event::JournalDomainEvent;
use crate::journal::transaction::{
    FinancialPeriod, FinancialPeriodFromIntError, TransactionEntries, TransactionEntryIds,
};
use crate::name::{Name, NameError, all_white_space, utf8_len};
use crate::permissions::{PermissionDecodeError, Permissions, all_bits};
use crate::store::Timestamp;
use vstd::prelude::*;

verus! {

/// What an entry is booked against, as stored.
#[derive(Debug, Clone, Copy)]
pub enum WireEntryKindVariant {
    Account(AccountId),
    Activity { activity_id: Option<ActivityId>, fund_id: Option<FundId>, transfer: bool },
}

/// The stored form of what an entry is booked against.
#[derive(Debug, Clone, Copy)]
pub struct WireEntryKind {
    pub variant: Option<WireEntryKindVariant>,
}

/// The stored form of each kind of journal event.
#[derive(Debug)]
pub enum WireEventKind {
    JournalCreated {
        journal_id: Option<JournalId>,
        owner_id: Option<UserId>,
        name: String,
        authority: Option<Authority>,
        timestamp: Option<Timestamp>,
    },
    JournalDeleted {
        journal_id: Option<JournalId>,
        authority: Option<Authority>,
        timestamp: Option<Timestamp>,
    },
    MemberAdded {
        journal_id: Option<JournalId>,
        user_id: Option<UserId>,
        permissions: i32,
        authority: Option<Authority>,
        timestamp: Option<Timestamp>,
    },
    MemberPermissionsUpdated {
        journal_id: Option<JournalId>,
        user_id: Option<UserId>,
        permissions: i32,
        authority: Option<Authority>,
        timestamp: Option<Timestamp>,
    },
    MemberRemoved {
        journal_id: Option<JournalId>,
        user_id: Option<UserId>,
        authority: Option<Authority>,
        timestamp: Option<Timestamp>,
    },
    AccountCreated {
        account_id: Option<AccountId>,
        journal_id: Option<JournalId>,
        name: String,
        account_type: i32,
        authority: Option<Authority>,
        timestamp: Option<Timestamp>,
    },
    AccountRenamed {
        account_id: Option<AccountId>,
        journal_id: Option<JournalId>,
        new_name: String,
        authority: Option<Authority>,
        timestamp: Option<Timestamp>,
    },
    AccountDeleted {
        account_id: Option<AccountId>,
        journal_id: Option<JournalId>,
        authority: Option<Authority>,
        timestamp: Option<Timestamp>,
    },
    FundCreated {
        fund_id: Option<FundId>,
        journal_id: Option<JournalId>,
        fund_name: String,
        authority: Option<Authority>,
        timestamp: Option<Timestamp>,
    },
    TransactionCreated {
        transaction_id: Option<TransactionId>,
        journal_id: Option<JournalId>,
        entries: Option<Vec<EntryId>>,
        financial_period: i32,
        authority: Option<Authority>,
        timestamp: Option<Timestamp>,
    },
    FileUploaded {
        file_id: Option<FileId>,
        journal_id: Option<JournalId>,
        hash: Vec<u8>,
        file_name: String,
        authority: Option<Authority>,
        timestamp: Option<Timestamp>,
    },
    ActivityCreated {
        activity_id: Option<ActivityId>,
        journal_id: Option<JournalId>,
        activity_name: String,
        activity_type: i32,
        authority: Option<Authority>,
        timestamp: Option<Timestamp>,
    },
    EntryCreated {
        entry_id: Option<EntryId>,
        journal_id: Option<JournalId>,
        entry_kind: Option<WireEntryKind>,
        amount: u64,
        entry_side: i32,
        authority: Option<Authority>,
        timestamp: Option<Timestamp>,
    },
}

/// A stored journal event; its kind may be absent.
#[derive(Debug)]
pub struct WireEvent {
    pub kind: Option<WireEventKind>,
}

/// Why a stored event cannot be read.
#[derive(Debug)]
pub enum DecodeError {
    /// A field that every event of its kind has is absent.
    FieldRequired,
    /// The permissions set a bit that names no permission; holds the bits.
    PermissionDecode(i32),
    /// The file hash is not 16 bytes long.
    Deserialize,
    Name(NameError),
    AccountType(AccountTypeFromIntError),
    FinancialPeriod(FinancialPeriodFromIntError),
    ActivityType(ActivityTypeFromIntError),
    EntrySide(EntrySideFromIntError),
}

/// Which check a stored event fails, with the offending number where there is one.
#[derive(Debug, Clone, Copy, PartialEq, Eq, Structural)]
pub enum WireFailure {
    FieldRequired,
    PermissionDecode(i32),
    Deserialize,
    NameTooShort,
    NameTooLong,
    AccountType(i8),
    FinancialPeriod(i8),
    ActivityType(i8),
    EntrySide(i8),
}

impl DecodeError {
    /// The check that the error reports.
    pub open spec fn failure(&self) -> WireFailure {
        match self {
            DecodeError::FieldRequired => WireFailure::FieldRequired,
            DecodeError::PermissionDecode(b) => WireFailure::PermissionDecode(*b),
            DecodeError::Deserialize => WireFailure::Deserialize,
            DecodeError::Name(NameError::TooShort(_)) => WireFailure::NameTooShort,
            DecodeError::Name(NameError::TooLong(_)) => WireFailure::NameTooLong,
            DecodeError::AccountType(e) => WireFailure::AccountType(e.0),
            DecodeError::FinancialPeriod(e) => WireFailure::FinancialPeriod(e.0),
            DecodeError::ActivityType(e) => WireFailure::ActivityType(e.0),
            DecodeError::EntrySide(e) => WireFailure::EntrySide(e.0),
        }
    }
}

/// The text that a name error holds.
pub open spec fn name_error_text(e: NameError) -> Seq<char> {
    match e {
        NameError::TooShort(s) => s@,
        NameError::TooLong(s) => s@,
    }
}

/// The first of two checks that fails.
pub open spec fn first_failure(a: Option<WireFailure>, b: Option<WireFailure>) -> Option<WireFailure> {
    if a is Some {
        a
    } else {
        b
    }
}

/// A field that must be present.
pub open spec fn required<T>(o: Option<T>) -> Option<WireFailure> {
    if o is Some {
        None
    } else {
        Some(WireFailure::FieldRequired)
    }
}

/// A name must not be blank and at most 64 bytes long.
pub open spec fn name_failure(s: Seq<char>) -> Option<WireFailure> {
    if all_white_space(s) {
        Some(WireFailure::NameTooShort)
    } else if utf8_len(s) > 64 {
        Some(WireFailure::NameTooLong)
    } else {
        None
    }
}

/// Permissions must set only bits that name a permission.
pub open spec fn permissions_failure(bits: i32) -> Option<WireFailure> {
    if bits & !all_bits() == 0 {
        None
    } else {
        Some(WireFailure::PermissionDecode(bits))
    }
}

/// The low byte of a stored number must be 1 or 2.
pub open spec fn account_type_failure(code: i32) -> Option<WireFailure> {
    let b = code as i8;
    if b == 1 || b == 2 {
        None
    } else {
        Some(WireFailure::AccountType(b))
    }
}

/// The low byte of a stored number must be 1 to 12.
pub open spec fn financial_period_failure(code: i32) -> Option<WireFailure> {
    let b = code as i8;
    if 1 <= b <= 12 {
        None
    } else {
        Some(WireFailure::FinancialPeriod(b))
    }
}

/// The low byte of a stored number must be 0 to 2.
pub open spec fn activity_type_failure(code: i32) -> Option<WireFailure> {
    let b = code as i8;
    if 0 <= b <= 2 {
        None
    } else {
        Some(WireFailure::ActivityType(b))
    }
}

/// The low byte of a stored number must be 1 or 2.
pub open spec fn entry_side_failure(code: i32) -> Option<WireFailure> {
    let b = code as i8;
    if b == 1 || b == 2 {
        None
    } else {
        Some(WireFailure::EntrySide(b))
    }
}

/// A file hash must be 16 bytes long.
pub open spec fn hash_failure(h: Seq<u8>) -> Option<WireFailure> {
    if h.len() == 16 {
        None
    } else {
        Some(WireFailure::Deserialize)
    }
}

/// What an entry is booked against must be present, with its activity and fund.
pub open spec fn entry_kind_failure(k: Option<WireEntryKind>) -> Option<WireFailure> {
    match k {
        None => Some(WireFailure::FieldRequired),
        Some(k) => match k.variant {
            None => Some(WireFailure::FieldRequired),
            Some(WireEntryKindVariant::Account(_)) => None,
            Some(WireEntryKindVariant::Activity { activity_id, fund_id, .. }) => first_failure(
                required(activity_id),
                required(fund_id),
            ),
        },
    }
}

/// The first check, in the order of the fields, that the stored event fails.
pub open spec fn kind_failure(k: WireEventKind) -> Option<WireFailure> {
    match k {
        WireEventKind::JournalCreated { journal_id, owner_id, name, authority, timestamp } =>
            first_failure(required(journal_id), first_failure(required(owner_id), first_failure(
            name_failure(name@),
            first_failure(required(authority), required(timestamp)),
        ))),
        WireEventKind::JournalDeleted { journal_id, authority, timestamp } => first_failure(
            required(journal_id),
            first_failure(required(authority), required(timestamp)),
        ),
        WireEventKind::MemberAdded { journal_id, user_id, permissions, authority, timestamp } =>
            first_failure(required(journal_id), first_failure(required(user_id), first_failure(
            permissions_failure(permissions),
            first_failure(required(authority), required(timestamp)),
        ))),
        WireEventKind::MemberPermissionsUpdated {
            journal_id,
            user_id,
            permissions,
            authority,
            timestamp,
        } => first_failure(required(journal_id), first_failure(required(user_id), first_failure(
            permissions_failure(permissions),
            first_failure(required(authority), required(timestamp)),
        ))),
        WireEventKind::MemberRemoved { journal_id, user_id, authority, timestamp } => first_failure(
            required(journal_id),
            first_failure(required(user_id), first_failure(required(authority), required(timestamp))),
        ),
        WireEventKind::AccountCreated {
            account_id,
            journal_id,
            name,
            account_type,
            authority,
            timestamp,
        } => first_failure(required(account_id), first_failure(required(journal_id), first_failure(
            name_failure(name@),
            first_failure(
                account_type_failure(account_type),
                first_failure(required(authority), required(timestamp)),
            ),
        ))),
        WireEventKind::AccountRenamed { account_id, journal_id, new_name, authority, timestamp } =>
            first_failure(required(account_id), first_failure(required(journal_id), first_failure(
            name_failure(new_name@),
            first_failure(required(authority), required(timestamp)),
        ))),
        WireEventKind::AccountDeleted { account_id, journal_id, authority, timestamp } =>
            first_failure(required(account_id), first_failure(
            required(journal_id),
            first_failure(required(authority), required(timestamp)),
        )),
        WireEventKind::FundCreated { fund_id, journal_id, fund_name, authority, timestamp } =>
            first_failure(required(fund_id), first_failure(required(journal_id), first_failure(
            name_failure(fund_name@),
            first_failure(required(authority), required(timestamp)),
        ))),
        WireEventKind::TransactionCreated {
            transaction_id,
            journal_id,
            entries,
            financial_period,
            authority,
            timestamp,
        } => first_failure(required(transaction_id), first_failure(required(journal_id), first_failure(
            required(entries),
            first_failure(
                financial_period_failure(financial_period),
                first_failure(required(authority), required(timestamp)),
            ),
        ))),
        WireEventKind::FileUploaded { file_id, journal_id, hash, authority, timestamp, .. } =>
            first_failure(required(file_id), first_failure(required(journal_id), first_failure(
            hash_failure(hash@),
            first_failure(required(authority), required(timestamp)),
        ))),
        WireEventKind::ActivityCreated {
            activity_id,
            journal_id,
            activity_name,
            activity_type,
            authority,
            timestamp,
        } => first_failure(required(activity_id), first_failure(required(journal_id), first_failure(
            name_failure(activity_name@),
            first_failure(
                activity_type_failure(activity_type),
                first_failure(required(authority), required(timestamp)),
            ),
        ))),
        WireEventKind::EntryCreated {
            entry_id,
            journal_id,
            entry_kind,
            entry_side,
            authority,
            timestamp,
            ..
        } => first_failure(required(entry_id), first_failure(required(journal_id), first_failure(
            entry_side_failure(entry_side),
            first_failure(
                entry_kind_failure(entry_kind),
                first_failure(required(authority), required(timestamp)),
            ),
        ))),
    }
}

/// The first check that the stored event fails; an event without a kind fails at once.
pub open spec fn wire_failure(w: WireEvent) -> Option<WireFailure> {
    match w.kind {
        None => Some(WireFailure::FieldRequired),
        Some(k) => kind_failure(k),
    }
}

/// The name that a stored event of a kind with a name carries.
pub open spec fn wire_name(k: WireEventKind) -> Seq<char> {
    match k {
        WireEventKind::JournalCreated { name, .. } => name@,
        WireEventKind::AccountCreated { name, .. } => name@,
        WireEventKind::AccountRenamed { new_name, .. } => new_name@,
        WireEventKind::FundCreated { fund_name, .. } => fund_name@,
        WireEventKind::ActivityCreated { activity_name, .. } => activity_name@,
        _ => Seq::empty(),
    }
}

/// The stored form of what an entry is booked against matches the entry kind.
pub open spec fn entry_kind_matches(e: EntryKind, w: Option<WireEntryKind>) -> bool {
    match e {
        EntryKind::Account { account_id } => w == Some(
            WireEntryKind { variant: Some(WireEntryKindVariant::Account(account_id)) },
        ),
        EntryKind::Activity { activity_id, fund_id, transfer } => w == Some(
            WireEntryKind {
                variant: Some(
                    WireEntryKindVariant::Activity {
                        activity_id: Some(activity_id),
                        fund_id: Some(fund_id),
                        transfer,
                    },
                ),
            },
        ),
    }
}

/// The event is the one that the stored form stands for: the kinds agree, every field
/// is present with the event's value, names and texts are equal, and each stored number
/// has the event's code as its low byte.
pub open spec fn event_matches_wire(e: JournalDomainEvent, k: WireEventKind) -> bool {
    match (e, k) {
        (
            JournalDomainEvent::JournalCreated { journal_id, owner, name, authority, timestamp },
            WireEventKind::JournalCreated {
                journal_id: wj,
                owner_id: wo,
                name: wn,
                authority: wa,
                timestamp: wt,
            },
        ) => wj == Some(journal_id) && wo == Some(owner) && wn@ == name@ && wa == Some(authority)
            && wt == Some(timestamp),
        (
            JournalDomainEvent::JournalDeleted { journal_id, authority, timestamp },
            WireEventKind::JournalDeleted { journal_id: wj, authority: wa, timestamp: wt },
        ) => wj == Some(journal_id) && wa == Some(authority) && wt == Some(timestamp),
        (
            JournalDomainEvent::MemberAdded { journal_id, user_id, permissions, authority, timestamp },
            WireEventKind::MemberAdded {
                journal_id: wj,
                user_id: wu,
                permissions: wp,
                authority: wa,
                timestamp: wt,
            },
        ) => wj == Some(journal_id) && wu == Some(user_id) && wp == permissions.bits && wa == Some(
            authority,
        ) && wt == Some(timestamp),
        (
            JournalDomainEvent::MemberPermissionsUpdated {
                journal_id,
                user_id,
                permissions,
                authority,
                timestamp,
            },
            WireEventKind::MemberPermissionsUpdated {
                journal_id: wj,
                user_id: wu,
                permissions: wp,
                authority: wa,
                timestamp: wt,
            },
        ) => wj == Some(journal_id) && wu == Some(user_id) && wp == permissions.bits && wa == Some(
            authority,
        ) && wt == Some(timestamp),
        (
            JournalDomainEvent::MemberRemoved { journal_id, user_id, authority, timestamp },
            WireEventKind::MemberRemoved { journal_id: wj, user_id: wu, authority: wa, timestamp: wt },
        ) => wj == Some(journal_id) && wu == Some(user_id) && wa == Some(authority) && wt == Some(
            timestamp,
        ),
        (
            JournalDomainEvent::AccountCreated {
                account_id,
                journal_id,
                name,
                account_type,
                authority,
                timestamp,
            },
            WireEventKind::AccountCreated {
                account_id: wc,
                journal_id: wj,
                name: wn,
                account_type: wy,
                authority: wa,
                timestamp: wt,
            },
        ) => wc == Some(account_id) && wj == Some(journal_id) && wn@ == name@ && wy as i8
            == account_type.spec_code() && wa == Some(authority) && wt == Some(timestamp),
        (
            JournalDomainEvent::AccountRenamed { account_id, journal_id, new_name, authority, timestamp },
            WireEventKind::AccountRenamed {
                account_id: wc,
                journal_id: wj,
                new_name: wn,
                authority: wa,
                timestamp: wt,
            },
        ) => wc == Some(account_id) && wj == Some(journal_id) && wn@ == new_name@ && wa == Some(
            authority,
        ) && wt == Some(timestamp),
        (
            JournalDomainEvent::AccountDeleted { account_id, journal_id, authority, timestamp },
            WireEventKind::AccountDeleted {
                account_id: wc,
                journal_id: wj,
                authority: wa,
                timestamp: wt,
            },
        ) => wc == Some(account_id) && wj == Some(journal_id) && wa == Some(authority) && wt == Some(
            timestamp,
        ),
        (
            JournalDomainEvent::FundCreated { fund_id, journal_id, fund_name, authority, timestamp },
            WireEventKind::FundCreated {
                fund_id: wf,
                journal_id: wj,
                fund_name: wn,
                authority: wa,
                timestamp: wt,
            },
        ) => wf == Some(fund_id) && wj == Some(journal_id) && wn@ == fund_name@ && wa == Some(
            authority,
        ) && wt == Some(timestamp),
        (
            JournalDomainEvent::TransactionCreated {
                transaction_id,
                journal_id,
                entries,
                financial_period,
                authority,
                timestamp,
            },
            WireEventKind::TransactionCreated {
                transaction_id: wx,
                journal_id: wj,
                entries: we,
                financial_period: wp,
                authority: wa,
                timestamp: wt,
            },
        ) => wx == Some(transaction_id) && wj == Some(journal_id) && (we matches Some(v) && v@
            == entries.0@) && wp as i8 == financial_period.spec_code() && wa == Some(authority) && wt
            == Some(timestamp),
        (
            JournalDomainEvent::FileUploaded { file_id, journal_id, hash, file_name, authority, timestamp },
            WireEventKind::FileUploaded {
                file_id: wf,
                journal_id: wj,
                hash: wh,
                file_name: wn,
                authority: wa,
                timestamp: wt,
            },
        ) => wf == Some(file_id) && wj == Some(journal_id) && wh@ == hash@ && wn@ == file_name@ && wa
            == Some(authority) && wt == Some(timestamp),
        (
            JournalDomainEvent::ActivityCreated {
                activity_id,
                journal_id,
                activity_name,
                activity_type,
                authority,
                timestamp,
            },
            WireEventKind::ActivityCreated {
                activity_id: wc,
                journal_id: wj,
                activity_name: wn,
                activity_type: wy,
                authority: wa,
                timestamp: wt,
            },
        ) => wc == Some(activity_id) && wj == Some(journal_id) && wn@ == activity_name@ && wy as i8
            == activity_type.spec_code() && wa == Some(authority) && wt == Some(timestamp),
        (
            JournalDomainEvent::EntryCreated {
                entry_id,
                journal_id,
                amount,
                entry_side,
                entry_kind,
                authority,
                timestamp,
            },
            WireEventKind::EntryCreated {
                entry_id: wc,
                journal_id: wj,
                entry_kind: wk,
                amount: wm,
                entry_side: ws,
                authority: wa,
                timestamp: wt,
            },
        ) => wc == Some(entry_id) && wj == Some(journal_id) && wm == amount && ws as i8
            == entry_side.spec_code() && entry_kind_matches(entry_kind, wk) && wa == Some(authority)
            && wt == Some(timestamp),
        _ => false,
    }
}

/// The value of a field that must be present.
fn required_field<T>(o: Option<T>) -> (r: Result<T, DecodeError>)
    ensures
        o matches Some(v) ==> r == Ok::<T, DecodeError>(v),
        o is None ==> r matches Err(DecodeError::FieldRequired),
{
    match o {
        Some(v) => Ok(v),
        None => Err(DecodeError::FieldRequired),
    }
}

/// Reads a stored name.
fn name_field(s: String) -> (r: Result<Name, DecodeError>)
    ensures
        name_failure(s@) is None ==> (r matches Ok(n) && n@ == s@),
        name_failure(s@) matches Some(f) ==> (r matches Err(d) && d.failure() == f && (
        d matches DecodeError::Name(e) && name_error_text(e) == s@)),
{
    match Name::try_new(s) {
        Ok(n) => Ok(n),
        Err(e) => Err(DecodeError::Name(e)),
    }
}

/// Reads stored permissions.
fn permissions_field(bits: i32) -> (r: Result<Permissions, DecodeError>)
    ensures
        permissions_failure(bits) is None ==> (r matches Ok(p) && p.bits == bits),
        permissions_failure(bits) matches Some(f) ==> (r matches Err(d) && d.failure() == f),
{
    match Permissions::from_bits(bits) {
        Some(p) => Ok(p),
        None => Err(DecodeError::PermissionDecode(bits)),
    }
}

/// Reads a stored account type from the low byte of its number.
fn account_type_field(code: i32) -> (r: Result<AccountType, DecodeError>)
    ensures
        account_type_failure(code) is None ==> (r matches Ok(t) && t.spec_code() == code as i8),
        account_type_failure(code) matches Some(f) ==> (r matches Err(d) && d.failure() == f),
{
    match AccountType::try_from(code as i8) {
        Ok(t) => Ok(t),
        Err(e) => Err(DecodeError::AccountType(e)),
    }
}

/// Reads a stored financial period from the low byte of its number.
fn financial_period_field(code: i32) -> (r: Result<FinancialPeriod, DecodeError>)
    ensures
        financial_period_failure(code) is None ==> (r matches Ok(t) && t.spec_code() == code as i8),
        financial_period_failure(code) matches Some(f) ==> (r matches Err(d) && d.failure() == f),
{
    match FinancialPeriod::try_from(code as i8) {
        Ok(t) => Ok(t),
        Err(e) => Err(DecodeError::FinancialPeriod(e)),
    }
}

/// Reads a stored activity type from the low byte of its number.
fn activity_type_field(code: i32) -> (r: Result<ActivityType, DecodeError>)
    ensures
        activity_type_failure(code) is None ==> (r matches Ok(t) && t.spec_code() == code as i8),
        activity_type_failure(code) matches Some(f) ==> (r matches Err(d) && d.failure() == f),
{
    match ActivityType::try_from(code as i8) {
        Ok(t) => Ok(t),
        Err(e) => Err(DecodeError::ActivityType(e)),
    }
}

/// Reads a stored entry side from the low byte of its number.
fn entry_side_field(code: i32) -> (r: Result<EntrySide, DecodeError>)
    ensures
        entry_side_failure(code) is None ==> (r matches Ok(t) && t.spec_code() == code as i8),
        entry_side_failure(code) matches Some(f) ==> (r matches Err(d) && d.failure() == f),
{
    match EntrySide::try_from(code as i8) {
        Ok(t) => Ok(t),
        Err(e) => Err(DecodeError::EntrySide(e)),
    }
}

/// Reads a stored file hash, which must be 16 bytes long.
fn hash_field(h: Vec<u8>) -> (r: Result<[u8; 16], DecodeError>)
    ensures
        hash_failure(h@) is None ==> (r matches Ok(a) && a@ == h@),
        hash_failure(h@) matches Some(f) ==> (r matches Err(d) && d.failure() == f),
{
    if h.len() != 16 {
        return Err(DecodeError::Deserialize);
    }
    let a: [u8; 16] = [
        h[0],
        h[1],
        h[2],
        h[3],
        h[4],
        h[5],
        h[6],
        h[7],
        h[8],
        h[9],
        h[10],
        h[11],
        h[12],
        h[13],
        h[14],
        h[15],
    ];
    assert(a@ =~= h@);
    Ok(a)
}

/// Reads what an entry is booked against.
fn entry_kind_field(k: Option<WireEntryKind>) -> (r: Result<EntryKind, DecodeError>)
    ensures
        entry_kind_failure(k) is None ==> (r matches Ok(e) && entry_kind_matches(e, k)),
        entry_kind_failure(k) matches Some(f) ==> (r matches Err(d) && d.failure() == f),
{
    let k = match k {
        Some(k) => k,
        None => return Err(DecodeError::FieldRequired),
    };
    match k.variant {
        None => Err(DecodeError::FieldRequired),
        Some(WireEntryKindVariant::Account(account_id)) => Ok(EntryKind::Account { account_id }),
        Some(WireEntryKindVariant::Activity { activity_id, fund_id, transfer }) => {
            let activity_id = match activity_id {
                Some(a) => a,
                None => return Err(DecodeError::FieldRequired),
            };
            let fund_id = match fund_id {
                Some(f) => f,
                None => return Err(DecodeError::FieldRequired),
            };
            Ok(EntryKind::Activity { activity_id, fund_id, transfer })
        },
    }
}

/// Reads a stored journal event: the first field, in order, that is absent or out of
/// range gives the error; otherwise the event carries the stored values.
pub fn event_from_wire(w: WireEvent) -> (r: Result<JournalDomainEvent, DecodeError>)
    ensures
        r is Ok <==> wire_failure(w) is None,
        r matches Err(d) ==> wire_failure(w) == Some(d.failure()),
        r matches Err(DecodeError::Name(e)) ==> name_error_text(e) == wire_name(w.kind.unwrap()),
        r matches Ok(e) ==> event_matches_wire(e, w.kind.unwrap()),
{
    match w.kind {
        None => Err(DecodeError::FieldRequired),
        Some(WireEventKind::JournalCreated { journal_id, owner_id, name, authority, timestamp }) => {
            let journal_id = match required_field(journal_id) {
                Ok(v) => v,
                Err(e) => return Err(e),
            };
            let owner_id = match required_field(owner_id) {
                Ok(v) => v,
                Err(e) => return Err(e),
            };
            let name = match name_field(name) {
                Ok(v) => v,
                Err(e) => return Err(e),
            };
            let authority = match required_field(authority) {
                Ok(v) => v,
                Err(e) => return Err(e),
            };
            let timestamp = match required_field(timestamp) {
                Ok(v) => v,
                Err(e) => return Err(e),
            };
            Ok(JournalDomainEvent::JournalCreated { journal_id, owner: owner_id, name, authority, timestamp })
        },
        Some(WireEventKind::JournalDeleted { journal_id, authority, timestamp }) => {
            let journal_id = match required_field(journal_id) {
                Ok(v) => v,
                Err(e) => return Err(e),
            };
            let authority = match required_field(authority) {
                Ok(v) => v,
                Err(e) => return Err(e),
            };
            let timestamp = match required_field(timestamp) {
                Ok(v) => v,
                Err(e) => return Err(e),
            };
            Ok(JournalDomainEvent::JournalDeleted { journal_id, authority, timestamp })
        },
        Some(WireEventKind::MemberAdded { journal_id, user_id, permissions, authority, timestamp }) => {
            let journal_id = match required_field(journal_id) {
                Ok(v) => v,
                Err(e) => return Err(e),
            };
            let user_id = match required_field(user_id) {
                Ok(v) => v,
                Err(e) => return Err(e),
            };
            let permissions = match permissions_field(permissions) {
                Ok(v) => v,
                Err(e) => return Err(e),
            };
            let authority = match required_field(authority) {
                Ok(v) => v,
                Err(e) => return Err(e),
            };
            let timestamp = match required_field(timestamp) {
                Ok(v) => v,
                Err(e) => return Err(e),
            };
            Ok(JournalDomainEvent::MemberAdded { journal_id, user_id, permissions, authority, timestamp })
        },
        Some(WireEventKind::MemberPermissionsUpdated { journal_id, user_id, permissions, authority, timestamp }) => {
            let journal_id = match required_field(journal_id) {
                Ok(v) => v,
                Err(e) => return Err(e),
            };
            let user_id = match required_field(user_id) {
                Ok(v) => v,
                Err(e) => return Err(e),
            };
            let permissions = match permissions_field(permissions) {
                Ok(v) => v,
                Err(e) => return Err(e),
            };
            let authority = match required_field(authority) {
                Ok(v) => v,
                Err(e) => return Err(e),
            };
            let timestamp = match required_field(timestamp) {
                Ok(v) => v,
                Err(e) => return Err(e),
            };
            Ok(JournalDomainEvent::MemberPermissionsUpdated { journal_id, user_id, permissions, authority, timestamp })
        },
        Some(WireEventKind::MemberRemoved { journal_id, user_id, authority, timestamp }) => {
            let journal_id = match required_field(journal_id) {
                Ok(v) => v,
                Err(e) => return Err(e),
            };
            let user_id = match required_field(user_id) {
                Ok(v) => v,
                Err(e) => return Err(e),
            };
            let authority = match required_field(authority) {
                Ok(v) => v,
                Err(e) => return Err(e),
            };
            let timestamp = match required_field(timestamp) {
                Ok(v) => v,
                Err(e) => return Err(e),
            };
            Ok(JournalDomainEvent::MemberRemoved { journal_id, user_id, authority, timestamp })
        },
        Some(WireEventKind::AccountCreated { account_id, journal_id, name, account_type, authority, timestamp }) => {
            let account_id = match required_field(account_id) {
                Ok(v) => v,
                Err(e) => return Err(e),
            };
            let journal_id = match required_field(journal_id) {
                Ok(v) => v,
                Err(e) => return Err(e),
            };
            let name = match name_field(name) {
                Ok(v) => v,
                Err(e) => return Err(e),
            };
            let account_type = match account_type_field(account_type) {
                Ok(v) => v,
                Err(e) => return Err(e),
            };
            let authority = match required_field(authority) {
                Ok(v) => v,
                Err(e) => return Err(e),
            };
            let timestamp = match required_field(timestamp) {
                Ok(v) => v,
                Err(e) => return Err(e),
            };
            Ok(JournalDomainEvent::AccountCreated { account_id, journal_id, name, account_type, authority, timestamp })
        },
        Some(WireEventKind::AccountRenamed { account_id, journal_id, new_name, authority, timestamp }) => {
            let account_id = match required_field(account_id) {
                Ok(v) => v,
                Err(e) => return Err(e),
            };
            let journal_id = match required_field(journal_id) {
                Ok(v) => v,
                Err(e) => return Err(e),
            };
            let new_name = match name_field(new_name) {
                Ok(v) => v,
                Err(e) => return Err(e),
            };
            let authority = match required_field(authority) {
                Ok(v) => v,
                Err(e) => return Err(e),
            };
            let timestamp = match required_field(timestamp) {
                Ok(v) => v,
                Err(e) => return Err(e),
            };
            Ok(JournalDomainEvent::AccountRenamed { account_id, journal_id, new_name, authority, timestamp })
        },
        Some(WireEventKind::AccountDeleted { account_id, journal_id, authority, timestamp }) => {
            let account_id = match required_field(account_id) {
                Ok(v) => v,
                Err(e) => return Err(e),
            };
            let journal_id = match required_field(journal_id) {
                Ok(v) => v,
                Err(e) => return Err(e),
            };
            let authority = match required_field(authority) {
                Ok(v) => v,
                Err(e) => return Err(e),
            };
            let timestamp = match required_field(timestamp) {
                Ok(v) => v,
                Err(e) => return Err(e),
            };
            Ok(JournalDomainEvent::AccountDeleted { account_id, journal_id, authority, timestamp })
        },
        Some(WireEventKind::FundCreated { fund_id, journal_id, fund_name, authority, timestamp }) => {
            let fund_id = match required_field(fund_id) {
                Ok(v) => v,
                Err(e) => return Err(e),
            };
            let journal_id = match required_field(journal_id) {
                Ok(v) => v,
                Err(e) => return Err(e),
            };
            let fund_name = match name_field(fund_name) {
                Ok(v) => v,
                Err(e) => return Err(e),
            };
            let authority = match required_field(authority) {
                Ok(v) => v,
                Err(e) => return Err(e),
            };
            let timestamp = match required_field(timestamp) {
                Ok(v) => v,
                Err(e) => return Err(e),
            };
            Ok(JournalDomainEvent::FundCreated { fund_id, journal_id, fund_name, authority, timestamp })
        },
        Some(WireEventKind::TransactionCreated { transaction_id, journal_id, entries, financial_period, authority, timestamp }) => {
            let transaction_id = match required_field(transaction_id) {
                Ok(v) => v,
                Err(e) => return Err(e),
            };
            let journal_id = match required_field(journal_id) {
                Ok(v) => v,
                Err(e) => return Err(e),
            };
            let entries = match required_field(entries) {
                Ok(v) => TransactionEntryIds(v),
                Err(e) => return Err(e),
            };
            let financial_period = match financial_period_field(financial_period) {
                Ok(v) => v,
                Err(e) => return Err(e),
            };
            let authority = match required_field(authority) {
                Ok(v) => v,
                Err(e) => return Err(e),
            };
            let timestamp = match required_field(timestamp) {
                Ok(v) => v,
                Err(e) => return Err(e),
            };
            Ok(JournalDomainEvent::TransactionCreated { transaction_id, journal_id, entries, financial_period, authority, timestamp })
        },
        Some(WireEventKind::FileUploaded { file_id, journal_id, hash, file_name, authority, timestamp }) => {
            let file_id = match required_field(file_id) {
                Ok(v) => v,
                Err(e) => return Err(e),
            };
            let journal_id = match required_field(journal_id) {
                Ok(v) => v,
                Err(e) => return Err(e),
            };
            let hash = match hash_field(hash) {
                Ok(v) => v,
                Err(e) => return Err(e),
            };
            let authority = match required_field(authority) {
                Ok(v) => v,
                Err(e) => return Err(e),
            };
            let timestamp = match required_field(timestamp) {
                Ok(v) => v,
                Err(e) => return Err(e),
            };
            Ok(JournalDomainEvent::FileUploaded { file_id, journal_id, hash, file_name, authority, timestamp })
        },
        Some(WireEventKind::ActivityCreated { activity_id, journal_id, activity_name, activity_type, authority, timestamp }) => {
            let activity_id = match required_field(activity_id) {
                Ok(v) => v,
                Err(e) => return Err(e),
            };
            let journal_id = match required_field(journal_id) {
                Ok(v) => v,
                Err(e) => return Err(e),
            };
            let activity_name = match name_field(activity_name) {
                Ok(v) => v,
                Err(e) => return Err(e),
            };
            let activity_type = match activity_type_field(activity_type) {
                Ok(v) => v,
                Err(e) => return Err(e),
            };
            let authority = match required_field(authority) {
                Ok(v) => v,
                Err(e) => return Err(e),
            };
            let timestamp = match required_field(timestamp) {
                Ok(v) => v,
                Err(e) => return Err(e),
            };
            Ok(JournalDomainEvent::ActivityCreated { activity_id, journal_id, activity_name, activity_type, authority, timestamp })
        },
        Some(WireEventKind::EntryCreated { entry_id, journal_id, amount, entry_side, entry_kind, authority, timestamp }) => {
            let entry_id = match required_field(entry_id) {
                Ok(v) => v,
                Err(e) => return Err(e),
            };
            let journal_id = match required_field(journal_id) {
                Ok(v) => v,
                Err(e) => return Err(e),
            };
            let entry_side = match entry_side_field(entry_side) {
                Ok(v) => v,
                Err(e) => return Err(e),
            };
            let entry_kind = match entry_kind_field(entry_kind) {
                Ok(v) => v,
                Err(e) => return Err(e),
            };
            let authority = match required_field(authority) {
                Ok(v) => v,
                Err(e) => return Err(e),
            };
            let timestamp = match required_field(timestamp) {
                Ok(v) => v,
                Err(e) => return Err(e),
            };
            Ok(JournalDomainEvent::EntryCreated { entry_id, journal_id, amount, entry_side, entry_kind, authority, timestamp })
        },
    }
}

fn owned_name(n: &Name) -> (s: String)
    ensures
        s@ == n@,
{
    n.as_str().to_owned()
}

fn hash_vec(h: &[u8; 16]) -> (v: Vec<u8>)
    ensures
        v@ == h@,
{
    let mut v: Vec<u8> = Vec::new();
    let mut i: usize = 0;
    while i < 16
        invariant
            i <= 16,
            h@.len() == 16,
            v@ == h@.take(i as int),
        decreases 16 - i,
    {
        v.push(h[i]);
        i = i + 1;
        assert(v@ =~= h@.take(i as int));
    }
    assert(h@.take(16) =~= h@);
    v
}

fn entry_kind_wire(k: EntryKind) -> (w: WireEntryKind)
    ensures
        entry_kind_matches(k, Some(w)),
{
    match k {
        EntryKind::Account { account_id } => WireEntryKind {
            variant: Some(WireEntryKindVariant::Account(account_id)),
        },
        EntryKind::Activity { activity_id, fund_id, transfer } => WireEntryKind {
            variant: Some(
                WireEntryKindVariant::Activity {
                    activity_id: Some(activity_id),
                    fund_id: Some(fund_id),
                    transfer,
                },
            ),
        },
    }
}

/// The stored form of a journal event: every field present, names as text, permissions
/// as their bits and each enumeration as its code.
pub fn event_to_wire(e: JournalDomainEvent) -> (w: WireEvent)
    ensures
        w.kind matches Some(k) && event_matches_wire(e, k),
{
    let kind = match e {
        JournalDomainEvent::JournalCreated { journal_id, owner, name, authority, timestamp } =>
            WireEventKind::JournalCreated {
            journal_id: Some(journal_id),
            owner_id: Some(owner),
            name: owned_name(&name),
            authority: Some(authority),
            timestamp: Some(timestamp),
        },
        JournalDomainEvent::JournalDeleted { journal_id, authority, timestamp } =>
            WireEventKind::JournalDeleted {
            journal_id: Some(journal_id),
            authority: Some(authority),
            timestamp: Some(timestamp),
        },
        JournalDomainEvent::MemberAdded { journal_id, user_id, permissions, authority, timestamp } =>
            WireEventKind::MemberAdded {
            journal_id: Some(journal_id),
            user_id: Some(user_id),
            permissions: permissions.bits(),
            authority: Some(authority),
            timestamp: Some(timestamp),
        },
        JournalDomainEvent::MemberPermissionsUpdated {
            journal_id,
            user_id,
            permissions,
            authority,
            timestamp,
        } => WireEventKind::MemberPermissionsUpdated {
            journal_id: Some(journal_id),
            user_id: Some(user_id),
            permissions: permissions.bits(),
            authority: Some(authority),
            timestamp: Some(timestamp),
        },
        JournalDomainEvent::MemberRemoved { journal_id, user_id, authority, timestamp } =>
            WireEventKind::MemberRemoved {
            journal_id: Some(journal_id),
            user_id: Some(user_id),
            authority: Some(authority),
            timestamp: Some(timestamp),
        },
        JournalDomainEvent::AccountCreated {
            account_id,
            journal_id,
            name,
            account_type,
            authority,
            timestamp,
        } => WireEventKind::AccountCreated {
            account_id: Some(account_id),
            journal_id: Some(journal_id),
            name: owned_name(&name),
            account_type: account_type.code() as i32,
            authority: Some(authority),
            timestamp: Some(timestamp),
        },
        JournalDomainEvent::AccountRenamed { account_id, journal_id, new_name, authority, timestamp } =>
            WireEventKind::AccountRenamed {
            account_id: Some(account_id),
            journal_id: Some(journal_id),
            new_name: owned_name(&new_name),
            authority: Some(authority),
            timestamp: Some(timestamp),
        },
        JournalDomainEvent::AccountDeleted { account_id, journal_id, authority, timestamp } =>
            WireEventKind::AccountDeleted {
            account_id: Some(account_id),
            journal_id: Some(journal_id),
            authority: Some(authority),
            timestamp: Some(timestamp),
        },
        JournalDomainEvent::FundCreated { fund_id, journal_id, fund_name, authority, timestamp } =>
            WireEventKind::FundCreated {
            fund_id: Some(fund_id),
            journal_id: Some(journal_id),
            fund_name: owned_name(&fund_name),
            authority: Some(authority),
            timestamp: Some(timestamp),
        },
        JournalDomainEvent::TransactionCreated {
            transaction_id,
            journal_id,
            entries,
            financial_period,
            authority,
            timestamp,
        } => WireEventKind::TransactionCreated {
            transaction_id: Some(transaction_id),
            journal_id: Some(journal_id),
            entries: Some(entries.0),
            financial_period: financial_period.code() as i32,
            authority: Some(authority),
            timestamp: Some(timestamp),
        },
        JournalDomainEvent::FileUploaded { file_id, journal_id, hash, file_name, authority, timestamp } =>
            WireEventKind::FileUploaded {
            file_id: Some(file_id),
            journal_id: Some(journal_id),
            hash: hash_vec(&hash),
            file_name,
            authority: Some(authority),
            timestamp: Some(timestamp),
        },
        JournalDomainEvent::ActivityCreated {
            activity_id,
            journal_id,
            activity_name,
            activity_type,
            authority,
            timestamp,
        } => WireEventKind::ActivityCreated {
            activity_id: Some(activity_id),
            journal_id: Some(journal_id),
            activity_name: owned_name(&activity_name),
            activity_type: activity_type.code() as i32,
            authority: Some(authority),
            timestamp: Some(timestamp),
        },
        JournalDomainEvent::EntryCreated {
            entry_id,
            journal_id,
            amount,
            entry_side,
            entry_kind,
            authority,
            timestamp,
        } => WireEventKind::EntryCreated {
            entry_id: Some(entry_id),
            journal_id: Some(journal_id),
            entry_kind: Some(entry_kind_wire(entry_kind)),
            amount,
            entry_side: entry_side.code() as i32,
            authority: Some(authority),
            timestamp: Some(timestamp),
        },
    };
    WireEvent { kind: Some(kind) }
}

/// The names of the event are names and its permissions set only known bits, as every
/// event that the library builds has.
pub open spec fn event_valid(e: JournalDomainEvent) -> bool {
    match e {
        JournalDomainEvent::JournalCreated { name, .. } => name_failure(name@) is None,
        JournalDomainEvent::MemberAdded { permissions, .. } => permissions_failure(permissions.bits) is None,
        JournalDomainEvent::MemberPermissionsUpdated { permissions, .. } => permissions_failure(
            permissions.bits,
        ) is None,
        JournalDomainEvent::AccountCreated { name, .. } => name_failure(name@) is None,
        JournalDomainEvent::AccountRenamed { new_name, .. } => name_failure(new_name@) is None,
        JournalDomainEvent::FundCreated { fund_name, .. } => name_failure(fund_name@) is None,
        JournalDomainEvent::ActivityCreated { activity_name, .. } => name_failure(activity_name@) is None,
        _ => true,
    }
}

/// Two events of the same kind with equal fields (names, texts, hashes and entry lists
/// compared by their contents).
pub open spec fn events_agree(a: JournalDomainEvent, b: JournalDomainEvent) -> bool {
    match (a, b) {
        (
            JournalDomainEvent::JournalCreated { journal_id, owner, name, authority, timestamp },
            JournalDomainEvent::JournalCreated {
                journal_id: j2,
                owner: o2,
                name: n2,
                authority: a2,
                timestamp: t2,
            },
        ) => journal_id == j2 && owner == o2 && name@ == n2@ && authority == a2 && timestamp == t2,
        (
            JournalDomainEvent::JournalDeleted { journal_id, authority, timestamp },
            JournalDomainEvent::JournalDeleted { journal_id: j2, authority: a2, timestamp: t2 },
        ) => journal_id == j2 && authority == a2 && timestamp == t2,
        (
            JournalDomainEvent::MemberAdded { journal_id, user_id, permissions, authority, timestamp },
            JournalDomainEvent::MemberAdded {
                journal_id: j2,
                user_id: u2,
                permissions: p2,
                authority: a2,
                timestamp: t2,
            },
        ) => journal_id == j2 && user_id == u2 && permissions == p2 && authority == a2 && timestamp
            == t2,
        (
            JournalDomainEvent::MemberPermissionsUpdated {
                journal_id,
                user_id,
                permissions,
                authority,
                timestamp,
            },
            JournalDomainEvent::MemberPermissionsUpdated {
                journal_id: j2,
                user_id: u2,
                permissions: p2,
                authority: a2,
                timestamp: t2,
            },
        ) => journal_id == j2 && user_id == u2 && permissions == p2 && authority == a2 && timestamp
            == t2,
        (
            JournalDomainEvent::MemberRemoved { journal_id, user_id, authority, timestamp },
            JournalDomainEvent::MemberRemoved {
                journal_id: j2,
                user_id: u2,
                authority: a2,
                timestamp: t2,
            },
        ) => journal_id == j2 && user_id == u2 && authority == a2 && timestamp == t2,
        (
            JournalDomainEvent::AccountCreated {
                account_id,
                journal_id,
                name,
                account_type,
                authority,
                timestamp,
            },
            JournalDomainEvent::AccountCreated {
                account_id: c2,
                journal_id: j2,
                name: n2,
                account_type: y2,
                authority: a2,
                timestamp: t2,
            },
        ) => account_id == c2 && journal_id == j2 && name@ == n2@ && account_type == y2 && authority
            == a2 && timestamp == t2,
        (
            JournalDomainEvent::AccountRenamed { account_id, journal_id, new_name, authority, timestamp },
            JournalDomainEvent::AccountRenamed {
                account_id: c2,
                journal_id: j2,
                new_name: n2,
                authority: a2,
                timestamp: t2,
            },
        ) => account_id == c2 && journal_id == j2 && new_name@ == n2@ && authority == a2 && timestamp
            == t2,
        (
            JournalDomainEvent::AccountDeleted { account_id, journal_id, authority, timestamp },
            JournalDomainEvent::AccountDeleted {
                account_id: c2,
                journal_id: j2,
                authority: a2,
                timestamp: t2,
            },
        ) => account_id == c2 && journal_id == j2 && authority == a2 && timestamp == t2,
        (
            JournalDomainEvent::FundCreated { fund_id, journal_id, fund_name, authority, timestamp },
            JournalDomainEvent::FundCreated {
                fund_id: f2,
                journal_id: j2,
                fund_name: n2,
                authority: a2,
                timestamp: t2,
            },
        ) => fund_id == f2 && journal_id == j2 && fund_name@ == n2@ && authority == a2 && timestamp
            == t2,
        (
            JournalDomainEvent::TransactionCreated {
                transaction_id,
                journal_id,
                entries,
                financial_period,
                authority,
                timestamp,
            },
            JournalDomainEvent::TransactionCreated {
                transaction_id: x2,
                journal_id: j2,
                entries: e2,
                financial_period: p2,
                authority: a2,
                timestamp: t2,
            },
        ) => transaction_id == x2 && journal_id == j2 && entries.0@ == e2.0@ && financial_period == p2
            && authority == a2 && timestamp == t2,
        (
            JournalDomainEvent::FileUploaded { file_id, journal_id, hash, file_name, authority, timestamp },
            JournalDomainEvent::FileUploaded {
                file_id: f2,
                journal_id: j2,
                hash: h2,
                file_name: n2,
                authority: a2,
                timestamp: t2,
            },
        ) => file_id == f2 && journal_id == j2 && hash@ == h2@ && file_name@ == n2@ && authority == a2
            && timestamp == t2,
        (
            JournalDomainEvent::ActivityCreated {
                activity_id,
                journal_id,
                activity_name,
                activity_type,
                authority,
                timestamp,
            },
            JournalDomainEvent::ActivityCreated {
                activity_id: c2,
                journal_id: j2,
                activity_name: n2,
                activity_type: y2,
                authority: a2,
                timestamp: t2,
            },
        ) => activity_id == c2 && journal_id == j2 && activity_name@ == n2@ && activity_type == y2
            && authority == a2 && timestamp == t2,
        (
            JournalDomainEvent::EntryCreated {
                entry_id,
                journal_id,
                amount,
                entry_side,
                entry_kind,
                authority,
                timestamp,
            },
            JournalDomainEvent::EntryCreated {
                entry_id: c2,
                journal_id: j2,
                amount: m2,
                entry_side: s2,
                entry_kind: k2,
                authority: a2,
                timestamp: t2,
            },
        ) => entry_id == c2 && journal_id == j2 && amount == m2 && entry_side == s2 && entry_kind
            == k2 && authority == a2 && timestamp == t2,
        _ => false,
    }
}

/// A valid event's stored form passes every check: reading back what was stored does
/// not fail.
pub proof fn lemma_stored_event_reads_back(e: JournalDomainEvent, k: WireEventKind)
    requires
        event_valid(e),
        event_matches_wire(e, k),
    ensures
        kind_failure(k) is None,
{
}

/// A stored form stands for at most one event: two events that it matches agree in
/// every field. With `lemma_stored_event_reads_back`, reading back the stored form of a
/// valid event gives that event.
pub proof fn lemma_stored_form_determines_event(a: JournalDomainEvent, b: JournalDomainEvent, k: WireEventKind)
    requires
        event_matches_wire(a, k),
        event_matches_wire(b, k),
    ensures
        events_agree(a, b),
{
}

/// The stored form of each kind of failed transaction validation.
#[derive(Debug)]
pub enum WireValidationErrorKind {
    InvalidEntryType(String),
    ParseDecimal(String),
    PartialCentValue(String),
    OutOfRange(String),
    NegativeEntryAmount(String),
    ImbalancedTransaction(TransactionEntries),
    TransferViolation(ActivityId),
    NoTransactionEntries,
    MissingEntryAmount,
    MissingEntryType,
}

/// A stored validation failure; its kind may be absent.
#[derive(Debug)]
pub struct WireValidationError {
    pub kind: Option<WireValidationErrorKind>,
}

/// The stored form of each kind of failed Jewel import that carries text.
#[derive(Debug)]
pub enum WireJewelImportErrorKind {
    Io(String),
    StartChildProcess(String),
    Write(String),
    ChildProcessExitFailure(String),
}

/// A stored failed Jewel import; its kind may be absent.
#[derive(Debug)]
pub struct WireJewelImportError {
    pub kind: Option<WireJewelImportErrorKind>,
}

/// The stored form of each kind of journal error. A stored permission set is its bits;
/// a stored decoding failure is carried as the library's value.
#[derive(Debug)]
pub enum WireJournalErrorKind {
    IdCollision(JournalId),
    AccountIdCollision(AccountId),
    ActivityIdCollision(ActivityId),
    FundIdCollision(FundId),
    TransactionEntryIdCollision(EntryId),
    TransactionIdCollision(TransactionId),
    FileIdCollision(FileId),
    InvalidJournal(JournalId),
    InvalidAccount(AccountId),
    InvalidActivity(ActivityId),
    InvalidFund(FundId),
    InvalidTransactionEntry(EntryId),
    InvalidTransaction(TransactionId),
    UserAlreadyHasAccess(UserId),
    UserDoesntHaveAccess(UserId),
    IdentCreation(IdentError),
    Sqlx(String),
    EventDecode(String),
    S3(String),
    InvalidFile(FileId),
    TransactionValidation(WireValidationError),
    Permissions(i32),
    PermissionDecode(i32),
    InvalidS3Credentials,
    ProtoDecode(DecodeError),
    JewelImport(WireJewelImportError),
}

/// A stored journal error; its kind may be absent.
#[derive(Debug)]
pub struct WireJournalError {
    pub kind: Option<WireJournalErrorKind>,
}

/// The validation failure is the one that the stored kind stands for.
pub open spec fn validation_matches_wire(e: TransactionValidationError, k: WireValidationErrorKind) -> bool {
    match (e, k) {
        (TransactionValidationError::InvalidEntryType(a), WireValidationErrorKind::InvalidEntryType(b)) => a == b,
        (TransactionValidationError::ParseDecimal(a), WireValidationErrorKind::ParseDecimal(b)) => a == b,
        (TransactionValidationError::PartialCentValue(a), WireValidationErrorKind::PartialCentValue(b)) => a == b,
        (TransactionValidationError::OutOfRange(a), WireValidationErrorKind::OutOfRange(b)) => a == b,
        (TransactionValidationError::NegativeEntryAmount(a), WireValidationErrorKind::NegativeEntryAmount(b)) => a == b,
        (TransactionValidationError::ImbalancedTransaction(a), WireValidationErrorKind::ImbalancedTransaction(b)) => a == b,
        (TransactionValidationError::TransferViolation(a), WireValidationErrorKind::TransferViolation(b)) => a == b,
        (TransactionValidationError::NoTransactionEntries, WireValidationErrorKind::NoTransactionEntries) => true,
        (TransactionValidationError::MissingEntryAmount, WireValidationErrorKind::MissingEntryAmount) => true,
        (TransactionValidationError::MissingEntryType, WireValidationErrorKind::MissingEntryType) => true,
        _ => false,
    }
}

/// The failed import is the one that the stored kind stands for.
pub open spec fn jewel_import_matches_wire(e: JewelImportError, k: WireJewelImportErrorKind) -> bool {
    match (e, k) {
        (JewelImportError::Io(a), WireJewelImportErrorKind::Io(b)) => a == b,
        (JewelImportError::StartChildProcess(a), WireJewelImportErrorKind::StartChildProcess(b)) => a == b,
        (JewelImportError::Write(a), WireJewelImportErrorKind::Write(b)) => a == b,
        (JewelImportError::ChildProcessExitFailure(a), WireJewelImportErrorKind::ChildProcessExitFailure(b)) => a == b,
        _ => false,
    }
}

/// The journal error is the one that the stored kind is read as: the same kind (an
/// entry's kinds are stored as transaction entry kinds) with the same value, and
/// permissions with the stored bits.
pub open spec fn error_matches_wire(e: JournalError, k: WireJournalErrorKind) -> bool {
    match (e, k) {
        (JournalError::IdCollision(a), WireJournalErrorKind::IdCollision(b)) => a == b,
        (JournalError::AccountIdCollision(a), WireJournalErrorKind::AccountIdCollision(b)) => a == b,
        (JournalError::ActivityIdCollision(a), WireJournalErrorKind::ActivityIdCollision(b)) => a == b,
        (JournalError::FundIdCollision(a), WireJournalErrorKind::FundIdCollision(b)) => a == b,
        (JournalError::EntryIdCollision(a), WireJournalErrorKind::TransactionEntryIdCollision(b)) => a == b,
        (JournalError::TransactionIdCollision(a), WireJournalErrorKind::TransactionIdCollision(b)) => a == b,
        (JournalError::FileIdCollision(a), WireJournalErrorKind::FileIdCollision(b)) => a == b,
        (JournalError::InvalidJournal(a), WireJournalErrorKind::InvalidJournal(b)) => a == b,
        (JournalError::InvalidAccount(a), WireJournalErrorKind::InvalidAccount(b)) => a == b,
        (JournalError::InvalidActivity(a), WireJournalErrorKind::InvalidActivity(b)) => a == b,
        (JournalError::InvalidFund(a), WireJournalErrorKind::InvalidFund(b)) => a == b,
        (JournalError::InvalidEntry(a), WireJournalErrorKind::InvalidTransactionEntry(b)) => a == b,
        (JournalError::InvalidTransaction(a), WireJournalErrorKind::InvalidTransaction(b)) => a == b,
        (JournalError::UserAlreadyHasAccess(a), WireJournalErrorKind::UserAlreadyHasAccess(b)) => a == b,
        (JournalError::UserDoesntHaveAccess(a), WireJournalErrorKind::UserDoesntHaveAccess(b)) => a == b,
        (JournalError::IdentCreation(a), WireJournalErrorKind::IdentCreation(b)) => a == b,
        (JournalError::Sqlx(a), WireJournalErrorKind::Sqlx(b)) => a == b,
        (JournalError::EventDecode(a), WireJournalErrorKind::EventDecode(b)) => a == b,
        (JournalError::S3(a), WireJournalErrorKind::S3(b)) => a == b,
        (JournalError::InvalidFile(a), WireJournalErrorKind::InvalidFile(b)) => a == b,
        (JournalError::TransactionValidation(a), WireJournalErrorKind::TransactionValidation(b)) => (
        b.kind matches Some(bk) && validation_matches_wire(a, bk)),
        (JournalError::Permissions(a), WireJournalErrorKind::Permissions(b)) => a.bits == b,
        (JournalError::PermissionDecode(a), WireJournalErrorKind::PermissionDecode(b)) => a.0 == b,
        (JournalError::InvalidS3Credentials, WireJournalErrorKind::InvalidS3Credentials) => true,
        (JournalError::ProtoDecode(a), WireJournalErrorKind::ProtoDecode(b)) => a == b,
        (JournalError::JewelImport(a), WireJournalErrorKind::JewelImport(b)) => (b.kind matches Some(
            bk,
        ) && jewel_import_matches_wire(a, bk)),
        _ => false,
    }
}

/// A stored journal error that can be read: its permissions set only known bits and a
/// validation failure has its kind.
pub open spec fn wire_error_readable(k: WireJournalErrorKind) -> bool {
    match k {
        WireJournalErrorKind::Permissions(bits) => permissions_failure(bits) is None,
        WireJournalErrorKind::TransactionValidation(v) => v.kind is Some,
        WireJournalErrorKind::JewelImport(j) => j.kind is Some,
        _ => true,
    }
}

/// Reads a stored validation failure.
fn validation_from_wire(w: WireValidationError) -> (r: Result<TransactionValidationError, DecodeError>)
    ensures
        w.kind is None ==> r matches Err(DecodeError::FieldRequired),
        w.kind matches Some(k) ==> (r matches Ok(e) && validation_matches_wire(e, k)),
{
    match w.kind {
        None => Err(DecodeError::FieldRequired),
        Some(WireValidationErrorKind::InvalidEntryType(a)) => Ok(TransactionValidationError::InvalidEntryType(a)),
        Some(WireValidationErrorKind::ParseDecimal(a)) => Ok(TransactionValidationError::ParseDecimal(a)),
        Some(WireValidationErrorKind::PartialCentValue(a)) => Ok(TransactionValidationError::PartialCentValue(a)),
        Some(WireValidationErrorKind::OutOfRange(a)) => Ok(TransactionValidationError::OutOfRange(a)),
        Some(WireValidationErrorKind::NegativeEntryAmount(a)) => Ok(TransactionValidationError::NegativeEntryAmount(a)),
        Some(WireValidationErrorKind::ImbalancedTransaction(a)) => Ok(TransactionValidationError::ImbalancedTransaction(a)),
        Some(WireValidationErrorKind::TransferViolation(a)) => Ok(TransactionValidationError::TransferViolation(a)),
        Some(WireValidationErrorKind::NoTransactionEntries) => Ok(TransactionValidationError::NoTransactionEntries),
        Some(WireValidationErrorKind::MissingEntryAmount) => Ok(TransactionValidationError::MissingEntryAmount),
        Some(WireValidationErrorKind::MissingEntryType) => Ok(TransactionValidationError::MissingEntryType),
    }
}

/// Reads a stored journal error: an absent kind, or an absent kind of validation
/// failure, is `FieldRequired`; permissions that set an unknown bit are
/// `PermissionDecode` with the bits; any other stored error is read as the error of its
/// kind with its value.
pub fn journal_error_from_wire(w: WireJournalError) -> (r: Result<JournalError, DecodeError>)
    ensures
        w.kind is None ==> r matches Err(DecodeError::FieldRequired),
        w.kind matches Some(k) ==> match k {
            WireJournalErrorKind::Permissions(bits) => if permissions_failure(bits) is None {
                r matches Ok(e) && error_matches_wire(e, k)
            } else {
                r matches Err(DecodeError::PermissionDecode(b)) && b == bits
            },
            WireJournalErrorKind::TransactionValidation(v) => if v.kind is None {
                r matches Err(DecodeError::FieldRequired)
            } else {
                r matches Ok(e) && error_matches_wire(e, k)
            },
            WireJournalErrorKind::JewelImport(j) => if j.kind is None {
                r matches Err(DecodeError::FieldRequired)
            } else {
                r matches Ok(e) && error_matches_wire(e, k)
            },
            _ => r matches Ok(e) && error_matches_wire(e, k),
        },
        w.kind matches Some(k) ==> (wire_error_readable(k) <==> r is Ok),
{
    let k = match w.kind {
        Some(k) => k,
        None => return Err(DecodeError::FieldRequired),
    };
    match k {
        WireJournalErrorKind::IdCollision(a) => Ok(JournalError::IdCollision(a)),
        WireJournalErrorKind::AccountIdCollision(a) => Ok(JournalError::AccountIdCollision(a)),
        WireJournalErrorKind::ActivityIdCollision(a) => Ok(JournalError::ActivityIdCollision(a)),
        WireJournalErrorKind::FundIdCollision(a) => Ok(JournalError::FundIdCollision(a)),
        WireJournalErrorKind::TransactionEntryIdCollision(a) => Ok(JournalError::EntryIdCollision(a)),
        WireJournalErrorKind::TransactionIdCollision(a) => Ok(JournalError::TransactionIdCollision(a)),
        WireJournalErrorKind::FileIdCollision(a) => Ok(JournalError::FileIdCollision(a)),
        WireJournalErrorKind::InvalidJournal(a) => Ok(JournalError::InvalidJournal(a)),
        WireJournalErrorKind::InvalidAccount(a) => Ok(JournalError::InvalidAccount(a)),
        WireJournalErrorKind::InvalidActivity(a) => Ok(JournalError::InvalidActivity(a)),
        WireJournalErrorKind::InvalidFund(a) => Ok(JournalError::InvalidFund(a)),
        WireJournalErrorKind::InvalidTransactionEntry(a) => Ok(JournalError::InvalidEntry(a)),
        WireJournalErrorKind::InvalidTransaction(a) => Ok(JournalError::InvalidTransaction(a)),
        WireJournalErrorKind::UserAlreadyHasAccess(a) => Ok(JournalError::UserAlreadyHasAccess(a)),
        WireJournalErrorKind::UserDoesntHaveAccess(a) => Ok(JournalError::UserDoesntHaveAccess(a)),
        WireJournalErrorKind::IdentCreation(a) => Ok(JournalError::IdentCreation(a)),
        WireJournalErrorKind::Sqlx(a) => Ok(JournalError::Sqlx(a)),
        WireJournalErrorKind::EventDecode(a) => Ok(JournalError::EventDecode(a)),
        WireJournalErrorKind::S3(a) => Ok(JournalError::S3(a)),
        WireJournalErrorKind::InvalidFile(a) => Ok(JournalError::InvalidFile(a)),
        WireJournalErrorKind::TransactionValidation(v) => match validation_from_wire(v) {
            Ok(e) => Ok(JournalError::TransactionValidation(e)),
            Err(d) => Err(d),
        },
        WireJournalErrorKind::Permissions(bits) => match Permissions::from_bits(bits) {
            Some(p) => Ok(JournalError::Permissions(p)),
            None => Err(DecodeError::PermissionDecode(bits)),
        },
        WireJournalErrorKind::PermissionDecode(bits) => Ok(
            JournalError::PermissionDecode(PermissionDecodeError(bits)),
        ),
        WireJournalErrorKind::InvalidS3Credentials => Ok(JournalError::InvalidS3Credentials),
        WireJournalErrorKind::ProtoDecode(d) => Ok(JournalError::ProtoDecode(d)),
        WireJournalErrorKind::JewelImport(j) => match j.kind {
            Some(WireJewelImportErrorKind::Io(a)) => Ok(JournalError::JewelImport(JewelImportError::Io(a))),
            Some(WireJewelImportErrorKind::StartChildProcess(a)) => Ok(JournalError::JewelImport(JewelImportError::StartChildProcess(a))),
            Some(WireJewelImportErrorKind::Write(a)) => Ok(JournalError::JewelImport(JewelImportError::Write(a))),
            Some(WireJewelImportErrorKind::ChildProcessExitFailure(a)) => Ok(JournalError::JewelImport(JewelImportError::ChildProcessExitFailure(a))),
            None => Err(DecodeError::FieldRequired),
        },
    }
}

/// The stored form of a validation failure.
fn validation_to_wire(e: TransactionValidationError) -> (w: WireValidationError)
    ensures
        w.kind matches Some(k) && validation_matches_wire(e, k),
{
    let k = match e {
        TransactionValidationError::InvalidEntryType(a) => WireValidationErrorKind::InvalidEntryType(a),
        TransactionValidationError::ParseDecimal(a) => WireValidationErrorKind::ParseDecimal(a),
        TransactionValidationError::PartialCentValue(a) => WireValidationErrorKind::PartialCentValue(a),
        TransactionValidationError::OutOfRange(a) => WireValidationErrorKind::OutOfRange(a),
        TransactionValidationError::NegativeEntryAmount(a) => WireValidationErrorKind::NegativeEntryAmount(a),
        TransactionValidationError::ImbalancedTransaction(a) => WireValidationErrorKind::ImbalancedTransaction(a),
        TransactionValidationError::TransferViolation(a) => WireValidationErrorKind::TransferViolation(a),
        TransactionValidationError::NoTransactionEntries => WireValidationErrorKind::NoTransactionEntries,
        TransactionValidationError::MissingEntryAmount => WireValidationErrorKind::MissingEntryAmount,
        TransactionValidationError::MissingEntryType => WireValidationErrorKind::MissingEntryType,
    };
    WireValidationError { kind: Some(k) }
}

/// The stored form of a journal error: the kind of the error with its value, except
/// that a fund identifier collision is stored as a file identifier collision with the
/// same identifier.
pub fn journal_error_to_wire(e: JournalError) -> (w: WireJournalError)
    ensures
        e matches JournalError::FundIdCollision(id) ==> w.kind == Some(
            WireJournalErrorKind::FileIdCollision(FileId(id.0)),
        ),
        !(e is FundIdCollision) ==> (w.kind matches Some(k) && error_matches_wire(e, k)),
{
    let k = match e {
        JournalError::IdCollision(a) => WireJournalErrorKind::IdCollision(a),
        JournalError::AccountIdCollision(a) => WireJournalErrorKind::AccountIdCollision(a),
        JournalError::ActivityIdCollision(a) => WireJournalErrorKind::ActivityIdCollision(a),
        JournalError::FundIdCollision(id) => WireJournalErrorKind::FileIdCollision(FileId(id.0)),
        JournalError::EntryIdCollision(a) => WireJournalErrorKind::TransactionEntryIdCollision(a),
        JournalError::TransactionIdCollision(a) => WireJournalErrorKind::TransactionIdCollision(a),
        JournalError::FileIdCollision(a) => WireJournalErrorKind::FileIdCollision(a),
        JournalError::InvalidJournal(a) => WireJournalErrorKind::InvalidJournal(a),
        JournalError::InvalidAccount(a) => WireJournalErrorKind::InvalidAccount(a),
        JournalError::InvalidActivity(a) => WireJournalErrorKind::InvalidActivity(a),
        JournalError::InvalidFund(a) => WireJournalErrorKind::InvalidFund(a),
        JournalError::InvalidEntry(a) => WireJournalErrorKind::InvalidTransactionEntry(a),
        JournalError::InvalidTransaction(a) => WireJournalErrorKind::InvalidTransaction(a),
        JournalError::UserAlreadyHasAccess(a) => WireJournalErrorKind::UserAlreadyHasAccess(a),
        JournalError::UserDoesntHaveAccess(a) => WireJournalErrorKind::UserDoesntHaveAccess(a),
        JournalError::IdentCreation(a) => WireJournalErrorKind::IdentCreation(a),
        JournalError::Sqlx(a) => WireJournalErrorKind::Sqlx(a),
        JournalError::EventDecode(a) => WireJournalErrorKind::EventDecode(a),
        JournalError::S3(a) => WireJournalErrorKind::S3(a),
        JournalError::InvalidFile(a) => WireJournalErrorKind::InvalidFile(a),
        JournalError::TransactionValidation(v) => WireJournalErrorKind::TransactionValidation(
            validation_to_wire(v),
        ),
        JournalError::Permissions(p) => WireJournalErrorKind::Permissions(p.bits()),
        JournalError::PermissionDecode(d) => WireJournalErrorKind::PermissionDecode(d.0),
        JournalError::InvalidS3Credentials => WireJournalErrorKind::InvalidS3Credentials,
        JournalError::ProtoDecode(d) => WireJournalErrorKind::ProtoDecode(d),
        JournalError::JewelImport(j) => {
            let k = match j {
                JewelImportError::Io(a) => WireJewelImportErrorKind::Io(a),
                JewelImportError::StartChildProcess(a) => WireJewelImportErrorKind::StartChildProcess(a),
                JewelImportError::Write(a) => WireJewelImportErrorKind::Write(a),
                JewelImportError::ChildProcessExitFailure(a) => WireJewelImportErrorKind::ChildProcessExitFailure(a),
            };
            WireJournalErrorKind::JewelImport(WireJewelImportError { kind: Some(k) })
        },
    };
    WireJournalError { kind: Some(k) }
}

/// A journal error whose permissions set only known bits is stored in a form that can
/// be read: reading back what was stored does not fail.
pub proof fn lemma_stored_error_reads_back(e: JournalError, k: WireJournalErrorKind)
    requires
        e matches JournalError::Permissions(p) ==> permissions_failure(p.bits) is None,
        error_matches_wire(e, k),
    ensures
        wire_error_readable(k),
{
}

/// A stored journal error is read as at most one error. With
/// `lemma_stored_error_reads_back` and the contracts of `journal_error_to_wire` and
/// `journal_error_from_wire`, reading back a stored error gives the error, except that a
/// fund identifier collision is read back as a file identifier collision.
pub proof fn lemma_stored_form_determines_error(a: JournalError, b: JournalError, k: WireJournalErrorKind)
    requires
        error_matches_wire(a, k),
        error_matches_wire(b, k),
    ensures
        a == b,
{
}

} // verus!
