//! Why a journal command or query fails.

use crate::ident::IdentError;
use crate::ids::{AccountId, ActivityId, EntryId, FileId, FundId, JournalId, TransactionId, UserId};
use crate::journal::transaction::TransactionEntries;
use crate::journal::wire::DecodeError;
use crate::permissions::{PermissionDecodeError, Permissions};
use vstd::prelude::*;

verus! {

/// A submitted transaction that cannot be booked.
#[derive(Debug)]
pub enum TransactionValidationError {
    /// An entry side other than debit or credit; holds what was found.
    InvalidEntryType(String),
    /// No entry was submitted.
    NoTransactionEntries,
    /// An entry has no amount.
    MissingEntryAmount,
    /// An entry has no side.
    MissingEntryType,
    /// An amount is not a decimal number; holds the text.
    ParseDecimal(String),
    /// An amount has a fraction of a cent; holds the text.
    PartialCentValue(String),
    /// An amount does not fit; holds the text.
    OutOfRange(String),
    /// An amount is zero or negative; holds it as text.
    NegativeEntryAmount(String),
    /// Debits and credits do not balance; holds the entries.
    ImbalancedTransaction(TransactionEntries),
    /// A transfer entry names an activity that is not a transfer activity.
    TransferViolation(ActivityId),
}

/// Why a Jewel database could not be read; each failure holds the message it came with.
/// (A database of an outdated Jewel version is refused by the caller, which reads the
/// version as a floating-point number.)
#[derive(Debug)]
pub enum JewelImportError {
    /// A temporary file could not be made, or a stream could not be read.
    Io(String),
    /// The converting process could not be started.
    StartChildProcess(String),
    /// A file or the input of the converting process could not be written.
    Write(String),
    /// The converting process failed.
    ChildProcessExitFailure(String),
}

/// Why a journal command or query fails.
#[derive(Debug)]
pub enum JournalError {
    IdCollision(JournalId),
    AccountIdCollision(AccountId),
    ActivityIdCollision(ActivityId),
    FundIdCollision(FundId),
    EntryIdCollision(EntryId),
    TransactionIdCollision(TransactionId),
    FileIdCollision(FileId),
    InvalidJournal(JournalId),
    InvalidAccount(AccountId),
    InvalidActivity(ActivityId),
    InvalidFund(FundId),
    InvalidEntry(EntryId),
    InvalidTransaction(TransactionId),
    TransactionValidation(TransactionValidationError),
    /// The actor lacks these permissions.
    Permissions(Permissions),
    UserAlreadyHasAccess(UserId),
    UserDoesntHaveAccess(UserId),
    IdentCreation(IdentError),
    Sqlx(String),
    PermissionDecode(PermissionDecodeError),
    EventDecode(String),
    /// A stored value could not be read.
    ProtoDecode(DecodeError),
    InvalidS3Credentials,
    S3(String),
    InvalidFile(FileId),
    JewelImport(JewelImportError),
}

} // verus!
