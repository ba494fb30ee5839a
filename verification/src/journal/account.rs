//! Accounts of a journal: creating, renaming and deleting them.

use crate::authority::Authority;
use crate::ids::{AccountId, JournalId, UserId};
use crate::journal::error::JournalError;
use crate::journal::event::JournalDomainEvent;
use crate::journal::member::JournalMember;
use crate::journal::{Journal, permitted, validate_permissions};
use crate::name::Name;
use crate::permissions::Permissions;
use crate::status::Status;
use crate::store::Timestamp;
use vstd::prelude::*;

verus! {

/// Whether an account records what the journal owns or what it owes.
#[derive(Clone, Copy, PartialEq, Eq, Structural, Debug, Hash)]
pub enum AccountType {
    Asset,
    Liability,
}

/// A stored account type that is neither 1 (asset) nor 2 (liability).
#[derive(Debug, Clone, PartialEq, Eq)]
pub struct AccountTypeFromIntError(pub i8);

impl AccountType {
    /// The stored number of the type: 1 for an asset, 2 for a liability.
    pub open spec fn spec_code(&self) -> i8 {
        match self {
            AccountType::Asset => 1,
            AccountType::Liability => 2,
        }
    }

    /// The stored number of the type.
    pub fn code(&self) -> (c: i8)
        ensures
            c == self.spec_code(),
    {
        match self {
            AccountType::Asset => 1,
            AccountType::Liability => 2,
        }
    }

    /// The type with this stored number.
    pub fn try_from(value: i8) -> (r: Result<AccountType, AccountTypeFromIntError>)
        ensures
            r matches Ok(t) ==> t.spec_code() == value,
            r is Err <==> value != 1 && value != 2,
            r matches Err(e) ==> e == AccountTypeFromIntError(value),
    {
        if value == 1 {
            Ok(AccountType::Asset)
        } else if value == 2 {
            Ok(AccountType::Liability)
        } else {
            Err(AccountTypeFromIntError(value))
        }
    }
}

impl Default for AccountType {
    fn default() -> (t: AccountType)
        ensures
            t == AccountType::Asset,
    {
        AccountType::Asset
    }
}

/// The membership record of the actor of a command in a journal: the record of the
/// authority's user, or of the nil user when the authority is not a user.
pub open spec fn actor_member(journal_id: JournalId, authority: Authority) -> JournalMember {
    JournalMember {
        journal_id,
        user_id: match authority.spec_user_id() {
            Some(u) => u,
            None => UserId(crate::ident::Ident::spec_nil()),
        },
        permissions: Permissions { bits: 0 },
        status: Status::Missing,
    }
}

/// The actor's membership record, as a command reads it before any event is applied.
pub fn actor_member_query(journal_id: JournalId, authority: Authority) -> (m: JournalMember)
    ensures
        m == actor_member(journal_id, authority),
{
    let actor_id = match authority.user_id() {
        Some(u) => u,
        None => UserId::default(),
    };
    JournalMember::new(journal_id, actor_id)
}

/// An account, as folded from its events.
#[derive(Debug, Clone)]
pub struct Account {
    pub account_id: AccountId,
    pub journal_id: JournalId,
    pub name: Name,
    pub account_type: AccountType,
    pub status: Status,
}

impl Account {
    /// An account that was never created.
    pub fn new(account_id: AccountId) -> (a: Account)
        ensures
            a.account_id == account_id,
            a.journal_id.0 == crate::ident::Ident::spec_nil(),
            a.name@ == "examplename"@,
            a.account_type == AccountType::Asset,
            a.status == Status::Missing,
    {
        Account {
            account_id,
            journal_id: JournalId::default(),
            name: Name::default(),
            account_type: AccountType::default(),
            status: Status::default(),
        }
    }

    /// Applies an event of the account: creation sets the journal and the name and makes
    /// the account valid (the type is left as it was), renaming sets the name, deletion
    /// marks it deleted; other events leave it unchanged.
    pub fn mutate(&mut self, event: JournalDomainEvent)
        ensures
            match event {
                JournalDomainEvent::AccountCreated { name, journal_id, .. } => *final(self) == (
                Account { journal_id, name, status: Status::Valid, ..*old(self) }),
                JournalDomainEvent::AccountRenamed { new_name, .. } => *final(self) == (Account {
                    name: new_name,
                    ..*old(self)
                }),
                JournalDomainEvent::AccountDeleted { .. } => *final(self) == (Account {
                    status: Status::Deleted,
                    ..*old(self)
                }),
                _ => *final(self) == *old(self),
            },
    {
        match event {
            JournalDomainEvent::AccountCreated { name, journal_id, .. } => {
                self.journal_id = journal_id;
                self.name = name;
                self.status = Status::Valid;
            },
            JournalDomainEvent::AccountRenamed { new_name, .. } => {
                self.name = new_name;
            },
            JournalDomainEvent::AccountDeleted { .. } => {
                self.status = Status::Deleted;
            },
            _ => {},
        }
    }
}

/// The states that an account command reads: the account, the journal, and the actor's
/// membership.
pub open spec fn account_query(
    account_id: AccountId,
    journal_id: JournalId,
    authority: Authority,
    q: (Account, Journal, JournalMember),
) -> bool {
    &&& q.0.account_id == account_id
    &&& q.0.status == Status::Missing
    &&& q.1.journal_id == journal_id
    &&& q.1.status == Status::Missing
    &&& q.2 == actor_member(journal_id, authority)
}

fn account_state_query(account_id: AccountId, journal_id: JournalId, authority: Authority) -> (q: (
    Account,
    Journal,
    JournalMember,
))
    ensures
        account_query(account_id, journal_id, authority, q),
{
    (Account::new(account_id), Journal::new(journal_id), actor_member_query(journal_id, authority))
}

/// Creates an account in a journal.
pub struct CreateAccount {
    pub account_id: AccountId,
    pub journal_id: JournalId,
    pub name: Name,
    pub account_type: AccountType,
    pub authority: Authority,
    pub timestamp: Timestamp,
}

impl CreateAccount {
    pub fn new(
        account_id: AccountId,
        journal_id: JournalId,
        name: Name,
        account_type: AccountType,
        authority: Authority,
        timestamp: Timestamp,
    ) -> (c: CreateAccount)
        ensures
            c == (CreateAccount { account_id, journal_id, name, account_type, authority, timestamp }),
    {
        CreateAccount { account_id, journal_id, name, account_type, authority, timestamp }
    }

    /// The account, the journal and the actor's membership.
    pub fn state_query(&self) -> (q: (Account, Journal, JournalMember))
        ensures
            account_query(self.account_id, self.journal_id, self.authority, q),
    {
        account_state_query(self.account_id, self.journal_id, self.authority)
    }

    /// Fails if the identifier is taken, if the journal does not exist, or if the actor
    /// may not add accounts; otherwise the account is created.
    pub fn process(&self, account: &Account, journal: &Journal, actor: &JournalMember) -> (r:
        Result<Vec<JournalDomainEvent>, JournalError>)
        ensures
            ({
                let needed = Permissions { bits: 2 };
                if account.status != Status::Missing {
                    r == Err::<Vec<JournalDomainEvent>, JournalError>(
                        JournalError::AccountIdCollision(self.account_id),
                    )
                } else if journal.status != Status::Valid {
                    r == Err::<Vec<JournalDomainEvent>, JournalError>(
                        JournalError::InvalidJournal(self.journal_id),
                    )
                } else if !permitted(*actor, self.authority, journal.owner, needed) {
                    r == Err::<Vec<JournalDomainEvent>, JournalError>(
                        JournalError::Permissions(needed),
                    )
                } else {
                    r matches Ok(evs) && evs@ == seq![
                        (JournalDomainEvent::AccountCreated {
                            account_id: self.account_id,
                            journal_id: self.journal_id,
                            name: self.name,
                            account_type: self.account_type,
                            authority: self.authority,
                            timestamp: self.timestamp,
                        }),
                    ]
                }
            }),
    {
        if account.status.found() {
            return Err(JournalError::AccountIdCollision(self.account_id));
        }
        if !journal.status.valid() {
            return Err(JournalError::InvalidJournal(self.journal_id));
        }
        if !validate_permissions(actor, self.authority, journal.owner, Permissions::add_account()) {
            return Err(JournalError::Permissions(Permissions::add_account()));
        }
        let mut evs: Vec<JournalDomainEvent> = Vec::new();
        evs.push(
            JournalDomainEvent::AccountCreated {
                account_id: self.account_id,
                journal_id: self.journal_id,
                name: self.name.clone(),
                account_type: self.account_type,
                authority: self.authority,
                timestamp: self.timestamp,
            },
        );
        Ok(evs)
    }
}

/// Renames an account.
pub struct RenameAccount {
    pub account_id: AccountId,
    pub journal_id: JournalId,
    pub name: Name,
    pub authority: Authority,
    pub timestamp: Timestamp,
}

impl RenameAccount {
    pub fn new(
        account_id: AccountId,
        journal_id: JournalId,
        name: Name,
        authority: Authority,
        timestamp: Timestamp,
    ) -> (c: RenameAccount)
        ensures
            c == (RenameAccount { account_id, journal_id, name, authority, timestamp }),
    {
        RenameAccount { account_id, journal_id, name, authority, timestamp }
    }

    /// The account, the journal and the actor's membership.
    pub fn state_query(&self) -> (q: (Account, Journal, JournalMember))
        ensures
            account_query(self.account_id, self.journal_id, self.authority, q),
    {
        account_state_query(self.account_id, self.journal_id, self.authority)
    }

    /// Fails if the account does not exist in this journal, if the journal does not
    /// exist, or if the actor may not act as owner; otherwise the account is renamed.
    pub fn process(&self, account: &Account, journal: &Journal, actor: &JournalMember) -> (r:
        Result<Vec<JournalDomainEvent>, JournalError>)
        ensures
            ({
                let needed = Permissions { bits: 128 };
                if account.status != Status::Valid || account.journal_id != self.journal_id {
                    r == Err::<Vec<JournalDomainEvent>, JournalError>(
                        JournalError::InvalidAccount(self.account_id),
                    )
                } else if journal.status != Status::Valid {
                    r == Err::<Vec<JournalDomainEvent>, JournalError>(
                        JournalError::InvalidJournal(self.journal_id),
                    )
                } else if !permitted(*actor, self.authority, journal.owner, needed) {
                    r == Err::<Vec<JournalDomainEvent>, JournalError>(
                        JournalError::Permissions(needed),
                    )
                } else {
                    r matches Ok(evs) && evs@ == seq![
                        (JournalDomainEvent::AccountRenamed {
                            account_id: self.account_id,
                            journal_id: self.journal_id,
                            new_name: self.name,
                            authority: self.authority,
                            timestamp: self.timestamp,
                        }),
                    ]
                }
            }),
    {
        if !account.status.valid() || account.journal_id != self.journal_id {
            return Err(JournalError::InvalidAccount(self.account_id));
        }
        if !journal.status.valid() {
            return Err(JournalError::InvalidJournal(self.journal_id));
        }
        if !validate_permissions(actor, self.authority, journal.owner, Permissions::owner()) {
            return Err(JournalError::Permissions(Permissions::owner()));
        }
        let mut evs: Vec<JournalDomainEvent> = Vec::new();
        evs.push(
            JournalDomainEvent::AccountRenamed {
                account_id: self.account_id,
                journal_id: self.journal_id,
                new_name: self.name.clone(),
                authority: self.authority,
                timestamp: self.timestamp,
            },
        );
        Ok(evs)
    }
}

/// Deletes an account.
pub struct DeleteAccount {
    pub account_id: AccountId,
    pub journal_id: JournalId,
    pub authority: Authority,
    pub timestamp: Timestamp,
}

impl DeleteAccount {
    pub fn new(
        account_id: AccountId,
        journal_id: JournalId,
        authority: Authority,
        timestamp: Timestamp,
    ) -> (c: DeleteAccount)
        ensures
            c == (DeleteAccount { account_id, journal_id, authority, timestamp }),
    {
        DeleteAccount { account_id, journal_id, authority, timestamp }
    }

    /// The account, the journal and the actor's membership.
    pub fn state_query(&self) -> (q: (Account, Journal, JournalMember))
        ensures
            account_query(self.account_id, self.journal_id, self.authority, q),
    {
        account_state_query(self.account_id, self.journal_id, self.authority)
    }

    /// Fails if the account does not exist in this journal, if the journal does not
    /// exist, or if the actor may not act as owner; otherwise the account is deleted.
    pub fn process(&self, account: &Account, journal: &Journal, actor: &JournalMember) -> (r:
        Result<Vec<JournalDomainEvent>, JournalError>)
        ensures
            ({
                let needed = Permissions { bits: 128 };
                if account.status != Status::Valid || account.journal_id != self.journal_id {
                    r == Err::<Vec<JournalDomainEvent>, JournalError>(
                        JournalError::InvalidAccount(self.account_id),
                    )
                } else if journal.status != Status::Valid {
                    r == Err::<Vec<JournalDomainEvent>, JournalError>(
                        JournalError::InvalidJournal(self.journal_id),
                    )
                } else if !permitted(*actor, self.authority, journal.owner, needed) {
                    r == Err::<Vec<JournalDomainEvent>, JournalError>(
                        JournalError::Permissions(needed),
                    )
                } else {
                    r matches Ok(evs) && evs@ == seq![
                        (JournalDomainEvent::AccountDeleted {
                            account_id: self.account_id,
                            journal_id: self.journal_id,
                            authority: self.authority,
                            timestamp: self.timestamp,
                        }),
                    ]
                }
            }),
    {
        if !account.status.valid() || account.journal_id != self.journal_id {
            return Err(JournalError::InvalidAccount(self.account_id));
        }
        if !journal.status.valid() {
            return Err(JournalError::InvalidJournal(self.journal_id));
        }
        if !validate_permissions(actor, self.authority, journal.owner, Permissions::owner()) {
            return Err(JournalError::Permissions(Permissions::owner()));
        }
        let mut evs: Vec<JournalDomainEvent> = Vec::new();
        evs.push(
            JournalDomainEvent::AccountDeleted {
                account_id: self.account_id,
                journal_id: self.journal_id,
                authority: self.authority,
                timestamp: self.timestamp,
            },
        );
        Ok(evs)
    }
}

} // verus!
