//! Journals: creation, deletion, membership and the permission check shared by every
//! journal command.

pub mod account;
pub mod balance;
pub mod activity;
pub mod entry;
pub mod error;
pub mod event;
pub mod file;
pub mod forms;
pub mod fund;
pub mod member;
pub mod projection;
pub mod transact;
pub mod transaction;
pub mod wire;

use crate::authority::{Actor, Authority};
use crate::ident::Ident;
use crate::ids::{FundId, JournalId, UserId};
use crate::journal::error::JournalError;
use crate::journal::event::JournalDomainEvent;
use crate::journal::member::JournalMember;
use crate::name::Name;
use crate::permissions::{PermissionDecodeError, Permissions, all_bits};
use crate::status::Status;
use crate::store::Timestamp;
use vstd::prelude::*;

verus! {

/// Whether `authority` may act with `permissions` in a journal owned by `journal_owner`,
/// given the actor's membership record: the owner and the system may do anything; a
/// current member may do what its permissions hold.
pub open spec fn permitted(
    member: JournalMember,
    authority: Authority,
    journal_owner: UserId,
    permissions: Permissions,
) -> bool {
    ||| authority.spec_user_id() == Some(journal_owner)
    ||| (member.status == Status::Valid && member.permissions.spec_contains(permissions))
    ||| authority.spec_actor() == Actor::System
}

/// The permissions that an authority holds in a journal. The system holds the owner flag
/// and an anonymous actor nothing; for a user, `stored_bits` is what the read model holds
/// (all bits for the owner, a member's permissions, zero for anyone else), or `None` if
/// the journal is not there, which grants nothing. Bits that name no permission are an
/// error.
pub fn effective_permissions(authority: Authority, stored_bits: Option<i32>) -> (r: Result<
    Permissions,
    JournalError,
>)
    ensures
        authority.spec_actor() is System ==> (r matches Ok(p) && p.bits == 128),
        authority.spec_actor() is Anonymous ==> (r matches Ok(p) && p.bits == 0),
        authority.spec_actor() is User ==> match stored_bits {
            None => (r matches Ok(p) && p.bits == 0),
            Some(b) => if b & !all_bits() == 0 {
                (r matches Ok(p) && p.bits == b)
            } else {
                (r matches Err(JournalError::PermissionDecode(e)) && e.0 == b)
            },
        },
{
    match authority.actor() {
        Actor::System => Ok(Permissions::owner()),
        Actor::Anonymous => Ok(Permissions::empty()),
        Actor::User(_) => match stored_bits {
            Some(bits) => match Permissions::from_bits(bits) {
                Some(p) => Ok(p),
                None => Err(JournalError::PermissionDecode(PermissionDecodeError(bits))),
            },
            None => Ok(Permissions::empty()),
        },
    }
}

/// Refuses an action unless the held permissions include the needed ones; the error
/// names the needed permissions.
pub fn require_permissions(held: Permissions, needed: Permissions) -> (r: Result<(), JournalError>)
    ensures
        r is Ok <==> held.spec_contains(needed),
        r is Err ==> (r matches Err(JournalError::Permissions(p)) && p == needed),
{
    if held.contains(needed) {
        Ok(())
    } else {
        Err(JournalError::Permissions(needed))
    }
}

/// A journal shows only to those who may read it; to anyone else it does not exist.
pub fn check_journal_visible(journal_id: JournalId, held: Permissions) -> (r: Result<(), JournalError>)
    ensures
        r is Ok <==> held.spec_contains(Permissions { bits: 1 }),
        r is Err ==> (r matches Err(JournalError::InvalidJournal(j)) && j == journal_id),
{
    if held.contains(Permissions::read()) {
        Ok(())
    } else {
        Err(JournalError::InvalidJournal(journal_id))
    }
}

/// Validates that an authority has sufficient permissions to perform an action.
pub fn validate_permissions(
    member: &JournalMember,
    authority: Authority,
    journal_owner: UserId,
    permissions: Permissions,
) -> (r: bool)
    ensures
        r == permitted(*member, authority, journal_owner, permissions),
        authority.spec_user_id() != Some(journal_owner) && authority.spec_actor() != Actor::System
            ==> (r <==> member.status == Status::Valid && member.permissions.bits & permissions.bits
            == permissions.bits),
{
    if let Some(user_id) = authority.user_id() {
        if user_id == journal_owner {
            return true;
        }
    }
    if member.status.valid() && member.permissions.contains(permissions) {
        return true;
    }
    if matches!(authority.actor(), Actor::System) {
        return true;
    }
    false
}

/// Who may act in a journal: its owner and the system always may; anyone else only as a
/// current member whose permissions hold every needed flag, so a member that was removed
/// (or never added) is refused whatever permissions it stores.
pub proof fn lemma_permission_rule(
    member: JournalMember,
    authority: Authority,
    journal_owner: UserId,
    permissions: Permissions,
)
    ensures
        authority.spec_user_id() == Some(journal_owner) ==> permitted(
            member,
            authority,
            journal_owner,
            permissions,
        ),
        authority.spec_actor() == Actor::System ==> permitted(member, authority, journal_owner, permissions),
        authority.spec_user_id() != Some(journal_owner) && authority.spec_actor() != Actor::System
            ==> (permitted(member, authority, journal_owner, permissions) <==> member.status
            == Status::Valid && member.permissions.bits & permissions.bits == permissions.bits),
        authority.spec_user_id() != Some(journal_owner) && authority.spec_actor() != Actor::System
            && member.status != Status::Valid ==> !permitted(member, authority, journal_owner, permissions),
{
}

/// A journal, as folded from its creation and deletion events.
#[derive(Debug, Clone)]
pub struct Journal {
    pub journal_id: JournalId,
    pub owner: UserId,
    pub name: Name,
    pub status: Status,
}

impl Journal {
    /// A journal that was never created.
    pub fn new(journal_id: JournalId) -> (j: Journal)
        ensures
            j.journal_id == journal_id,
            j.owner.0 == crate::ident::Ident::spec_nil(),
            j.name@ == "examplename"@,
            j.status == Status::Missing,
    {
        Journal {
            journal_id,
            owner: UserId::default(),
            name: Name::default(),
            status: Status::default(),
        }
    }

    /// Applies an event of the journal: creation sets the owner and name and makes the
    /// journal valid, deletion marks it deleted; other events leave it unchanged.
    pub fn mutate(&mut self, event: JournalDomainEvent)
        ensures
            match event {
                JournalDomainEvent::JournalCreated { owner, name, .. } => *final(self) == (Journal {
                    owner,
                    name,
                    status: Status::Valid,
                    ..*old(self)
                }),
                JournalDomainEvent::JournalDeleted { .. } => *final(self) == (Journal {
                    status: Status::Deleted,
                    ..*old(self)
                }),
                _ => *final(self) == *old(self),
            },
    {
        match event {
            JournalDomainEvent::JournalCreated { owner, name, .. } => {
                self.owner = owner;
                self.name = name;
                self.status = Status::Valid;
            },
            JournalDomainEvent::JournalDeleted { .. } => {
                self.status = Status::Deleted;
            },
            _ => {},
        }
    }
}

/// Creates a journal owned by `owner`, together with its general fund.
pub struct CreateJournal {
    pub journal_id: JournalId,
    pub owner: UserId,
    pub name: Name,
    pub authority: Authority,
    pub timestamp: Timestamp,
}

impl CreateJournal {
    pub fn new(
        journal_id: JournalId,
        owner: UserId,
        name: Name,
        authority: Authority,
        timestamp: Timestamp,
    ) -> (c: CreateJournal)
        ensures
            c == (CreateJournal { journal_id, owner, name, authority, timestamp }),
    {
        CreateJournal { journal_id, owner, name, authority, timestamp }
    }

    /// The state the decision reads: the journal itself.
    pub fn state_query(&self) -> (q: Journal)
        ensures
            q.journal_id == self.journal_id,
            q.status == Status::Missing,
    {
        Journal::new(self.journal_id)
    }

    /// Fails if the identifier is taken; otherwise the journal is created and its general
    /// fund (under a fresh identifier, on the system's authority) with it.
    pub fn process(&self, state: &Journal) -> (r: Result<Vec<JournalDomainEvent>, JournalError>)
        ensures
            state.status != Status::Missing ==> r == Err::<Vec<JournalDomainEvent>, JournalError>(
                JournalError::IdCollision(self.journal_id),
            ),
            state.status == Status::Missing ==> (r matches Ok(evs) && evs@.len() == 2 && evs@[0]
                == (JournalDomainEvent::JournalCreated {
                journal_id: self.journal_id,
                owner: self.owner,
                name: self.name,
                authority: self.authority,
                timestamp: self.timestamp,
            }) && (evs@[1] matches JournalDomainEvent::FundCreated {
                journal_id,
                fund_name,
                authority,
                timestamp,
                ..
            } && journal_id == self.journal_id && fund_name@ == "General"@ && authority
                == Authority::Direct(Actor::System) && timestamp == self.timestamp)),
            state.status == Status::Missing ==> (r matches Ok(evs) && evs@.len() == 2 && (evs@[1]
                matches JournalDomainEvent::FundCreated { fund_id, .. } && fund_id.0.wf()
                && fund_id.0 is Cuid16 && crate::ident::spec_is_cuid2(fund_id.0@) && fund_id.0
                != Ident::spec_nil())),
    {
        if state.status.found() {
            return Err(JournalError::IdCollision(self.journal_id));
        }
        let mut evs: Vec<JournalDomainEvent> = Vec::new();
        evs.push(
            JournalDomainEvent::JournalCreated {
                journal_id: self.journal_id,
                owner: self.owner,
                name: self.name.clone(),
                authority: self.authority,
                timestamp: self.timestamp,
            },
        );
        evs.push(
            JournalDomainEvent::FundCreated {
                fund_id: FundId::new(),
                journal_id: self.journal_id,
                fund_name: Name::general(),
                authority: Authority::Direct(Actor::System),
                timestamp: self.timestamp,
            },
        );
        Ok(evs)
    }
}

/// Deletes a journal.
pub struct DeleteJournal {
    pub journal_id: JournalId,
    pub authority: Authority,
    pub timestamp: Timestamp,
}

impl DeleteJournal {
    pub fn new(journal_id: JournalId, authority: Authority, timestamp: Timestamp) -> (d:
        DeleteJournal)
        ensures
            d == (DeleteJournal { journal_id, authority, timestamp }),
    {
        DeleteJournal { journal_id, authority, timestamp }
    }

    /// The state the decision reads: the journal itself.
    pub fn state_query(&self) -> (q: Journal)
        ensures
            q.journal_id == self.journal_id,
            q.status == Status::Missing,
    {
        Journal::new(self.journal_id)
    }

    /// Fails unless the journal exists; otherwise the journal is deleted.
    pub fn process(&self, state: &Journal) -> (r: Result<Vec<JournalDomainEvent>, JournalError>)
        ensures
            state.status != Status::Valid ==> r == Err::<Vec<JournalDomainEvent>, JournalError>(
                JournalError::InvalidJournal(state.journal_id),
            ),
            state.status == Status::Valid ==> (r matches Ok(evs) && evs@ == seq![
                (JournalDomainEvent::JournalDeleted {
                    journal_id: self.journal_id,
                    authority: self.authority,
                    timestamp: self.timestamp,
                }),
            ]),
    {
        if !state.status.valid() {
            return Err(JournalError::InvalidJournal(state.journal_id));
        }
        let mut evs: Vec<JournalDomainEvent> = Vec::new();
        evs.push(
            JournalDomainEvent::JournalDeleted {
                journal_id: self.journal_id,
                authority: self.authority,
                timestamp: self.timestamp,
            },
        );
        Ok(evs)
    }
}

/// A journal as listed to its readers.
#[derive(Debug)]
pub struct JournalState {
    pub id: JournalId,
    pub owner_id: UserId,
    pub name: Name,
}

} // verus!
