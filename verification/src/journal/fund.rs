//! Funds of a journal: pools of money that activities draw on.

use crate::authority::Authority;
use crate::ids::{FundId, JournalId};
use crate::journal::account::{actor_member, actor_member_query};
use crate::journal::error::JournalError;
use crate::journal::event::JournalDomainEvent;
use crate::journal::member::JournalMember;
use crate::journal::{Journal, permitted, validate_permissions};
use crate::name::Name;
use crate::permissions::Permissions;
use crate::status::Status;
use crate::store::Timestamp;
use vstd::prelude::*;

verus! {

/// A fund, as folded from its creation event.
#[derive(Debug, Clone)]
pub struct Fund {
    pub fund_id: FundId,
    pub journal_id: JournalId,
    pub name: Name,
    pub status: Status,
}

impl Fund {
    /// A fund that was never created.
    pub fn new(journal_id: JournalId, fund_id: FundId) -> (f: Fund)
        ensures
            f.fund_id == fund_id,
            f.journal_id == journal_id,
            f.name@ == "examplename"@,
            f.status == Status::Missing,
    {
        Fund { fund_id, journal_id, name: Name::default(), status: Status::default() }
    }

    /// Applies the creation event; other events leave the fund unchanged.
    pub fn mutate(&mut self, event: JournalDomainEvent)
        ensures
            match event {
                JournalDomainEvent::FundCreated { fund_id, journal_id, fund_name, .. } => *final(self) == (Fund { fund_id, journal_id, name: fund_name, status: Status::Valid }),
                _ => *final(self) == *old(self),
            },
    {
        match event {
            JournalDomainEvent::FundCreated { fund_id, journal_id, fund_name, .. } => {
                self.fund_id = fund_id;
                self.journal_id = journal_id;
                self.name = fund_name;
                self.status = Status::Valid;
            },
            _ => {},
        }
    }
}

/// Creates a fund in a journal.
pub struct CreateFund {
    pub fund_id: FundId,
    pub journal_id: JournalId,
    pub fund_name: Name,
    pub authority: Authority,
    pub timestamp: Timestamp,
}

impl CreateFund {
    pub fn new(
        fund_id: FundId,
        journal_id: JournalId,
        fund_name: Name,
        authority: Authority,
        timestamp: Timestamp,
    ) -> (c: CreateFund)
        ensures
            c == (CreateFund { fund_id, journal_id, fund_name, authority, timestamp }),
    {
        CreateFund { fund_id, journal_id, fund_name, authority, timestamp }
    }

    /// The journal, the actor's membership and the fund.
    pub fn state_query(&self) -> (q: (Journal, JournalMember, Fund))
        ensures
            q.0.journal_id == self.journal_id,
            q.0.status == Status::Missing,
            q.1 == actor_member(self.journal_id, self.authority),
            q.2.fund_id == self.fund_id,
            q.2.journal_id == self.journal_id,
            q.2.status == Status::Missing,
    {
        (
            Journal::new(self.journal_id),
            actor_member_query(self.journal_id, self.authority),
            Fund::new(self.journal_id, self.fund_id),
        )
    }

    /// Fails if the identifier is taken, if the journal does not exist, or if the actor
    /// may not create funds; otherwise the fund is created.
    pub fn process(&self, journal: &Journal, actor: &JournalMember, fund: &Fund) -> (r: Result<
        Vec<JournalDomainEvent>,
        JournalError,
    >)
        ensures
            ({
                let needed = Permissions { bits: 8 };
                if fund.status != Status::Missing {
                    r == Err::<Vec<JournalDomainEvent>, JournalError>(
                        JournalError::FundIdCollision(self.fund_id),
                    )
                } else if journal.status != Status::Valid {
                    r == Err::<Vec<JournalDomainEvent>, JournalError>(
                        JournalError::InvalidJournal(self.journal_id),
                    )
                } else if !permitted(*actor, self.authority, journal.owner, needed) {
                    r == Err::<Vec<JournalDomainEvent>, JournalError>(
                        JournalError::Permissions(needed),
                    )
                } else {
                    r matches Ok(evs) && evs@ == seq![
                        (JournalDomainEvent::FundCreated {
                            fund_id: self.fund_id,
                            journal_id: self.journal_id,
                            fund_name: self.fund_name,
                            authority: self.authority,
                            timestamp: self.timestamp,
                        }),
                    ]
                }
            }),
    {
        if fund.status.found() {
            return Err(JournalError::FundIdCollision(self.fund_id));
        }
        if !journal.status.valid() {
            return Err(JournalError::InvalidJournal(self.journal_id));
        }
        if !validate_permissions(actor, self.authority, journal.owner, Permissions::create_fund()) {
            return Err(JournalError::Permissions(Permissions::create_fund()));
        }
        let mut evs: Vec<JournalDomainEvent> = Vec::new();
        evs.push(
            JournalDomainEvent::FundCreated {
                fund_id: self.fund_id,
                journal_id: self.journal_id,
                fund_name: self.fund_name.clone(),
                authority: self.authority,
                timestamp: self.timestamp,
            },
        );
        Ok(evs)
    }
}

/// A fund as listed to the journal's readers, with its balance.
#[derive(Debug)]
pub struct FundState {
    pub id: FundId,
    pub journal_id: JournalId,
    pub name: Name,
    pub balance: i64,
}

/// A stored fund row with the encoded creation event.
#[derive(Debug)]
pub struct FundStateWithPayload {
    pub id: FundId,
    pub journal_id: JournalId,
    pub name: Name,
    pub balance: i64,
    pub payload: Vec<u8>,
}

} // verus!
