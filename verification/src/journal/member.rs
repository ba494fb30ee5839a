//! Members of a journal: adding, re-permissioning and removing them.

use crate::authority::Authority;
use crate::idmap::IdMap;
use crate::ids::{JournalId, UserId};
use crate::journal::error::JournalError;
use crate::journal::event::JournalDomainEvent;
use crate::journal::{Journal, permitted, validate_permissions};
use crate::permissions::Permissions;
use crate::status::Status;
use crate::store::Timestamp;
use vstd::prelude::*;

verus! {

/// One user's membership of one journal, as folded from the membership events.
#[derive(Clone, Copy, PartialEq, Eq, Structural, Debug)]
pub struct JournalMember {
    pub journal_id: JournalId,
    pub user_id: UserId,
    pub permissions: Permissions,
    pub status: Status,
}

impl JournalMember {
    /// A user who was never a member.
    pub fn new(journal_id: JournalId, user_id: UserId) -> (m: JournalMember)
        ensures
            m == (JournalMember {
                journal_id,
                user_id,
                permissions: Permissions { bits: 0 },
                status: Status::Missing,
            }),
    {
        JournalMember {
            journal_id,
            user_id,
            permissions: Permissions::default(),
            status: Status::default(),
        }
    }

    /// Applies a membership event: adding sets the permissions and makes the membership
    /// valid, an update sets the permissions, removal marks the membership deleted; other
    /// events leave it unchanged.
    pub fn mutate(&mut self, event: JournalDomainEvent)
        ensures
            match event {
                JournalDomainEvent::MemberAdded { permissions, .. } => *final(self) == (
                JournalMember { permissions, status: Status::Valid, ..*old(self) }),
                JournalDomainEvent::MemberPermissionsUpdated { permissions, .. } => *final(self)
                    == (JournalMember { permissions, ..*old(self) }),
                JournalDomainEvent::MemberRemoved { .. } => *final(self) == (JournalMember {
                    status: Status::Deleted,
                    ..*old(self)
                }),
                _ => *final(self) == *old(self),
            },
    {
        match event {
            JournalDomainEvent::MemberAdded { permissions, .. } => {
                self.permissions = permissions;
                self.status = Status::Valid;
            },
            JournalDomainEvent::MemberPermissionsUpdated { permissions, .. } => {
                self.permissions = permissions;
            },
            JournalDomainEvent::MemberRemoved { .. } => {
                self.status = Status::Deleted;
            },
            _ => {},
        }
    }
}

/// The members of a journal and their permissions.
#[derive(Debug)]
pub struct JournalMemberList {
    pub journal_id: JournalId,
    pub members: IdMap<UserId, Permissions>,
}

impl JournalMemberList {
    pub open spec fn wf(&self) -> bool {
        self.members.wf()
    }

    /// A journal without members.
    pub fn new(journal_id: JournalId) -> (l: JournalMemberList)
        ensures
            l.wf(),
            l.journal_id == journal_id,
            l.members.spec_map() == Map::<UserId, Permissions>::empty(),
    {
        JournalMemberList { journal_id, members: IdMap::new() }
    }

    /// Applies a membership event to the list.
    pub fn mutate(&mut self, event: JournalDomainEvent)
        requires
            old(self).wf(),
        ensures
            final(self).wf(),
            final(self).journal_id == old(self).journal_id,
            match event {
                JournalDomainEvent::MemberAdded { user_id, permissions, .. } => final(self).members.spec_map() == old(self).members.spec_map().insert(user_id, permissions),
                JournalDomainEvent::MemberPermissionsUpdated { user_id, permissions, .. } => final(self).members.spec_map() == old(self).members.spec_map().insert(user_id, permissions),
                JournalDomainEvent::MemberRemoved { user_id, .. } => final(self).members.spec_map()
                    == old(self).members.spec_map().remove(user_id),
                _ => final(self).members.spec_map() == old(self).members.spec_map(),
            },
    {
        match event {
            JournalDomainEvent::MemberAdded { user_id, permissions, .. } => {
                self.members.insert(user_id, permissions);
            },
            JournalDomainEvent::MemberPermissionsUpdated { user_id, permissions, .. } => {
                self.members.insert(user_id, permissions);
            },
            JournalDomainEvent::MemberRemoved { user_id, .. } => {
                let _ = self.members.remove(&user_id);
            },
            _ => {},
        }
    }
}

/// The states that a membership command reads: the journal, the membership of the user it
/// concerns, and the membership of the actor.
pub open spec fn member_query(
    journal_id: JournalId,
    user_id: UserId,
    authority: Authority,
    q: (Journal, JournalMember, JournalMember),
) -> bool {
    &&& q.0.journal_id == journal_id
    &&& q.0.status == Status::Missing
    &&& q.1 == (JournalMember {
        journal_id,
        user_id,
        permissions: Permissions { bits: 0 },
        status: Status::Missing,
    })
    &&& q.2 == (JournalMember {
        journal_id,
        user_id: match authority.spec_user_id() {
            Some(u) => u,
            None => UserId(crate::ident::Ident::spec_nil()),
        },
        permissions: Permissions { bits: 0 },
        status: Status::Missing,
    })
}

fn member_state_query(journal_id: JournalId, user_id: UserId, authority: Authority) -> (q: (
    Journal,
    JournalMember,
    JournalMember,
))
    ensures
        member_query(journal_id, user_id, authority, q),
{
    let actor_id = match authority.user_id() {
        Some(u) => u,
        None => UserId::default(),
    };
    (
        Journal::new(journal_id),
        JournalMember::new(journal_id, user_id),
        JournalMember::new(journal_id, actor_id),
    )
}

/// Adds a user to a journal with the given permissions.
pub struct AddJournalMember {
    pub journal_id: JournalId,
    pub user_id: UserId,
    pub permissions: Permissions,
    pub authority: Authority,
    pub timestamp: Timestamp,
}

impl AddJournalMember {
    pub fn new(
        journal_id: JournalId,
        user_id: UserId,
        permissions: Permissions,
        authority: Authority,
        timestamp: Timestamp,
    ) -> (c: AddJournalMember)
        ensures
            c == (AddJournalMember { journal_id, user_id, permissions, authority, timestamp }),
    {
        AddJournalMember { journal_id, user_id, permissions, authority, timestamp }
    }

    /// The journal, the invited user's membership and the actor's membership.
    pub fn state_query(&self) -> (q: (Journal, JournalMember, JournalMember))
        ensures
            member_query(self.journal_id, self.user_id, self.authority, q),
    {
        member_state_query(self.journal_id, self.user_id, self.authority)
    }

    /// Fails if the journal does not exist, if the user already has access (as a member or
    /// as the owner), or if the actor may not invite with these permissions; otherwise the
    /// user becomes a member.
    pub fn process(
        &self,
        journal: &Journal,
        member: &JournalMember,
        actor: &JournalMember,
    ) -> (r: Result<Vec<JournalDomainEvent>, JournalError>)
        ensures
            ({
                let needed = Permissions { bits: 64 | self.permissions.bits };
                if journal.status != Status::Valid {
                    r == Err::<Vec<JournalDomainEvent>, JournalError>(
                        JournalError::InvalidJournal(self.journal_id),
                    )
                } else if member.status == Status::Valid || journal.owner == self.user_id {
                    r == Err::<Vec<JournalDomainEvent>, JournalError>(
                        JournalError::UserAlreadyHasAccess(self.user_id),
                    )
                } else if !permitted(*actor, self.authority, journal.owner, needed) {
                    r == Err::<Vec<JournalDomainEvent>, JournalError>(
                        JournalError::Permissions(needed),
                    )
                } else {
                    r matches Ok(evs) && evs@ == seq![
                        (JournalDomainEvent::MemberAdded {
                            journal_id: self.journal_id,
                            user_id: self.user_id,
                            permissions: self.permissions,
                            authority: self.authority,
                            timestamp: self.timestamp,
                        }),
                    ]
                }
            }),
    {
        if !journal.status.valid() {
            return Err(JournalError::InvalidJournal(self.journal_id));
        }
        if member.status.valid() || journal.owner == self.user_id {
            return Err(JournalError::UserAlreadyHasAccess(self.user_id));
        }
        let needed = Permissions::invite().union(self.permissions);
        if !validate_permissions(actor, self.authority, journal.owner, needed) {
            return Err(JournalError::Permissions(needed));
        }
        let mut evs: Vec<JournalDomainEvent> = Vec::new();
        evs.push(
            JournalDomainEvent::MemberAdded {
                journal_id: self.journal_id,
                user_id: self.user_id,
                permissions: self.permissions,
                authority: self.authority,
                timestamp: self.timestamp,
            },
        );
        Ok(evs)
    }
}

/// Replaces the permissions of a member.
pub struct UpdateJournalMember {
    pub journal_id: JournalId,
    pub user_id: UserId,
    pub permissions: Permissions,
    pub authority: Authority,
    pub timestamp: Timestamp,
}

impl UpdateJournalMember {
    pub fn new(
        journal_id: JournalId,
        user_id: UserId,
        permissions: Permissions,
        authority: Authority,
        timestamp: Timestamp,
    ) -> (c: UpdateJournalMember)
        ensures
            c == (UpdateJournalMember { journal_id, user_id, permissions, authority, timestamp }),
    {
        UpdateJournalMember { journal_id, user_id, permissions, authority, timestamp }
    }

    /// The journal, the member's membership and the actor's membership.
    pub fn state_query(&self) -> (q: (Journal, JournalMember, JournalMember))
        ensures
            member_query(self.journal_id, self.user_id, self.authority, q),
    {
        member_state_query(self.journal_id, self.user_id, self.authority)
    }

    /// Fails if the journal does not exist, if the user is not a member, or if the actor
    /// is neither owner nor holds the owner permission with the new permissions; otherwise
    /// the member's permissions are replaced.
    pub fn process(
        &self,
        journal: &Journal,
        member: &JournalMember,
        actor: &JournalMember,
    ) -> (r: Result<Vec<JournalDomainEvent>, JournalError>)
        ensures
            ({
                let needed = Permissions { bits: 128 | self.permissions.bits };
                if journal.status != Status::Valid {
                    r == Err::<Vec<JournalDomainEvent>, JournalError>(
                        JournalError::InvalidJournal(self.journal_id),
                    )
                } else if member.status != Status::Valid {
                    r == Err::<Vec<JournalDomainEvent>, JournalError>(
                        JournalError::UserDoesntHaveAccess(self.user_id),
                    )
                } else if !permitted(*actor, self.authority, journal.owner, needed) {
                    r == Err::<Vec<JournalDomainEvent>, JournalError>(
                        JournalError::Permissions(needed),
                    )
                } else {
                    r matches Ok(evs) && evs@ == seq![
                        (JournalDomainEvent::MemberPermissionsUpdated {
                            journal_id: self.journal_id,
                            user_id: self.user_id,
                            permissions: self.permissions,
                            authority: self.authority,
                            timestamp: self.timestamp,
                        }),
                    ]
                }
            }),
    {
        if !journal.status.valid() {
            return Err(JournalError::InvalidJournal(self.journal_id));
        }
        if !member.status.valid() {
            return Err(JournalError::UserDoesntHaveAccess(self.user_id));
        }
        let needed = Permissions::owner().union(self.permissions);
        if !validate_permissions(actor, self.authority, journal.owner, needed) {
            return Err(JournalError::Permissions(needed));
        }
        let mut evs: Vec<JournalDomainEvent> = Vec::new();
        evs.push(
            JournalDomainEvent::MemberPermissionsUpdated {
                journal_id: self.journal_id,
                user_id: self.user_id,
                permissions: self.permissions,
                authority: self.authority,
                timestamp: self.timestamp,
            },
        );
        Ok(evs)
    }
}

/// Removes a member from a journal.
pub struct RemoveJournalMember {
    pub journal_id: JournalId,
    pub user_id: UserId,
    pub authority: Authority,
    pub timestamp: Timestamp,
}

impl RemoveJournalMember {
    pub fn new(
        journal_id: JournalId,
        user_id: UserId,
        authority: Authority,
        timestamp: Timestamp,
    ) -> (c: RemoveJournalMember)
        ensures
            c == (RemoveJournalMember { journal_id, user_id, authority, timestamp }),
    {
        RemoveJournalMember { journal_id, user_id, authority, timestamp }
    }

    /// The journal, the member's membership and the actor's membership.
    pub fn state_query(&self) -> (q: (Journal, JournalMember, JournalMember))
        ensures
            member_query(self.journal_id, self.user_id, self.authority, q),
    {
        member_state_query(self.journal_id, self.user_id, self.authority)
    }

    /// Fails if the journal does not exist, if the user is not a member, or if the actor
    /// may not act as owner; otherwise the member is removed.
    pub fn process(
        &self,
        journal: &Journal,
        member: &JournalMember,
        actor: &JournalMember,
    ) -> (r: Result<Vec<JournalDomainEvent>, JournalError>)
        ensures
            ({
                let needed = Permissions { bits: 128 };
                if journal.status != Status::Valid {
                    r == Err::<Vec<JournalDomainEvent>, JournalError>(
                        JournalError::InvalidJournal(self.journal_id),
                    )
                } else if member.status != Status::Valid {
                    r == Err::<Vec<JournalDomainEvent>, JournalError>(
                        JournalError::UserDoesntHaveAccess(self.user_id),
                    )
                } else if !permitted(*actor, self.authority, journal.owner, needed) {
                    r == Err::<Vec<JournalDomainEvent>, JournalError>(
                        JournalError::Permissions(needed),
                    )
                } else {
                    r matches Ok(evs) && evs@ == seq![
                        (JournalDomainEvent::MemberRemoved {
                            journal_id: self.journal_id,
                            user_id: self.user_id,
                            authority: self.authority,
                            timestamp: self.timestamp,
                        }),
                    ]
                }
            }),
    {
        if !journal.status.valid() {
            return Err(JournalError::InvalidJournal(self.journal_id));
        }
        if !member.status.valid() {
            return Err(JournalError::UserDoesntHaveAccess(self.user_id));
        }
        if !validate_permissions(actor, self.authority, journal.owner, Permissions::owner()) {
            return Err(JournalError::Permissions(Permissions::owner()));
        }
        let mut evs: Vec<JournalDomainEvent> = Vec::new();
        evs.push(
            JournalDomainEvent::MemberRemoved {
                journal_id: self.journal_id,
                user_id: self.user_id,
                authority: self.authority,
                timestamp: self.timestamp,
            },
        );
        Ok(evs)
    }
}

} // verus!
