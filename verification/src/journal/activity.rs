//! Activities of a journal: what money is spent on or received for.

use crate::authority::Authority;
use crate::ids::{ActivityId, JournalId};
use crate::journal::account::{actor_member, actor_member_query};
use crate::journal::error::JournalError;
use crate::journal::event::JournalDomainEvent;
use crate::journal::member::JournalMember;
use crate::journal::{Journal, permitted, validate_permissions};
use crate::name::Name;
use crate::permissions::Permissions;
use crate::status::Status;
use crate::store::Timestamp;
use vstd::prelude::*;

verus! {

/// Income, expense, or a transfer between activities.
#[derive(Clone, Copy, PartialEq, Eq, Structural, Debug, Hash)]
pub enum ActivityType {
    Income,
    Expense,
    Transfer,
}

/// A stored activity type other than 0, 1 or 2.
#[derive(Debug, Clone, PartialEq, Eq)]
pub struct ActivityTypeFromIntError(pub i8);

impl ActivityType {
    /// The stored number of the type: 0 income, 1 expense, 2 transfer.
    pub open spec fn spec_code(&self) -> i8 {
        match self {
            ActivityType::Income => 0,
            ActivityType::Expense => 1,
            ActivityType::Transfer => 2,
        }
    }

    /// The stored number of the type.
    pub fn code(&self) -> (c: i8)
        ensures
            c == self.spec_code(),
    {
        match self {
            ActivityType::Income => 0,
            ActivityType::Expense => 1,
            ActivityType::Transfer => 2,
        }
    }

    /// The type with this stored number.
    pub fn try_from(value: i8) -> (r: Result<ActivityType, ActivityTypeFromIntError>)
        ensures
            r matches Ok(t) ==> t.spec_code() == value,
            r is Err <==> !(0 <= value <= 2),
            r matches Err(e) ==> e == ActivityTypeFromIntError(value),
    {
        if value == 0 {
            Ok(ActivityType::Income)
        } else if value == 1 {
            Ok(ActivityType::Expense)
        } else if value == 2 {
            Ok(ActivityType::Transfer)
        } else {
            Err(ActivityTypeFromIntError(value))
        }
    }
}

impl Default for ActivityType {
    fn default() -> (t: ActivityType)
        ensures
            t == ActivityType::Income,
    {
        ActivityType::Income
    }
}

/// An activity, as folded from its creation event.
#[derive(Debug, Clone)]
pub struct Activity {
    pub activity_id: ActivityId,
    pub journal_id: JournalId,
    pub activity_type: ActivityType,
    pub name: Name,
    pub status: Status,
}

impl Activity {
    /// An activity that was never created.
    pub fn new(journal_id: JournalId, activity_id: ActivityId) -> (a: Activity)
        ensures
            a.activity_id == activity_id,
            a.journal_id == journal_id,
            a.activity_type == ActivityType::Income,
            a.name@ == "examplename"@,
            a.status == Status::Missing,
    {
        Activity {
            activity_id,
            journal_id,
            activity_type: ActivityType::default(),
            name: Name::default(),
            status: Status::default(),
        }
    }

    /// Applies the creation event; other events leave the activity unchanged.
    pub fn mutate(&mut self, event: JournalDomainEvent)
        ensures
            match event {
                JournalDomainEvent::ActivityCreated {
                    activity_id,
                    journal_id,
                    activity_name,
                    activity_type,
                    ..
                } => *final(self) == (Activity {
                    activity_id,
                    journal_id,
                    activity_type,
                    name: activity_name,
                    status: Status::Valid,
                }),
                _ => *final(self) == *old(self),
            },
    {
        match event {
            JournalDomainEvent::ActivityCreated {
                activity_id,
                journal_id,
                activity_name,
                activity_type,
                ..
            } => {
                self.activity_id = activity_id;
                self.journal_id = journal_id;
                self.name = activity_name;
                self.activity_type = activity_type;
                self.status = Status::Valid;
            },
            _ => {},
        }
    }
}

/// Creates an activity in a journal.
pub struct CreateActivity {
    pub activity_id: ActivityId,
    pub journal_id: JournalId,
    pub activity_name: Name,
    pub activity_type: ActivityType,
    pub authority: Authority,
    pub timestamp: Timestamp,
}

impl CreateActivity {
    pub fn new(
        activity_id: ActivityId,
        journal_id: JournalId,
        activity_name: Name,
        activity_type: ActivityType,
        authority: Authority,
        timestamp: Timestamp,
    ) -> (c: CreateActivity)
        ensures
            c == (CreateActivity {
                activity_id,
                journal_id,
                activity_name,
                activity_type,
                authority,
                timestamp,
            }),
    {
        CreateActivity { activity_id, journal_id, activity_name, activity_type, authority, timestamp }
    }

    /// The journal, the actor's membership and the activity.
    pub fn state_query(&self) -> (q: (Journal, JournalMember, Activity))
        ensures
            q.0.journal_id == self.journal_id,
            q.0.status == Status::Missing,
            q.1 == actor_member(self.journal_id, self.authority),
            q.2.activity_id == self.activity_id,
            q.2.journal_id == self.journal_id,
            q.2.status == Status::Missing,
    {
        (
            Journal::new(self.journal_id),
            actor_member_query(self.journal_id, self.authority),
            Activity::new(self.journal_id, self.activity_id),
        )
    }

    /// Fails if the identifier is taken, if the journal does not exist, or if the actor
    /// may not create activities; otherwise the activity is created.
    pub fn process(&self, journal: &Journal, actor: &JournalMember, activity: &Activity) -> (r:
        Result<Vec<JournalDomainEvent>, JournalError>)
        ensures
            ({
                let needed = Permissions { bits: 4 };
                if activity.status != Status::Missing {
                    r == Err::<Vec<JournalDomainEvent>, JournalError>(
                        JournalError::ActivityIdCollision(self.activity_id),
                    )
                } else if journal.status != Status::Valid {
                    r == Err::<Vec<JournalDomainEvent>, JournalError>(
                        JournalError::InvalidJournal(self.journal_id),
                    )
                } else if !permitted(*actor, self.authority, journal.owner, needed) {
                    r == Err::<Vec<JournalDomainEvent>, JournalError>(
                        JournalError::Permissions(needed),
                    )
                } else {
                    r matches Ok(evs) && evs@ == seq![
                        (JournalDomainEvent::ActivityCreated {
                            activity_id: self.activity_id,
                            journal_id: self.journal_id,
                            activity_name: self.activity_name,
                            activity_type: self.activity_type,
                            authority: self.authority,
                            timestamp: self.timestamp,
                        }),
                    ]
                }
            }),
    {
        if activity.status.found() {
            return Err(JournalError::ActivityIdCollision(self.activity_id));
        }
        if !journal.status.valid() {
            return Err(JournalError::InvalidJournal(self.journal_id));
        }
        if !validate_permissions(
            actor,
            self.authority,
            journal.owner,
            Permissions::create_activity(),
        ) {
            return Err(JournalError::Permissions(Permissions::create_activity()));
        }
        let mut evs: Vec<JournalDomainEvent> = Vec::new();
        evs.push(
            JournalDomainEvent::ActivityCreated {
                activity_id: self.activity_id,
                journal_id: self.journal_id,
                activity_name: self.activity_name.clone(),
                activity_type: self.activity_type,
                authority: self.authority,
                timestamp: self.timestamp,
            },
        );
        Ok(evs)
    }
}

/// An activity as listed to the journal's readers, with its balance.
#[derive(Debug)]
pub struct ActivityState {
    pub id: ActivityId,
    pub journal_id: JournalId,
    pub name: Name,
    pub activity_type: ActivityType,
    pub balance: i64,
}

/// A stored activity row with the encoded creation event.
#[derive(Debug)]
pub struct ActivityStateWithPayload {
    pub id: ActivityId,
    pub journal_id: JournalId,
    pub name: Name,
    pub activity_type: ActivityType,
    pub balance: i64,
    pub payload: Vec<u8>,
}

} // verus!
