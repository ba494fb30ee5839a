//! Grants: a grant is created once and can be revoked once. The service writes grant
//! events to an event store with optimistic concurrency and retries a bounded number of
//! times when another writer got there first.

use crate::authority::Authority;
use crate::ids::GrantId;
use crate::store::{
    After, Event, EventId, Outcome, Page, Retry, Step, StoreCall, When, after_attempt, one_more_attempt,
};
use vstd::prelude::*;

verus! {

/// What can happen to a grant.
#[derive(Clone, Copy, PartialEq, Eq, Structural, Debug, Hash)]
pub enum GrantPayload {
    Created,
    Revoked,
}

/// An event of a grant stream.
pub type GrantEvent = Event<GrantId, GrantPayload>;

/// A grant as folded from its events.
#[derive(Clone, Copy, PartialEq, Eq, Structural, Debug)]
pub enum GrantState {
    Absent,
    Active { when: When },
    Revoked { when: When },
}

/// An event that does not follow from the grant's state.
#[derive(Debug, Clone, Copy, PartialEq, Eq)]
pub struct GrantStateError;

/// The state after the event, or `None` if the event cannot follow the state: a grant is
/// created from nothing and revoked while active; each event becomes the grant's latest.
pub open spec fn grant_step(s: GrantState, e: GrantEvent) -> Option<GrantState> {
    let when = When::Within(e.event_id);
    match (s, e.payload) {
        (GrantState::Absent, GrantPayload::Created) => Some(GrantState::Active { when }),
        (GrantState::Active { .. }, GrantPayload::Revoked) => Some(GrantState::Revoked { when }),
        _ => None,
    }
}

/// The state after the events, or `None` if one of them cannot follow.
pub open spec fn grant_replay(s: GrantState, es: Seq<GrantEvent>) -> Option<GrantState>
    decreases es.len(),
{
    if es.len() == 0 {
        Some(s)
    } else {
        match grant_replay(s, es.drop_last()) {
            Some(t) => grant_step(t, es.last()),
            None => None,
        }
    }
}

impl GrantState {
    /// Applies an event; the state is unchanged when the event cannot follow it.
    pub fn apply(&mut self, event: GrantEvent) -> (r: Result<(), GrantStateError>)
        ensures
            r is Ok <==> grant_step(*old(self), event) is Some,
            r is Ok ==> Some(*final(self)) == grant_step(*old(self), event),
            r is Err ==> *final(self) == *old(self),
    {
        let when = When::Within(event.event_id);
        let next = match (*self, event.payload) {
            (GrantState::Absent, GrantPayload::Created) => GrantState::Active { when },
            (GrantState::Active { .. }, GrantPayload::Revoked) => GrantState::Revoked { when },
            _ => return Err(GrantStateError),
        };
        *self = next;
        Ok(())
    }
}

/// Why a grant could not be created.
#[derive(Debug)]
pub enum GrantCreateError<E> {
    /// Every attempt found the new grant's stream taken.
    AttemptsExceeded,
    /// The store failed.
    Store(E),
}

/// Why a grant could not be revoked.
#[derive(Debug)]
pub enum GrantRevokeError<E> {
    /// No such grant.
    InvalidGrant(GrantId),
    /// The grant's stream holds events that do not form a grant.
    UnexpectedHistory(GrantId),
    /// Every attempt lost to another writer.
    AttemptsExceeded,
    /// The store failed.
    Store(E),
}

/// The stream of grant events.
pub struct GrantStream;

/// Creates and revokes grants in a store.
pub struct GrantService<G> {
    pub store: G,
}

/// How many events a grant stream holds at most.
pub const MAX_EVENTS_PER_GRANT: usize = 2;

/// How many times creation is tried.
pub const MAX_CREATE_ATTEMPTS: usize = 8;

/// How many times revocation is tried.
pub const MAX_REVOKE_ATTEMPTS: usize = 8;

/// What a revocation does after reading the grant's stream.
#[derive(Clone, Copy, PartialEq, Eq, Structural, Debug)]
pub enum RevokeDecision {
    /// The stream holds more than a grant's events, or events that do not form a grant.
    UnexpectedHistory,
    /// The stream is empty: there is no such grant.
    InvalidGrant,
    /// The grant is already revoked: nothing to record.
    AlreadyRevoked,
    /// Record the revocation on condition that the latest event is still the one given.
    Record(When),
}

/// What a revocation does after reading the grant's stream (at most
/// `MAX_EVENTS_PER_GRANT` events, and whether more follow).
pub open spec fn revoke_decision(items: Seq<GrantEvent>, more: bool) -> RevokeDecision {
    if more {
        RevokeDecision::UnexpectedHistory
    } else {
        match grant_replay(GrantState::Absent, items) {
            None => RevokeDecision::UnexpectedHistory,
            Some(GrantState::Absent) => RevokeDecision::InvalidGrant,
            Some(GrantState::Revoked { .. }) => RevokeDecision::AlreadyRevoked,
            Some(GrantState::Active { when }) => RevokeDecision::Record(when),
        }
    }
}

/// The plan that a decision gives: the error, nothing to record, or the revocation and
/// its condition.
pub open spec fn spec_revoke_plan<E>(
    grant_id: GrantId,
    d: RevokeDecision,
    r: Result<Option<(GrantPayload, When)>, GrantRevokeError<E>>,
) -> bool {
    match d {
        RevokeDecision::UnexpectedHistory => r matches Err(GrantRevokeError::UnexpectedHistory(g))
            && g == grant_id,
        RevokeDecision::InvalidGrant => r matches Err(GrantRevokeError::InvalidGrant(g)) && g == grant_id,
        RevokeDecision::AlreadyRevoked => r matches Ok(None),
        RevokeDecision::Record(when) => r matches Ok(Some((p, w))) && p == GrantPayload::Revoked && w
            == when,
    }
}

impl<G> GrantService<G> {
    pub fn new(store: G) -> (s: Self)
        ensures
            s.store == store,
    {
        GrantService { store }
    }

    /// What follows an attempt to record the creation of `grant_id`: the grant on success,
    /// `None` to try again with a fresh identifier, or the error once the attempts are spent.
    pub fn after_create_attempt<E>(grant_id: GrantId, attempts_made: usize, outcome: Outcome) -> (r:
        Option<Result<GrantId, GrantCreateError<E>>>)
        ensures
            outcome is Recorded ==> (r matches Some(Ok(g)) && g == grant_id),
            outcome is Skipped && attempts_made < MAX_CREATE_ATTEMPTS ==> r is None,
            outcome is Skipped && attempts_made >= MAX_CREATE_ATTEMPTS ==> r matches Some(
                Err(GrantCreateError::AttemptsExceeded),
            ),
    {
        match after_attempt(attempts_made, MAX_CREATE_ATTEMPTS, outcome) {
            Retry::Done => Some(Ok(grant_id)),
            Retry::Again => None,
            Retry::Exhausted => Some(Err(GrantCreateError::AttemptsExceeded)),
        }
    }

    /// What a revocation records after reading a page of the grant's stream: nothing
    /// (with an error, or because the grant is already revoked), or `Revoked` on
    /// condition that the grant's latest event is still the one read.
    pub fn revoke_plan<E>(grant_id: GrantId, page: &Page<GrantEvent>) -> (r: Result<
        Option<(GrantPayload, When)>,
        GrantRevokeError<E>,
    >)
        ensures
            spec_revoke_plan(grant_id, revoke_decision(page.items@, page.more), r),
    {
        if page.more {
            return Err(GrantRevokeError::UnexpectedHistory(grant_id));
        }
        let mut state = GrantState::Absent;
        let mut i: usize = 0;
        while i < page.items.len()
            invariant
                i <= page.items@.len(),
                grant_replay(GrantState::Absent, page.items@.take(i as int)) == Some(state),
            decreases page.items@.len() - i,
        {
            let ghost before = state;
            assert(page.items@.take(i as int + 1).drop_last() =~= page.items@.take(i as int));
            match state.apply(page.items[i]) {
                Ok(()) => {},
                Err(_) => {
                    proof {
                        lemma_grant_replay_stuck(page.items@, i as int);
                    }
                    return Err(GrantRevokeError::UnexpectedHistory(grant_id));
                },
            }
            i = i + 1;
        }
        assert(page.items@.take(page.items@.len() as int) =~= page.items@);
        match state {
            GrantState::Absent => Err(GrantRevokeError::InvalidGrant(grant_id)),
            GrantState::Revoked { .. } => Ok(None),
            GrantState::Active { when } => Ok(Some((GrantPayload::Revoked, when))),
        }
    }

    /// What follows an attempt to record a revocation: done on success, `None` to read the
    /// stream again, or the error once the attempts are spent.
    pub fn after_revoke_attempt<E>(attempts_made: usize, outcome: Outcome) -> (r: Option<
        Result<(), GrantRevokeError<E>>,
    >)
        ensures
            outcome is Recorded ==> r matches Some(Ok(())),
            outcome is Skipped && attempts_made < MAX_REVOKE_ATTEMPTS ==> r is None,
            outcome is Skipped && attempts_made >= MAX_REVOKE_ATTEMPTS ==> r matches Some(
                Err(GrantRevokeError::AttemptsExceeded),
            ),
    {
        match after_attempt(attempts_made, MAX_REVOKE_ATTEMPTS, outcome) {
            Retry::Done => Some(Ok(())),
            Retry::Again => None,
            Retry::Exhausted => Some(Err(GrantRevokeError::AttemptsExceeded)),
        }
    }
}

/// Creating a grant, one store call at a time: each attempt records `Created` for a
/// fresh identifier on condition that its stream is empty, up to `MAX_CREATE_ATTEMPTS`
/// attempts.
#[derive(Debug)]
pub struct GrantCreation {
    pub authority: Authority,
    /// The identifier of the current attempt.
    pub grant_id: GrantId,
    /// The attempts made so far, the current one included.
    pub attempts: usize,
}

impl GrantCreation {
    /// The first attempt: record `Created` for a fresh identifier on an empty stream.
    pub fn start(authority: Authority) -> (r: (GrantCreation, StoreCall<GrantId, GrantPayload>))
        ensures
            r.0.authority == authority,
            r.0.attempts == 1,
            r.0.grant_id.0.wf() && r.0.grant_id.0 is Cuid16,
            crate::ident::spec_is_cuid2(r.0.grant_id.0@) && r.0.grant_id.0@.len() <= 16,
            r.1 == (StoreCall::Record {
                authority,
                id: r.0.grant_id,
                payload: GrantPayload::Created,
                when: When::Empty,
            }),
    {
        let grant_id = GrantId::new();
        (
            GrantCreation { authority, grant_id, attempts: 1 },
            StoreCall::Record { authority, id: grant_id, payload: GrantPayload::Created, when: When::Empty },
        )
    }

    /// Follows the store's reply to the attempt: its error ends the creation; a recorded
    /// event gives the grant; if the stream was taken, a new attempt with a fresh
    /// identifier is made unless `MAX_CREATE_ATTEMPTS` were made.
    pub fn recorded<E>(&mut self, reply: Result<Outcome, E>) -> (s: Step<
        GrantId,
        GrantPayload,
        Result<GrantId, GrantCreateError<E>>,
    >)
        ensures
            final(self).authority == old(self).authority,
            reply matches Err(e) ==> (s matches Step::Done(Err(GrantCreateError::Store(x))) && x == e),
            reply matches Ok(Outcome::Recorded(_)) ==> (s matches Step::Done(Ok(g)) && g == old(
                self,
            ).grant_id),
            reply matches Ok(Outcome::Skipped) && old(self).attempts >= MAX_CREATE_ATTEMPTS ==> (
            s matches Step::Done(Err(GrantCreateError::AttemptsExceeded))),
            reply matches Ok(Outcome::Skipped) && old(self).attempts < MAX_CREATE_ATTEMPTS ==> {
                &&& final(self).attempts == old(self).attempts + 1
                &&& final(self).grant_id.0.wf() && final(self).grant_id.0 is Cuid16
                &&& crate::ident::spec_is_cuid2(final(self).grant_id.0@) && final(self).grant_id.0@.len() <= 16
                &&& s matches Step::Call(c) && c == (StoreCall::Record {
                    authority: old(self).authority,
                    id: final(self).grant_id,
                    payload: GrantPayload::Created,
                    when: When::Empty,
                })
            },
    {
        let outcome = match reply {
            Ok(o) => o,
            Err(e) => return Step::Done(Err(GrantCreateError::Store(e))),
        };
        match GrantService::<()>::after_create_attempt(self.grant_id, self.attempts, outcome) {
            Some(r) => Step::Done(r),
            None => {
                self.attempts = self.attempts + 1;
                self.grant_id = GrantId::new();
                Step::Call(
                    StoreCall::Record {
                        authority: self.authority,
                        id: self.grant_id,
                        payload: GrantPayload::Created,
                        when: When::Empty,
                    },
                )
            },
        }
    }
}

/// Revoking a grant, one store call at a time: read the grant's stream, decide, and
/// record `Revoked` on condition that the stream has not changed; if another writer got
/// there first, read again, up to `MAX_REVOKE_ATTEMPTS` recording attempts.
#[derive(Debug)]
pub struct GrantRevocation {
    pub grant_id: GrantId,
    pub authority: Authority,
    /// The recording attempts that another writer beat so far.
    pub attempts: usize,
}

impl GrantRevocation {
    /// The first read of the grant's stream, from its start.
    pub fn start(grant_id: GrantId, authority: Authority) -> (r: (
        GrantRevocation,
        StoreCall<GrantId, GrantPayload>,
    ))
        ensures
            r.0.grant_id == grant_id,
            r.0.authority == authority,
            r.0.attempts == 0,
            r.1 == (StoreCall::<GrantId, GrantPayload>::Review {
                id: grant_id,
                after: After::Start,
                limit: MAX_EVENTS_PER_GRANT,
            }),
    {
        (
            GrantRevocation { grant_id, authority, attempts: 0 },
            StoreCall::Review { id: grant_id, after: After::Start, limit: MAX_EVENTS_PER_GRANT },
        )
    }

    /// Follows the store's reply to a read: its error ends the revocation; otherwise the
    /// decision on what was read ends it, or asks to record `Revoked` under its condition.
    pub fn reviewed<E>(&self, reply: Result<Page<GrantEvent>, E>) -> (s: Step<
        GrantId,
        GrantPayload,
        Result<(), GrantRevokeError<E>>,
    >)
        ensures
            reply matches Err(e) ==> (s matches Step::Done(Err(GrantRevokeError::Store(x))) && x == e),
            reply matches Ok(page) ==> match revoke_decision(page.items@, page.more) {
                RevokeDecision::UnexpectedHistory => (s matches Step::Done(
                    Err(GrantRevokeError::UnexpectedHistory(g)),
                ) && g == self.grant_id),
                RevokeDecision::InvalidGrant => (s matches Step::Done(Err(GrantRevokeError::InvalidGrant(g)))
                    && g == self.grant_id),
                RevokeDecision::AlreadyRevoked => (s matches Step::Done(Ok(()))),
                RevokeDecision::Record(w) => (s matches Step::Call(c) && c == (StoreCall::Record {
                    authority: self.authority,
                    id: self.grant_id,
                    payload: GrantPayload::Revoked,
                    when: w,
                })),
            },
    {
        let page = match reply {
            Ok(p) => p,
            Err(e) => return Step::Done(Err(GrantRevokeError::Store(e))),
        };
        match GrantService::<()>::revoke_plan(self.grant_id, &page) {
            Err(e) => Step::Done(Err(e)),
            Ok(None) => Step::Done(Ok(())),
            Ok(Some((payload, when))) => Step::Call(
                StoreCall::Record { authority: self.authority, id: self.grant_id, payload, when },
            ),
        }
    }

    /// Follows the store's reply to a recording attempt: its error ends the revocation; a
    /// recorded event finishes it; if another writer got there first, the stream is read
    /// again, unless this was attempt `MAX_REVOKE_ATTEMPTS`.
    pub fn recorded<E>(&mut self, reply: Result<Outcome, E>) -> (s: Step<
        GrantId,
        GrantPayload,
        Result<(), GrantRevokeError<E>>,
    >)
        ensures
            final(self).grant_id == old(self).grant_id,
            final(self).authority == old(self).authority,
            reply matches Err(e) ==> (s matches Step::Done(Err(GrantRevokeError::Store(x))) && x == e),
            reply matches Ok(Outcome::Recorded(_)) ==> (s matches Step::Done(Ok(()))),
            reply matches Ok(Outcome::Skipped) && old(self).attempts + 1 >= MAX_REVOKE_ATTEMPTS ==> (
            s matches Step::Done(Err(GrantRevokeError::AttemptsExceeded))),
            reply matches Ok(Outcome::Skipped) && old(self).attempts + 1 < MAX_REVOKE_ATTEMPTS ==> {
                &&& final(self).attempts == old(self).attempts + 1
                &&& s matches Step::Call(c) && c == (StoreCall::<GrantId, GrantPayload>::Review {
                    id: old(self).grant_id,
                    after: After::Start,
                    limit: MAX_EVENTS_PER_GRANT,
                })
            },
    {
        let outcome = match reply {
            Ok(o) => o,
            Err(e) => return Step::Done(Err(GrantRevokeError::Store(e))),
        };
        let made = one_more_attempt(self.attempts);
        match GrantService::<()>::after_revoke_attempt(made, outcome) {
            Some(r) => Step::Done(r),
            None => {
                self.attempts = made;
                Step::Call(
                    StoreCall::Review { id: self.grant_id, after: After::Start, limit: MAX_EVENTS_PER_GRANT },
                )
            },
        }
    }
}

proof fn lemma_grant_replay_stuck(es: Seq<GrantEvent>, i: int)
    requires
        0 <= i < es.len(),
        grant_replay(GrantState::Absent, es.take(i)) matches Some(s) && grant_step(s, es[i]) is None,
    ensures
        grant_replay(GrantState::Absent, es) is None,
    decreases es.len() - i,
{
    let k = es.len() - 1;
    if i == k {
        assert(es.drop_last() =~= es.take(i));
    } else {
        assert(es.drop_last().take(i) =~= es.take(i));
        assert(es.drop_last()[i] == es[i]);
        lemma_grant_replay_stuck(es.drop_last(), i);
    }
}

/// The grant histories are exactly the prefixes of "created, then revoked": replaying a
/// stream succeeds if and only if its payloads are none, `Created`, or `Created` then
/// `Revoked`.
pub proof fn lemma_grant_histories(es: Seq<GrantEvent>)
    ensures
        grant_replay(GrantState::Absent, es) is Some <==> {
            ||| es.len() == 0
            ||| es.len() == 1 && es[0].payload == GrantPayload::Created
            ||| es.len() == 2 && es[0].payload == GrantPayload::Created && es[1].payload
                == GrantPayload::Revoked
        },
        es.len() == 1 && es[0].payload == GrantPayload::Created ==> grant_replay(
            GrantState::Absent,
            es,
        ) == Some(GrantState::Active { when: When::Within(es[0].event_id) }),
        es.len() == 2 && es[0].payload == GrantPayload::Created && es[1].payload
            == GrantPayload::Revoked ==> grant_replay(GrantState::Absent, es) == Some(
            GrantState::Revoked { when: When::Within(es[1].event_id) },
        ),
    decreases es.len(),
{
    if es.len() > 0 {
        lemma_grant_histories(es.drop_last());
        if es.len() > 2 {
            lemma_grant_revoked_is_final(es.drop_last());
        }
        if es.len() >= 2 {
            assert(es.drop_last().drop_last() =~= es.take(es.len() - 2));
        }
    }
}

proof fn lemma_grant_revoked_is_final(es: Seq<GrantEvent>)
    requires
        es.len() >= 2,
    ensures
        grant_replay(GrantState::Absent, es) matches Some(s) ==> s is Revoked,
    decreases es.len(),
{
    if es.len() > 2 {
        lemma_grant_revoked_is_final(es.drop_last());
    } else {
        let e = es.drop_last();
        assert(e.drop_last() =~= Seq::<GrantEvent>::empty());
        assert(grant_replay(GrantState::Absent, e.drop_last()) == Some(GrantState::Absent));
        assert(grant_replay(GrantState::Absent, e) == grant_step(GrantState::Absent, e.last()));
    }
}

} // verus!
