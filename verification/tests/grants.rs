use monkesto::authority::{Actor, Authority};
use monkesto::grant::{
    GrantCreateError, GrantCreation, GrantPayload, GrantRevocation, GrantRevokeError, GrantService,
    GrantState, MAX_CREATE_ATTEMPTS, MAX_REVOKE_ATTEMPTS,
};
use monkesto::ids::GrantId;
use monkesto::store::{After, Event, EventId, Outcome, Page, Step, StoreCall, When};

/// A store of grant events that records an event only when its condition holds.
struct TestStore {
    events: Vec<Event<GrantId, GrantPayload>>,
    authorities: Vec<Authority>,
    record_calls: usize,
    next: u64,
}

impl TestStore {
    fn new() -> Self {
        TestStore { events: Vec::new(), authorities: Vec::new(), record_calls: 0, next: 0 }
    }

    fn latest(&self, id: GrantId) -> Option<EventId> {
        self.events.iter().filter(|e| e.id == id).last().map(|e| e.event_id)
    }

    fn record(&mut self, authority: Authority, id: GrantId, payload: GrantPayload, when: When) -> Outcome {
        self.record_calls += 1;
        let holds = match (when, self.latest(id)) {
            (When::Empty, None) => true,
            (When::Within(w), Some(l)) => w == l,
            _ => false,
        };
        if !holds {
            return Outcome::Skipped;
        }
        self.next += 1;
        let event_id = EventId(self.next);
        self.events.push(Event { event_id, id, payload });
        self.authorities.push(authority);
        Outcome::Recorded(event_id)
    }

    fn review(&self, id: GrantId) -> Page<Event<GrantId, GrantPayload>> {
        let items: Vec<_> = self.events.iter().filter(|e| e.id == id).copied().collect();
        let next = items.last().map(|e| e.event_id).unwrap_or(EventId(0));
        Page { items, more: false, next }
    }
}

fn system() -> Authority {
    Authority::Direct(Actor::System)
}

/// Makes the call on the store and hands its reply to the step function.
fn run<T>(
    store: &mut TestStore,
    first: StoreCall<GrantId, GrantPayload>,
    mut reviewed: impl FnMut(Page<Event<GrantId, GrantPayload>>) -> Step<GrantId, GrantPayload, T>,
    mut recorded: impl FnMut(Outcome) -> Step<GrantId, GrantPayload, T>,
) -> T {
    let mut call = first;
    loop {
        let step = match call {
            StoreCall::Record { authority, id, payload, when } => recorded(store.record(authority, id, payload, when)),
            StoreCall::Review { id, after, limit } => {
                assert_eq!(after, After::Start);
                assert_eq!(limit, 2);
                reviewed(store.review(id))
            }
            StoreCall::Observe { .. } => panic!("grants are read by stream"),
        };
        match step {
            Step::Call(c) => call = c,
            Step::Done(r) => return r,
        }
    }
}

fn create(store: &mut TestStore) -> Result<GrantId, GrantCreateError<()>> {
    let (creation, first) = GrantCreation::start(system());
    let creation = std::cell::RefCell::new(creation);
    run(store, first, |_| panic!("creation does not read"), |o| creation.borrow_mut().recorded(Ok(o)))
}

fn revoke(store: &mut TestStore, grant_id: GrantId) -> Result<(), GrantRevokeError<()>> {
    let (revocation, first) = GrantRevocation::start(grant_id, system());
    let revocation = std::cell::RefCell::new(revocation);
    run(store, first, |p| revocation.borrow().reviewed(Ok(p)), |o| revocation.borrow_mut().recorded(Ok(o)))
}

#[test]
fn create_succeeds() {
    let mut store = TestStore::new();
    create(&mut store).expect("create should succeed");
}

#[test]
fn revoke_succeeds() {
    let mut store = TestStore::new();
    let grant_id = create(&mut store).expect("create should succeed");
    revoke(&mut store, grant_id).expect("revoke should succeed");
    let payloads: Vec<GrantPayload> = store.events.iter().filter(|e| e.id == grant_id).map(|e| e.payload).collect();
    assert_eq!(payloads, vec![GrantPayload::Created, GrantPayload::Revoked]);
    assert_eq!(store.authorities, vec![system(), system()]);
}

#[test]
fn create_records_created_once_with_the_authority() {
    let mut store = TestStore::new();
    let grant_id = create(&mut store).expect("create should succeed");
    assert_eq!(store.events.len(), 1);
    assert_eq!(store.events[0].id, grant_id);
    assert_eq!(store.events[0].payload, GrantPayload::Created);
    assert_eq!(store.authorities, vec![system()]);
}

#[test]
fn creation_retries_with_fresh_identifiers_then_gives_up() {
    let (mut creation, first) = GrantCreation::start(system());
    let mut ids = vec![match first {
        StoreCall::Record { id, payload: GrantPayload::Created, when: When::Empty, .. } => id,
        _ => panic!("a record call was expected"),
    }];
    loop {
        match creation.recorded::<()>(Ok(Outcome::Skipped)) {
            Step::Call(StoreCall::Record { id, payload: GrantPayload::Created, when: When::Empty, authority }) => {
                assert_eq!(authority, system());
                assert!(!ids.contains(&id));
                ids.push(id);
            }
            Step::Done(r) => {
                assert!(matches!(r, Err(GrantCreateError::AttemptsExceeded)));
                break;
            }
            _ => panic!("unexpected step"),
        }
    }
    assert_eq!(ids.len(), MAX_CREATE_ATTEMPTS);
    let (mut failing, _) = GrantCreation::start(system());
    assert!(matches!(failing.recorded::<u8>(Err(4)), Step::Done(Err(GrantCreateError::Store(4)))));
}

#[test]
fn revocation_retries_then_gives_up() {
    let mut store = TestStore::new();
    let grant_id = create(&mut store).expect("create should succeed");
    let (mut revocation, first) = GrantRevocation::start(grant_id, system());
    assert_eq!(first, StoreCall::Review { id: grant_id, after: After::Start, limit: 2 });
    let mut records = 0;
    loop {
        match revocation.reviewed::<()>(Ok(store.review(grant_id))) {
            Step::Call(StoreCall::Record { payload, when, id, .. }) => {
                assert_eq!(id, grant_id);
                assert_eq!(payload, GrantPayload::Revoked);
                assert_eq!(when, When::Within(EventId(1)));
            }
            _ => panic!("a record call was expected"),
        }
        records += 1;
        match revocation.recorded::<()>(Ok(Outcome::Skipped)) {
            Step::Call(c) => assert_eq!(c, StoreCall::Review { id: grant_id, after: After::Start, limit: 2 }),
            Step::Done(r) => {
                assert!(matches!(r, Err(GrantRevokeError::AttemptsExceeded)));
                break;
            }
        }
    }
    assert_eq!(records, MAX_REVOKE_ATTEMPTS);
    assert!(matches!(revocation.reviewed::<u8>(Err(2)), Step::Done(Err(GrantRevokeError::Store(2)))));
    assert!(matches!(revocation.recorded::<u8>(Err(3)), Step::Done(Err(GrantRevokeError::Store(3)))));
}

#[test]
fn revoke_fails_for_missing_grant() {
    let mut store = TestStore::new();
    let result = revoke(&mut store, GrantId::new());
    assert!(matches!(result, Err(GrantRevokeError::InvalidGrant(_))));
}

#[test]
fn revoke_is_idempotent() {
    let mut store = TestStore::new();
    let grant_id = create(&mut store).expect("create should succeed");
    revoke(&mut store, grant_id).expect("first revoke should succeed");
    let calls = store.record_calls;
    revoke(&mut store, grant_id).expect("second revoke should be a no-op");
    assert_eq!(store.events.len(), 2);
    assert_eq!(store.record_calls, calls);
}

#[test]
fn revoke_plan_of_active_grant_conditions_on_its_creation() {
    let mut store = TestStore::new();
    let grant_id = create(&mut store).expect("create should succeed");
    let page = store.review(grant_id);
    let plan = GrantService::<()>::revoke_plan::<()>(grant_id, &page);
    assert!(matches!(plan, Ok(Some((GrantPayload::Revoked, When::Within(EventId(1)))))));
}

#[test]
fn revoke_plan_refuses_a_stream_with_more_pages() {
    let grant_id = GrantId::new();
    let page = Page { items: Vec::new(), more: true, next: EventId(3) };
    let plan = GrantService::<()>::revoke_plan::<()>(grant_id, &page);
    assert!(matches!(plan, Err(GrantRevokeError::UnexpectedHistory(g)) if g == grant_id));
}

#[test]
fn revoke_plan_refuses_a_revocation_without_creation() {
    let grant_id = GrantId::new();
    let page = Page {
        items: vec![Event { event_id: EventId(1), id: grant_id, payload: GrantPayload::Revoked }],
        more: false,
        next: EventId(1),
    };
    let plan = GrantService::<()>::revoke_plan::<()>(grant_id, &page);
    assert!(matches!(plan, Err(GrantRevokeError::UnexpectedHistory(_))));
}

#[test]
fn create_gives_up_after_the_last_attempt() {
    let grant_id = GrantId::new();
    assert!(GrantService::<()>::after_create_attempt::<()>(grant_id, 1, Outcome::Skipped).is_none());
    assert!(matches!(
        GrantService::<()>::after_create_attempt::<()>(grant_id, MAX_CREATE_ATTEMPTS, Outcome::Skipped),
        Some(Err(GrantCreateError::AttemptsExceeded))
    ));
    assert!(matches!(
        GrantService::<()>::after_create_attempt::<()>(grant_id, 3, Outcome::Recorded(EventId(9))),
        Some(Ok(g)) if g == grant_id
    ));
}

#[test]
fn revoke_gives_up_after_the_last_attempt() {
    assert!(GrantService::<()>::after_revoke_attempt::<()>(MAX_REVOKE_ATTEMPTS - 1, Outcome::Skipped).is_none());
    assert!(matches!(
        GrantService::<()>::after_revoke_attempt::<()>(MAX_REVOKE_ATTEMPTS, Outcome::Skipped),
        Some(Err(GrantRevokeError::AttemptsExceeded))
    ));
}

#[test]
fn grant_state_follows_created_then_revoked() {
    let grant_id = GrantId::new();
    let mut state = GrantState::Absent;
    assert!(state
        .apply(Event { event_id: EventId(1), id: grant_id, payload: GrantPayload::Created })
        .is_ok());
    assert_eq!(state, GrantState::Active { when: When::Within(EventId(1)) });
    assert!(state
        .apply(Event { event_id: EventId(2), id: grant_id, payload: GrantPayload::Revoked })
        .is_ok());
    assert_eq!(state, GrantState::Revoked { when: When::Within(EventId(2)) });
    assert!(state
        .apply(Event { event_id: EventId(3), id: grant_id, payload: GrantPayload::Revoked })
        .is_err());
    assert_eq!(state, GrantState::Revoked { when: When::Within(EventId(2)) });
}
