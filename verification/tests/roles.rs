use monkesto::authority::{Actor, Authority};
use monkesto::ids::{RoleId, UserId};
use monkesto::role::{
    LoadStep, LoadedRole, MemoryRoleProjection, ObserveRoleProjection, RoleAddError, RoleAddition,
    RoleCreateError, RoleCreation, RoleEvent, RoleLoader, RoleLookupError, RolePayload,
    RoleRemoval, RoleRemoveError, RoleReplay, RoleService, lookup_answer,
};
use monkesto::store::{After, Event, EventId, Outcome, Page, Step, StoreCall, When};
use std::cell::RefCell;
use std::rc::Rc;

/// A shared store of role events that records an event only when its condition holds.
#[derive(Clone)]
struct TestStore {
    events: Rc<RefCell<Vec<RoleEvent>>>,
}

impl TestStore {
    fn new() -> Self {
        TestStore { events: Rc::new(RefCell::new(Vec::new())) }
    }

    fn record(&self, id: RoleId, payload: RolePayload, when: When) -> (Outcome, Option<RoleEvent>) {
        let mut events = self.events.borrow_mut();
        let latest = events.iter().filter(|e| e.id == id).last().map(|e| e.event_id);
        let holds = match (when, latest) {
            (When::Empty, None) => true,
            (When::Within(w), Some(l)) => w == l,
            _ => false,
        };
        if !holds {
            return (Outcome::Skipped, None);
        }
        let event_id = EventId(events.len() as u64 + 1);
        let event = Event { event_id, id, payload };
        events.push(event);
        (Outcome::Recorded(event_id), Some(event))
    }

    /// One page of the role's stream, two events at a time.
    fn review(&self, id: RoleId, after: After) -> Page<RoleEvent> {
        let events = self.events.borrow();
        let all: Vec<RoleEvent> = events
            .iter()
            .filter(|e| e.id == id)
            .filter(|e| match after {
                After::Start => true,
                After::Specific(a) => e.event_id.0 > a.0,
            })
            .copied()
            .collect();
        let items: Vec<RoleEvent> = all.iter().take(2).copied().collect();
        let next = items.last().map(|e| e.event_id).unwrap_or(EventId(0));
        Page { more: all.len() > items.len(), items, next }
    }

    fn observe(&self) -> Vec<RoleEvent> {
        self.events.borrow().clone()
    }

    /// One page of all role events, two at a time.
    fn observe_page(&self, after: After) -> Page<RoleEvent> {
        let all: Vec<RoleEvent> = self
            .events
            .borrow()
            .iter()
            .filter(|e| match after {
                After::Start => true,
                After::Specific(a) => e.event_id.0 > a.0,
            })
            .copied()
            .collect();
        let items: Vec<RoleEvent> = all.iter().take(2).copied().collect();
        let next = items.last().map(|e| e.event_id).unwrap_or(EventId(0));
        Page { more: all.len() > items.len(), items, next }
    }
}

type Service = RoleService<TestStore, ObserveRoleProjection<TestStore>>;
type MemoryService = RoleService<TestStore, MemoryRoleProjection>;

fn system() -> Authority {
    Authority::Direct(Actor::System)
}

fn record(store: &TestStore, projection: &mut Option<&mut MemoryRoleProjection>, call: StoreCall<RoleId, RolePayload>) -> Outcome {
    match call {
        StoreCall::Record { id, payload, when, .. } => {
            let (outcome, event) = store.record(id, payload, when);
            if let (Some(p), Some(e)) = (projection.as_deref_mut(), event) {
                p.recorded(&e);
            }
            outcome
        }
        _ => panic!("a record call was expected"),
    }
}

fn create(store: &TestStore, projection: Option<&mut MemoryRoleProjection>) -> Result<RoleId, RoleCreateError<()>> {
    let mut projection = projection;
    let (mut creation, mut call) = RoleCreation::start(system());
    loop {
        let outcome = record(store, &mut projection, call);
        match creation.recorded::<()>(Ok(outcome)) {
            Step::Call(c) => call = c,
            Step::Done(r) => return r,
        }
    }
}

fn load(store: &TestStore, role_id: RoleId) -> Option<LoadedRole> {
    let mut loader = RoleLoader::new();
    let mut after = After::Start;
    loop {
        let page = store.review(role_id, after);
        match loader.observe(&page).expect("all role events should form valid role state") {
            LoadStep::Next(a) => after = a,
            LoadStep::Done(loaded) => return loaded,
        }
    }
}

fn add(
    store: &TestStore,
    projection: Option<&mut MemoryRoleProjection>,
    role_id: RoleId,
    actor: Actor,
) -> Result<(), RoleAddError<()>> {
    let mut projection = projection;
    let (mut addition, mut call) = RoleAddition::start(role_id, system(), actor);
    loop {
        let step = match call {
            StoreCall::Review { id, after, .. } => addition
                .reviewed::<()>(Ok(store.review(id, after)))
                .expect("all role events should form valid role state"),
            other => {
                let outcome = record(store, &mut projection, other);
                addition.recorded::<()>(Ok(outcome))
            }
        };
        match step {
            Step::Call(c) => call = c,
            Step::Done(r) => return r,
        }
    }
}

fn remove(store: &TestStore, role_id: RoleId, actor: Actor) -> Result<(), RoleRemoveError<()>> {
    let (mut removal, mut call) = RoleRemoval::start(role_id, system(), actor);
    loop {
        let step = match call {
            StoreCall::Review { id, after, .. } => removal
                .reviewed::<()>(Ok(store.review(id, after)))
                .expect("all role events should form valid role state"),
            other => {
                let outcome = record(store, &mut None, other);
                removal.recorded::<()>(Ok(outcome))
            }
        };
        match step {
            Step::Call(c) => call = c,
            Step::Done(r) => return r,
        }
    }
}

fn roles(service: &Service, authority: &Authority, actor: &Actor) -> Result<Vec<RoleId>, RoleLookupError<()>> {
    let (mut lookup, mut call) = service.start_lookup::<()>(authority, *actor)?;
    loop {
        let after = match call {
            StoreCall::Observe { after, limit } => {
                assert_eq!(limit, 128);
                after
            }
            _ => panic!("an observe call was expected"),
        };
        let page = service.projection.store.observe_page(after);
        match lookup.observed::<()>(Ok(page)).expect("all role events should form valid role state") {
            Step::Call(c) => call = c,
            Step::Done(r) => return r,
        }
    }
}

fn user() -> Actor {
    Actor::User(UserId::new())
}

#[test]
fn returns_empty_roles_for_actor_without_membership() {
    let service = RoleService::new(TestStore::new());
    let authority = Authority::Direct(Actor::System);
    let actor = user();
    create(&service.store, None).expect("create should succeed");
    let found = roles(&service, &authority, &actor).expect("lookup should succeed");
    assert!(found.is_empty());
}

#[test]
fn adds_many_actors() {
    let service = RoleService::new(TestStore::new());
    let authority = Authority::Direct(Actor::System);
    let role_id = create(&service.store, None).expect("create should succeed");
    let first_user = user();
    let second_user = user();
    add(&service.store, None, role_id, first_user).expect("first add should succeed");
    add(&service.store, None, role_id, second_user).expect("second add should succeed");
    add(&service.store, None, role_id, Actor::System).expect("system add should succeed");

    let found = roles(&service, &authority, &first_user).expect("lookup should succeed");
    assert!(found.contains(&role_id));
    assert_eq!(found.len(), 1);

    let second_user_roles = roles(&service, &authority, &second_user).expect("lookup should succeed");
    assert!(second_user_roles.contains(&role_id));

    let system_roles = roles(&service, &authority, &Actor::System).expect("lookup should succeed");
    assert!(system_roles.contains(&role_id));
}

#[test]
fn deduplicates_adds() {
    let service = RoleService::new(TestStore::new());
    let authority = Authority::Direct(Actor::System);
    let role_id = create(&service.store, None).expect("create should succeed");
    let actor = user();
    add(&service.store, None, role_id, actor).expect("first add should succeed");
    add(&service.store, None, role_id, actor).expect("duplicate add should be a no-op");

    let found = roles(&service, &authority, &actor).expect("lookup should succeed");
    assert!(found.contains(&role_id));
    assert_eq!(found.len(), 1);
    assert_eq!(service.store.observe().len(), 2);
}

#[test]
fn removes_actor() {
    let service = RoleService::new(TestStore::new());
    let authority = Authority::Direct(Actor::System);
    let role_id = create(&service.store, None).expect("create should succeed");
    let actor = user();
    add(&service.store, None, role_id, actor).expect("add should succeed");
    remove(&service.store, role_id, actor).expect("remove should succeed");

    let found = roles(&service, &authority, &actor).expect("lookup should succeed");
    assert!(found.is_empty());
}

#[test]
fn returns_all_roles_for_actor() {
    let service = RoleService::new(TestStore::new());
    let authority = Authority::Direct(Actor::System);
    let actor = user();
    let first_role_id = create(&service.store, None).expect("first create should succeed");
    let second_role_id = create(&service.store, None).expect("second create should succeed");
    add(&service.store, None, first_role_id, actor).expect("first add should succeed");
    add(&service.store, None, second_role_id, actor).expect("second add should succeed");

    let found = roles(&service, &authority, &actor).expect("lookup should succeed");
    assert_eq!(found.len(), 2);
    assert!(found.contains(&first_role_id));
    assert!(found.contains(&second_role_id));
}

#[test]
fn roles_requires_system_authority() {
    let service = RoleService::new(TestStore::new());
    let actor = user();
    let authority = Authority::Direct(user());
    let result = roles(&service, &authority, &actor);
    assert!(matches!(result, Err(RoleLookupError::RequiresSystemAuthority)));
}

#[test]
fn memory_projection_stays_current_after_writes() {
    let mut service: MemoryService =
        RoleService::with_projection(TestStore::new(), MemoryRoleProjection::new());
    let authority = Authority::Direct(Actor::System);
    let actor = user();
    let store = service.store.clone();
    let role_id = create(&store, Some(&mut service.projection)).expect("create should succeed");
    add(&store, Some(&mut service.projection), role_id, actor).expect("add should succeed");

    let found = service.roles(&authority, &actor).expect("lookup should succeed");
    assert_eq!(found, vec![role_id]);
}

#[test]
fn memory_projection_requires_system_authority() {
    let service: MemoryService =
        RoleService::with_projection(TestStore::new(), MemoryRoleProjection::new());
    let result = service.roles(&Authority::Direct(Actor::Anonymous), &Actor::System);
    assert!(matches!(result, Err(RoleLookupError::RequiresSystemAuthority)));
}

#[test]
fn memory_projection_forgets_an_actor_without_roles() {
    let mut projection = MemoryRoleProjection::new();
    let role_id = RoleId::new();
    let actor = user();
    projection.recorded(&Event { event_id: EventId(1), id: role_id, payload: RolePayload::Created });
    projection.recorded(&Event { event_id: EventId(2), id: role_id, payload: RolePayload::ActorAdded(actor) });
    assert_eq!(projection.roles_of(&actor), vec![role_id]);
    projection.recorded(&Event { event_id: EventId(3), id: role_id, payload: RolePayload::ActorRemoved(actor) });
    assert!(projection.roles_of(&actor).is_empty());
}

#[test]
fn projections_agree_on_a_history() {
    let store = TestStore::new();
    let mut memory = MemoryRoleProjection::new();
    let a = user();
    let b = user();
    let r1 = create(&store, Some(&mut memory)).expect("create should succeed");
    let r2 = create(&store, Some(&mut memory)).expect("create should succeed");
    add(&store, Some(&mut memory), r1, a).expect("add should succeed");
    add(&store, Some(&mut memory), r2, a).expect("add should succeed");
    add(&store, Some(&mut memory), r2, b).expect("add should succeed");
    let mut replay = RoleReplay::new();
    replay.replay_page(&store.observe()).expect("valid history");
    for actor in [a, b, Actor::System] {
        let mut x = replay.roles_of(&actor);
        let mut y = memory.roles_of(&actor);
        x.sort_by_key(|r| format!("{:?}", r));
        y.sort_by_key(|r| format!("{:?}", r));
        assert_eq!(x, y);
    }
}

#[test]
fn add_plan_refuses_a_missing_role() {
    let plan = Service::add_plan::<()>(&None, Actor::System);
    assert!(matches!(plan, Err(RoleAddError::InvalidRole)));
    let plan = Service::remove_plan::<()>(&None, Actor::System);
    assert!(matches!(plan, Err(RoleRemoveError::InvalidRole)));
}

#[test]
fn loading_follows_pages() {
    let store = TestStore::new();
    let role_id = create(&store, None).expect("create should succeed");
    let a = user();
    let b = user();
    add(&store, None, role_id, a).expect("add should succeed");
    add(&store, None, role_id, b).expect("add should succeed");
    remove(&store, role_id, a).expect("remove should succeed");
    let loaded = load(&store, role_id).expect("the role exists");
    assert_eq!(loaded.latest_event_id, EventId(4));
    assert!(loaded.actors.contains(&b));
    assert!(!loaded.actors.contains(&a));
    assert!(load(&store, RoleId::new()).is_none());
}

#[test]
fn a_history_that_does_not_form_roles_is_refused() {
    let role_id = RoleId::new();
    let actor = user();
    let bad = vec![Event { event_id: EventId(1), id: role_id, payload: RolePayload::ActorAdded(actor) }];
    let mut replay = RoleReplay::new();
    assert!(replay.replay_page(&bad).is_err());
    let mut loader = RoleLoader::new();
    let page = Page { items: bad, more: false, next: EventId(1) };
    assert!(loader.observe(&page).is_err());
}

#[test]
fn the_replaying_lookup_reads_from_the_start_in_pages() {
    let service = RoleService::new(TestStore::new());
    let (_, call) = service.start_lookup::<()>(&system(), Actor::System).expect("the system may look up roles");
    assert_eq!(call, StoreCall::Observe { after: After::Start, limit: 128 });
    let (mut lookup, _) = service.start_lookup::<()>(&system(), Actor::System).expect("the system may look up roles");
    let more = Page { items: Vec::<RoleEvent>::new(), more: true, next: EventId(7) };
    assert!(matches!(lookup.observed::<()>(Ok(more)),
        Ok(Step::Call(StoreCall::Observe { after: After::Specific(EventId(7)), limit: 128 }))));
    let last = Page { items: Vec::<RoleEvent>::new(), more: false, next: EventId(9) };
    assert!(matches!(lookup.observed::<()>(Ok(last)), Ok(Step::Done(Ok(v))) if v.is_empty()));
    let (mut failing, _) = service.start_lookup::<&str>(&system(), Actor::System).expect("the system may look up roles");
    assert!(matches!(failing.observed(Err("down")), Ok(Step::Done(Err(RoleLookupError::Projection("down"))))));
}

#[test]
fn lookup_answers_hand_on_the_projection() {
    assert!(matches!(lookup_answer::<()>(&system(), Ok(vec![])), Ok(v) if v.is_empty()));
    assert!(matches!(lookup_answer(&system(), Err::<Vec<RoleId>, u8>(3)), Err(RoleLookupError::Projection(3))));
    assert!(matches!(lookup_answer::<()>(&Authority::Direct(Actor::Anonymous), Ok(vec![])),
        Err(RoleLookupError::RequiresSystemAuthority)));
}

#[test]
fn role_updates_give_up_after_the_last_attempt() {
    let role_id = RoleId::new();
    let (mut addition, _) = RoleAddition::start(role_id, system(), Actor::System);
    let mut steps = 0;
    loop {
        steps += 1;
        match addition.recorded::<()>(Ok(Outcome::Skipped)) {
            Step::Call(c) => assert_eq!(c, StoreCall::Review { id: role_id, after: After::Start, limit: 128 }),
            Step::Done(r) => {
                assert!(matches!(r, Err(RoleAddError::AttemptsExceeded)));
                break;
            }
        }
    }
    assert_eq!(steps, 8);
    let (mut removal, _) = RoleRemoval::start(role_id, system(), Actor::System);
    assert!(matches!(removal.recorded::<u8>(Err(1)), Step::Done(Err(RoleRemoveError::Store(1)))));
    let (mut creation, first) = RoleCreation::start(system());
    assert!(matches!(first, StoreCall::Record { payload: RolePayload::Created, when: When::Empty, .. }));
    let first_id = creation.role_id;
    match creation.recorded::<()>(Ok(Outcome::Skipped)) {
        Step::Call(StoreCall::Record { id, payload: RolePayload::Created, when: When::Empty, .. }) => assert_ne!(id, first_id),
        _ => panic!("a new attempt was expected"),
    }
}

#[test]
fn an_update_of_a_missing_role_is_refused() {
    let store = TestStore::new();
    assert!(matches!(add(&store, None, RoleId::new(), Actor::System), Err(RoleAddError::InvalidRole)));
    assert!(matches!(remove(&store, RoleId::new(), Actor::System), Err(RoleRemoveError::InvalidRole)));
    assert!(store.observe().is_empty());
}

#[test]
fn recorded_changes_show_in_the_replayed_roles() {
    let role_id = RoleId::new();
    let other = RoleId::new();
    let actor = user();
    let bystander = user();
    let ev = |n: u64, id: RoleId, payload: RolePayload| Event { event_id: EventId(n), id, payload };
    let mut replay = RoleReplay::new();
    replay
        .replay_page(&vec![ev(1, role_id, RolePayload::Created), ev(2, other, RolePayload::Created)])
        .expect("valid");
    assert!(replay.roles_of(&actor).is_empty());
    replay.replay_page(&vec![ev(3, role_id, RolePayload::ActorAdded(actor))]).expect("valid");
    assert_eq!(replay.roles_of(&actor), vec![role_id]);
    assert!(replay.roles_of(&bystander).is_empty());
    replay.replay_page(&vec![ev(4, other, RolePayload::ActorAdded(actor))]).expect("valid");
    let both = replay.roles_of(&actor);
    assert_eq!(both.len(), 2);
    assert!(both.contains(&role_id) && both.contains(&other));
    replay.replay_page(&vec![ev(5, role_id, RolePayload::ActorRemoved(actor))]).expect("valid");
    assert_eq!(replay.roles_of(&actor), vec![other]);
    assert!(replay.replay_page(&vec![ev(6, RoleId::new(), RolePayload::ActorAdded(actor))]).is_err());
}
