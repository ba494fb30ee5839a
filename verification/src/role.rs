//! Roles: named groups of actors. A role is created empty; actors are added and removed.
//! Two read-side projections answer "which roles does this actor hold": one replays the
//! role stream, the other is kept up to date as events are recorded. For every valid
//! history they give the same answer.

use crate::authority::{Actor, Authority};
use crate::idmap::{IdMap, IdSet, assoc_to_map, keys_distinct, lemma_assoc_dom, lemma_assoc_index};
use crate::ids::RoleId;
use crate::store::{
    After, Event, EventId, Outcome, Page, Retry, Step, StoreCall, When, after_attempt, one_more_attempt,
};
use vstd::prelude::*;

verus! {

/// What can happen to a role.
#[derive(Clone, Copy, PartialEq, Eq, Structural, Debug, Hash)]
pub enum RolePayload {
    Created,
    ActorAdded(Actor),
    ActorRemoved(Actor),
}

/// An event of a role stream.
pub type RoleEvent = Event<RoleId, RolePayload>;

/// A role's state seen from outside: absent, or present with its actors and latest event.
pub type RoleView = Option<(Set<Actor>, When)>;

/// The state after the event, or `None` if the event cannot follow: a role is created
/// from nothing with no actors, and gains or loses actors while present; each event
/// becomes the role's latest.
pub open spec fn role_step(v: RoleView, e: RoleEvent) -> Option<RoleView> {
    let when = When::Within(e.event_id);
    match (v, e.payload) {
        (None, RolePayload::Created) => Some(Some((Set::<Actor>::empty(), when))),
        (Some((actors, _)), RolePayload::ActorAdded(a)) => Some(Some((actors.insert(a), when))),
        (Some((actors, _)), RolePayload::ActorRemoved(a)) => Some(Some((actors.remove(a), when))),
        _ => None,
    }
}

/// Folds the events of one role, or `None` if one cannot follow.
pub open spec fn role_replay(v: RoleView, es: Seq<RoleEvent>) -> Option<RoleView>
    decreases es.len(),
{
    if es.len() == 0 {
        Some(v)
    } else {
        match role_replay(v, es.drop_last()) {
            Some(w) => role_step(w, es.last()),
            None => None,
        }
    }
}

/// The state of a role in a map of roles; absent if not in the map.
pub open spec fn role_in(m: Map<RoleId, RoleView>, r: RoleId) -> RoleView {
    if m.dom().contains(r) {
        m[r]
    } else {
        None
    }
}

/// Folds events of many roles, each applied to the role it names.
pub open spec fn roles_replay(m: Map<RoleId, RoleView>, es: Seq<RoleEvent>) -> Option<
    Map<RoleId, RoleView>,
>
    decreases es.len(),
{
    if es.len() == 0 {
        Some(m)
    } else {
        match roles_replay(m, es.drop_last()) {
            Some(m2) => match role_step(role_in(m2, es.last().id), es.last()) {
                Some(v) => Some(m2.insert(es.last().id, v)),
                None => None,
            },
            None => None,
        }
    }
}

/// The roles that hold the actor, by the replayed states.
pub open spec fn replayed_roles_of(m: Map<RoleId, RoleView>, actor: Actor) -> Set<RoleId> {
    Set::new(
        |r: RoleId| m.dom().contains(r) && (m[r] matches Some((acts, _)) && acts.contains(actor)),
    )
}

/// A role as folded from its events.
#[derive(Debug)]
pub enum RoleState {
    Absent,
    Present { actors: IdSet<Actor>, when: When },
}

/// An event that does not follow from the role's state.
#[derive(Debug, Clone, Copy, PartialEq, Eq)]
pub struct RoleStateError;

impl RoleState {
    pub open spec fn wf(&self) -> bool {
        match self {
            RoleState::Absent => true,
            RoleState::Present { actors, .. } => actors.wf(),
        }
    }

    pub open spec fn spec_view(&self) -> RoleView {
        match self {
            RoleState::Absent => None,
            RoleState::Present { actors, when } => Some((actors.spec_set(), *when)),
        }
    }

    /// Applies an event; the state is unchanged when the event cannot follow it.
    pub fn apply(&mut self, event: RoleEvent) -> (r: Result<(), RoleStateError>)
        requires
            old(self).wf(),
        ensures
            final(self).wf(),
            r is Ok <==> role_step(old(self).spec_view(), event) is Some,
            r is Ok ==> Some(final(self).spec_view()) == role_step(old(self).spec_view(), event),
            r is Err ==> final(self).spec_view() == old(self).spec_view(),
    {
        let when = When::Within(event.event_id);
        let mut cur = RoleState::Absent;
        std::mem::swap(&mut cur, self);
        match (cur, event.payload) {
            (RoleState::Absent, RolePayload::Created) => {
                *self = RoleState::Present { actors: IdSet::new(), when };
                Ok(())
            },
            (RoleState::Present { mut actors, .. }, RolePayload::ActorAdded(a)) => {
                actors.insert(a);
                *self = RoleState::Present { actors, when };
                Ok(())
            },
            (RoleState::Present { mut actors, .. }, RolePayload::ActorRemoved(a)) => {
                actors.remove(&a);
                *self = RoleState::Present { actors, when };
                Ok(())
            },
            (cur, _) => {
                *self = cur;
                Err(RoleStateError)
            },
        }
    }
}

/// Why a role could not be created.
#[derive(Debug)]
pub enum RoleCreateError<E> {
    AttemptsExceeded,
    Store(E),
}

/// Why the roles of an actor could not be looked up.
#[derive(Debug)]
pub enum RoleLookupError<E> {
    /// Only the system may look up roles.
    RequiresSystemAuthority,
    /// The projection failed.
    Projection(E),
}

/// Why an actor could not be added to a role.
#[derive(Debug)]
pub enum RoleAddError<E> {
    InvalidRole,
    AttemptsExceeded,
    Store(E),
}

/// Why an actor could not be removed from a role.
#[derive(Debug)]
pub enum RoleRemoveError<E> {
    InvalidRole,
    AttemptsExceeded,
    Store(E),
}

/// The stream of role events.
pub struct RoleStream;

/// How many events a page of a role stream read holds.
pub const REVIEW_PAGE_SIZE: usize = 128;

/// How many times creation is tried.
pub const MAX_CREATE_ATTEMPTS: usize = 8;

/// How many times an update is tried.
pub const MAX_UPDATE_ATTEMPTS: usize = 8;

/// Looks up roles by replaying the whole role stream of a store.
pub struct ObserveRoleProjection<R> {
    pub store: R,
}

impl<R> ObserveRoleProjection<R> {
    pub fn new(store: R) -> (p: Self)
        ensures
            p.store == store,
    {
        ObserveRoleProjection { store }
    }
}

/// The states of all roles, as replayed page by page from the role stream.
#[derive(Debug)]
pub struct RoleReplay {
    pub roles: IdMap<RoleId, RoleState>,
}

impl RoleReplay {
    pub open spec fn wf(&self) -> bool {
        &&& self.roles.wf()
        &&& forall|r: RoleId| #[trigger]
            self.roles.spec_map().dom().contains(r) ==> self.roles.spec_map()[r].wf()
    }

    pub open spec fn spec_view(&self) -> Map<RoleId, RoleView> {
        Map::new(
            |r: RoleId| self.roles.spec_map().dom().contains(r),
            |r: RoleId| self.roles.spec_map()[r].spec_view(),
        )
    }

    /// Nothing replayed yet.
    pub fn new() -> (s: RoleReplay)
        ensures
            s.wf(),
            s.spec_view() == Map::<RoleId, RoleView>::empty(),
    {
        let s = RoleReplay { roles: IdMap::new() };
        assert(s.spec_view() =~= Map::<RoleId, RoleView>::empty());
        s
    }

    /// Applies a page of events, in order; fails at the first event that does not follow
    /// from its role's state (which is then left partly applied).
    pub fn replay_page(&mut self, items: &Vec<RoleEvent>) -> (r: Result<(), RoleStateError>)
        requires
            old(self).wf(),
        ensures
            final(self).wf(),
            r is Ok <==> roles_replay(old(self).spec_view(), items@) is Some,
            r is Ok ==> Some(final(self).spec_view()) == roles_replay(old(self).spec_view(), items@),
    {
        let ghost start = self.spec_view();
        let mut i: usize = 0;
        while i < items.len()
            invariant
                self.wf(),
                start == old(self).spec_view(),
                i <= items@.len(),
                Some(self.spec_view()) == roles_replay(start, items@.take(i as int)),
            decreases items@.len() - i,
        {
            assert(items@.take(i as int + 1).drop_last() =~= items@.take(i as int));
            let event = items[i];
            let ghost before = self.spec_view();
            let mut st = match self.roles.remove(&event.id) {
                Some(s) => s,
                None => RoleState::Absent,
            };
            assert(st.spec_view() == role_in(before, event.id));
            match st.apply(event) {
                Ok(()) => {
                    self.roles.insert(event.id, st);
                    assert(self.spec_view() =~= before.insert(
                        event.id,
                        role_step(role_in(before, event.id), event).unwrap(),
                    ));
                },
                Err(e) => {
                    self.roles.insert(event.id, st);
                    proof {
                        assert(items@[i as int] == event);
                        assert(role_step(role_in(before, event.id), event) is None);
                        lemma_roles_replay_stuck(start, items@, i as int);
                    }
                    return Err(e);
                },
            }
            i = i + 1;
        }
        assert(items@.take(items@.len() as int) =~= items@);
        Ok(())
    }

    /// The roles that hold the actor, each once.
    pub fn roles_of(&self, actor: &Actor) -> (v: Vec<RoleId>)
        requires
            self.wf(),
        ensures
            forall|i: int, j: int| 0 <= i < j < v@.len() ==> v@[i] != v@[j],
            forall|r: RoleId|
                #![trigger v@.contains(r)]
                v@.contains(r) <==> replayed_roles_of(self.spec_view(), *actor).contains(r),
    {
        let e = self.roles.entries();
        proof {
            lemma_assoc_dom(e@);
        }
        let mut v: Vec<RoleId> = Vec::new();
        let mut i: usize = 0;
        while i < e.len()
            invariant
                self.wf(),
                keys_distinct(e@),
                assoc_to_map(e@) == self.roles.spec_map(),
                i <= e@.len(),
                forall|a: int, b: int| 0 <= a < b < v@.len() ==> v@[a] != v@[b],
                forall|r: RoleId|
                    #![trigger v@.contains(r)]
                    v@.contains(r) <==> (exists|j: int|
                        0 <= j < i && e@[j].0 == r && replayed_roles_of(
                            self.spec_view(),
                            *actor,
                        ).contains(r)),
            decreases e@.len() - i,
        {
            proof {
                lemma_assoc_index(e@, i as int);
            }
            let ghost r = e@[i as int].0;
            assert(self.roles.spec_map().dom().contains(r));
            assert(self.roles.spec_map()[r].wf());
            assert(self.spec_view()[r] == e@[i as int].1.spec_view());
            let held = match &e[i].1 {
                RoleState::Present { actors, .. } => actors.contains(actor),
                RoleState::Absent => false,
            };
            assert(held == replayed_roles_of(self.spec_view(), *actor).contains(r));
            let ghost before_v = v@;
            if held {
                proof {
                    assert forall|j: int| 0 <= j < v@.len() implies v@[j] != r by {
                        if v@[j] == r {
                            assert(v@.contains(r));
                        }
                    }
                }
                v.push(e[i].0);
            }
            proof {
                let ghost good = replayed_roles_of(self.spec_view(), *actor);
                assert forall|q: RoleId| #![trigger v@.contains(q)] v@.contains(q) implies (exists|j: int|
                    0 <= j < i + 1 && e@[j].0 == q && good.contains(q)) by {
                    if held && q == r {
                        assert(e@[i as int].0 == q);
                    } else {
                        if held {
                            assert(v@ == before_v.push(r));
                        }
                        assert(before_v.contains(q));
                        let j = choose|j: int| 0 <= j < i && e@[j].0 == q && good.contains(q);
                        assert(e@[j].0 == q);
                    }
                }
                assert forall|q: RoleId| #![trigger v@.contains(q)] (exists|j: int|
                    0 <= j < i + 1 && e@[j].0 == q && good.contains(q)) implies v@.contains(q) by {
                    let j = choose|j: int| 0 <= j < i + 1 && e@[j].0 == q && good.contains(q);
                    if j == i {
                        assert(held);
                        assert(v@ == before_v.push(r));
                        assert(v@[v@.len() - 1] == q);
                    } else {
                        assert(exists|j: int| 0 <= j < i && e@[j].0 == q && good.contains(q));
                        assert(before_v.contains(q));
                        let k = choose|k: int| 0 <= k < before_v.len() && before_v[k] == q;
                        if held {
                            assert(v@ == before_v.push(r));
                            assert(v@[k] == q);
                        }
                    }
                }
            }
            i = i + 1;
        }
        proof {
            assert forall|r: RoleId| #![trigger v@.contains(r)] replayed_roles_of(
                self.spec_view(),
                *actor,
            ).contains(r) implies v@.contains(r) by {
                let j = choose|j: int| 0 <= j < e@.len() && e@[j].0 == r;
            }
        }
        v
    }
}

proof fn lemma_roles_replay_stuck(m: Map<RoleId, RoleView>, es: Seq<RoleEvent>, i: int)
    requires
        0 <= i < es.len(),
        roles_replay(m, es.take(i)) matches Some(m2) && role_step(role_in(m2, es[i].id), es[i]) is None,
    ensures
        roles_replay(m, es) is None,
    decreases es.len() - i,
{
    let k = es.len() - 1;
    if i == k {
        assert(es.drop_last() =~= es.take(i));
    } else {
        assert(es.drop_last().take(i) =~= es.take(i));
        assert(es.drop_last()[i] == es[i]);
        lemma_roles_replay_stuck(m, es.drop_last(), i);
    }
}

/// Replaying two runs of events one after the other is replaying them together.
pub proof fn lemma_roles_replay_append(m: Map<RoleId, RoleView>, a: Seq<RoleEvent>, b: Seq<RoleEvent>)
    ensures
        roles_replay(m, a + b) == match roles_replay(m, a) {
            Some(m2) => roles_replay(m2, b),
            None => None::<Map<RoleId, RoleView>>,
        },
    decreases b.len(),
{
    if b.len() == 0 {
        assert(a + b =~= a);
    } else {
        lemma_roles_replay_append(m, a, b.drop_last());
        assert((a + b).drop_last() =~= a + b.drop_last());
        assert((a + b).last() == b.last());
        if roles_replay(m, a) is None {
            lemma_roles_replay_none_stays(m, a, b);
        }
    }
}

proof fn lemma_roles_replay_none_stays(m: Map<RoleId, RoleView>, a: Seq<RoleEvent>, b: Seq<RoleEvent>)
    requires
        roles_replay(m, a) is None,
    ensures
        roles_replay(m, a + b) is None,
    decreases b.len(),
{
    if b.len() == 0 {
        assert(a + b =~= a);
    } else {
        lemma_roles_replay_none_stays(m, a, b.drop_last());
        assert((a + b).drop_last() =~= a + b.drop_last());
    }
}

/// Replaying one role's events in two runs is replaying them together.
pub proof fn lemma_role_replay_append(v: RoleView, a: Seq<RoleEvent>, b: Seq<RoleEvent>)
    ensures
        role_replay(v, a + b) == match role_replay(v, a) {
            Some(w) => role_replay(w, b),
            None => None::<RoleView>,
        },
    decreases b.len(),
{
    if b.len() == 0 {
        assert(a + b =~= a);
    } else {
        lemma_role_replay_append(v, a, b.drop_last());
        assert((a + b).drop_last() =~= a + b.drop_last());
        assert((a + b).last() == b.last());
    }
}

proof fn lemma_role_replay_stuck(v: RoleView, es: Seq<RoleEvent>, i: int)
    requires
        0 <= i < es.len(),
        role_replay(v, es.take(i)) matches Some(w) && role_step(w, es[i]) is None,
    ensures
        role_replay(v, es) is None,
    decreases es.len() - i,
{
    let k = es.len() - 1;
    if i == k {
        assert(es.drop_last() =~= es.take(i));
    } else {
        assert(es.drop_last().take(i) =~= es.take(i));
        assert(es.drop_last()[i] == es[i]);
        lemma_role_replay_stuck(v, es.drop_last(), i);
    }
}

} // verus!

verus! {

/// The roles of an actor by the kept-up-to-date map; none if the actor is not in it.
pub open spec fn kept_roles_of(m: Map<Actor, Set<RoleId>>, actor: Actor) -> Set<RoleId> {
    if m.dom().contains(actor) {
        m[actor]
    } else {
        Set::empty()
    }
}

/// How the kept-up-to-date map follows an event: an added actor gains the role, a
/// removed actor loses it (and leaves the map when it holds no role any more).
pub open spec fn kept_step(m: Map<Actor, Set<RoleId>>, e: RoleEvent) -> Map<Actor, Set<RoleId>> {
    match e.payload {
        RolePayload::Created => m,
        RolePayload::ActorAdded(a) => m.insert(a, kept_roles_of(m, a).insert(e.id)),
        RolePayload::ActorRemoved(a) => if m.dom().contains(a) {
            if m[a].remove(e.id) == Set::<RoleId>::empty() {
                m.remove(a)
            } else {
                m.insert(a, m[a].remove(e.id))
            }
        } else {
            m
        },
    }
}

/// Folds events into the kept-up-to-date map.
pub open spec fn kept_replay(m: Map<Actor, Set<RoleId>>, es: Seq<RoleEvent>) -> Map<
    Actor,
    Set<RoleId>,
>
    decreases es.len(),
{
    if es.len() == 0 {
        m
    } else {
        kept_step(kept_replay(m, es.drop_last()), es.last())
    }
}

/// Keeps, for each actor, the roles that hold it, updated as each event is recorded.
#[derive(Debug)]
pub struct MemoryRoleProjection {
    state: IdMap<Actor, IdSet<RoleId>>,
}

impl MemoryRoleProjection {
    #[verifier::type_invariant]
    spec fn wf(&self) -> bool {
        &&& self.state.wf()
        &&& forall|a: Actor| #[trigger]
            self.state.spec_map().dom().contains(a) ==> self.state.spec_map()[a].wf()
    }

    /// For each actor that holds a role, the roles that hold it.
    pub closed spec fn spec_view(&self) -> Map<Actor, Set<RoleId>> {
        Map::new(
            |a: Actor| self.state.spec_map().dom().contains(a),
            |a: Actor| self.state.spec_map()[a].spec_set(),
        )
    }

    /// No event recorded yet.
    pub fn new() -> (p: MemoryRoleProjection)
        ensures
            p.spec_view() == Map::<Actor, Set<RoleId>>::empty(),
    {
        let p = MemoryRoleProjection { state: IdMap::new() };
        assert(p.spec_view() =~= Map::<Actor, Set<RoleId>>::empty());
        p
    }

    /// Follows a recorded event.
    pub fn recorded(&mut self, event: &RoleEvent)
        ensures
            final(self).spec_view() == kept_step(old(self).spec_view(), *event),
    {
        proof {
            use_type_invariant(&*self);
        }
        let mut state: IdMap<Actor, IdSet<RoleId>> = IdMap::new();
        std::mem::swap(&mut state, &mut self.state);
        match event.payload {
            RolePayload::Created => {},
            RolePayload::ActorAdded(actor) => {
                let mut roles = match state.remove(&actor) {
                    Some(r) => r,
                    None => IdSet::new(),
                };
                roles.insert(event.id);
                state.insert(actor, roles);
            },
            RolePayload::ActorRemoved(actor) => {
                match state.remove(&actor) {
                    Some(mut roles) => {
                        roles.remove(&event.id);
                        if !roles.is_empty() {
                            state.insert(actor, roles);
                        }
                    },
                    None => {},
                }
            },
        }
        self.state = state;
        assert(self.spec_view() =~= kept_step(old(self).spec_view(), *event));
    }

    /// The roles that hold the actor, each once.
    pub fn roles_of(&self, actor: &Actor) -> (v: Vec<RoleId>)
        ensures
            forall|i: int, j: int| 0 <= i < j < v@.len() ==> v@[i] != v@[j],
            forall|r: RoleId|
                #![trigger v@.contains(r)]
                v@.contains(r) <==> kept_roles_of(self.spec_view(), *actor).contains(r),
    {
        proof {
            use_type_invariant(self);
        }
        match self.state.get(actor) {
            Some(roles) => roles.to_vec(),
            None => Vec::new(),
        }
    }
}

/// For every history that the replaying projection accepts, the kept-up-to-date
/// projection gives every actor exactly the roles that the replay gives it.
pub proof fn lemma_projections_agree(es: Seq<RoleEvent>)
    requires
        roles_replay(Map::<RoleId, RoleView>::empty(), es) is Some,
    ensures
        forall|actor: Actor|
            #![trigger kept_roles_of(kept_replay(Map::empty(), es), actor)]
            kept_roles_of(kept_replay(Map::empty(), es), actor) == replayed_roles_of(
                roles_replay(Map::<RoleId, RoleView>::empty(), es).unwrap(),
                actor,
            ),
    decreases es.len(),
{
    let empty_r = Map::<RoleId, RoleView>::empty();
    let empty_k = Map::<Actor, Set<RoleId>>::empty();
    if es.len() == 0 {
        assert forall|actor: Actor| #![trigger kept_roles_of(kept_replay(empty_k, es), actor)]
            kept_roles_of(kept_replay(empty_k, es), actor) == replayed_roles_of(
            roles_replay(empty_r, es).unwrap(),
            actor,
        ) by {
            assert(replayed_roles_of(empty_r, actor) =~= Set::<RoleId>::empty());
        }
    } else {
        let prev = es.drop_last();
        let e = es.last();
        lemma_projections_agree(prev);
        let mo = roles_replay(empty_r, prev).unwrap();
        let mk = kept_replay(empty_k, prev);
        let mo2 = roles_replay(empty_r, es).unwrap();
        let mk2 = kept_replay(empty_k, es);
        assert(mk2 == kept_step(mk, e));
        assert(mo2 == mo.insert(e.id, role_step(role_in(mo, e.id), e).unwrap()));
        assert forall|actor: Actor| #![trigger kept_roles_of(mk2, actor)] kept_roles_of(
            mk2,
            actor,
        ) == replayed_roles_of(mo2, actor) by {
            assert(kept_roles_of(mk, actor) == replayed_roles_of(mo, actor));
            match e.payload {
                RolePayload::Created => {
                    assert(!replayed_roles_of(mo, actor).contains(e.id));
                    assert(kept_roles_of(mk2, actor) =~= replayed_roles_of(mo2, actor));
                },
                RolePayload::ActorAdded(a) => {
                    if actor == a {
                        assert(kept_roles_of(mk2, actor) =~= replayed_roles_of(mo2, actor));
                    } else {
                        assert(kept_roles_of(mk2, actor) =~= replayed_roles_of(mo2, actor));
                    }
                },
                RolePayload::ActorRemoved(a) => {
                    if actor == a {
                        if mk.dom().contains(a) && mk[a].remove(e.id) == Set::<RoleId>::empty() {
                            assert(kept_roles_of(mk2, actor) =~= replayed_roles_of(mo2, actor));
                        } else {
                            assert(kept_roles_of(mk2, actor) =~= replayed_roles_of(mo2, actor));
                        }
                    } else {
                        assert(kept_roles_of(mk2, actor) =~= replayed_roles_of(mo2, actor));
                    }
                },
            }
        }
    }
}

} // verus!

verus! {

/// A read-side lookup of the roles that hold an actor. How an implementation derives
/// and refreshes its answers is its own business; what it answers is the set that
/// `held_roles` names, each role once, and it fails exactly when `lookup_fails` says.
pub trait RoleProjection {
    type Error;

    /// The roles that hold the actor, as the projection knows them.
    spec fn held_roles(&self, actor: Actor) -> Set<RoleId>;

    /// Whether looking up the actor's roles fails.
    spec fn lookup_fails(&self, actor: Actor) -> bool;

    /// The roles that hold the actor, each once; or the projection's error.
    fn roles(&self, actor: &Actor) -> (r: Result<Vec<RoleId>, Self::Error>)
        ensures
            r is Err <==> self.lookup_fails(*actor),
            r matches Ok(v) ==> forall|i: int, j: int| 0 <= i < j < v@.len() ==> v@[i] != v@[j],
            r matches Ok(v) ==> forall|q: RoleId|
                #![trigger v@.contains(q)]
                v@.contains(q) <==> self.held_roles(*actor).contains(q),
    ;
}

/// The error of the kept-up-to-date projection, which it never returns.
#[derive(Debug, Clone, Copy, PartialEq, Eq)]
pub struct NoProjectionError;

impl RoleProjection for MemoryRoleProjection {
    type Error = NoProjectionError;

    open spec fn held_roles(&self, actor: Actor) -> Set<RoleId> {
        kept_roles_of(self.spec_view(), actor)
    }

    open spec fn lookup_fails(&self, actor: Actor) -> bool {
        false
    }

    fn roles(&self, actor: &Actor) -> (res: Result<Vec<RoleId>, NoProjectionError>)
        ensures
            res is Ok,
    {
        Ok(self.roles_of(actor))
    }
}

/// A role as loaded for an update: its actors and its latest event.
#[derive(Debug)]
pub struct LoadedRole {
    pub actors: IdSet<Actor>,
    pub latest_event_id: EventId,
}

/// What loading a role does after a page: read the next page, or finish with the role
/// (or `None` if it does not exist).
#[derive(Debug)]
pub enum LoadStep {
    Next(After),
    Done(Option<LoadedRole>),
}

/// Loads one role by replaying its stream page by page.
#[derive(Debug)]
pub struct RoleLoader {
    pub state: RoleState,
    pub saw_event: bool,
}

impl RoleLoader {
    /// Nothing read yet; the first page is read from the start of the stream.
    pub fn new() -> (l: RoleLoader)
        ensures
            l.state.wf(),
            l.state.spec_view() == None::<(Set<Actor>, When)>,
            !l.saw_event,
    {
        RoleLoader { state: RoleState::Absent, saw_event: false }
    }

    /// Follows a page of the role's stream. An empty page means the role does not exist.
    /// Otherwise the events are applied, and it is an error if one does not follow from
    /// the role's state; if more follow, the next page is read; else the role is loaded if
    /// it is present with a latest event.
    pub fn observe(&mut self, page: &Page<RoleEvent>) -> (r: Result<LoadStep, RoleStateError>)
        requires
            old(self).state.wf(),
        ensures
            final(self).state.wf(),
            page.items@.len() == 0 ==> (r matches Ok(LoadStep::Done(None))),
            page.items@.len() > 0 ==> (r is Ok <==> role_replay(
                old(self).state.spec_view(),
                page.items@,
            ) is Some),
            page.items@.len() > 0 && page.more && r is Ok ==> {
                &&& Some(final(self).state.spec_view()) == role_replay(
                    old(self).state.spec_view(),
                    page.items@,
                )
                &&& r == Ok::<LoadStep, RoleStateError>(LoadStep::Next(After::Specific(page.next)))
            },
            page.items@.len() > 0 && !page.more && r is Ok ==> match role_replay(
                old(self).state.spec_view(),
                page.items@,
            ).unwrap() {
                Some((actors, When::Within(id))) => (r matches Ok(LoadStep::Done(Some(l)))
                    && l.actors.wf() && l.actors.spec_set() == actors && l.latest_event_id == id),
                _ => (r matches Ok(LoadStep::Done(None))),
            },
    {
        if page.items.len() == 0 {
            return Ok(LoadStep::Done(None));
        }
        let ghost start = self.state.spec_view();
        let mut i: usize = 0;
        while i < page.items.len()
            invariant
                self.state.wf(),
                start == old(self).state.spec_view(),
                i <= page.items@.len(),
                page.items@.len() > 0,
                Some(self.state.spec_view()) == role_replay(start, page.items@.take(i as int)),
                i > 0 ==> self.saw_event,
            decreases page.items@.len() - i,
        {
            assert(page.items@.take(i as int + 1).drop_last() =~= page.items@.take(i as int));
            self.saw_event = true;
            let ghost before = self.state.spec_view();
            let event = page.items[i];
            match self.state.apply(event) {
                Ok(()) => {},
                Err(e) => {
                    proof {
                        assert(page.items@[i as int] == event);
                        assert(role_step(before, event) is None);
                        assert(role_replay(start, page.items@.take(i as int)) == Some(before));
                        lemma_role_replay_stuck(start, page.items@, i as int);
                    }
                    return Err(e);
                },
            }
            i = i + 1;
        }
        assert(page.items@.take(page.items@.len() as int) =~= page.items@);
        if page.more {
            return Ok(LoadStep::Next(After::Specific(page.next)));
        }
        if !self.saw_event {
            return Ok(LoadStep::Done(None));
        }
        let mut st = RoleState::Absent;
        std::mem::swap(&mut st, &mut self.state);
        match st {
            RoleState::Present { actors, when: When::Within(latest_event_id) } => {
                Ok(LoadStep::Done(Some(LoadedRole { actors, latest_event_id })))
            },
            _ => Ok(LoadStep::Done(None)),
        }
    }
}

/// Creates roles and changes their actors through the store; answers lookups through
/// the projection.
pub struct RoleService<R, P> {
    pub store: R,
    pub projection: P,
}

/// Only the system may look up the roles of an actor.
pub fn check_lookup_authority<E>(authority: &Authority) -> (r: Result<(), RoleLookupError<E>>)
    ensures
        authority.spec_actor() is System <==> r is Ok,
        r is Err ==> r matches Err(RoleLookupError::RequiresSystemAuthority),
{
    match authority.actor() {
        Actor::System => Ok(()),
        _ => Err(RoleLookupError::RequiresSystemAuthority),
    }
}

impl<R, P> RoleService<R, P> {
    /// A service over the store that answers lookups with the given projection.
    pub fn with_projection(store: R, projection: P) -> (s: Self)
        ensures
            s.store == store,
            s.projection == projection,
    {
        RoleService { store, projection }
    }

    /// What follows an attempt to record the creation of `role_id`: the role on success,
    /// `None` to try again with a fresh identifier, or the error once the attempts are spent.
    pub fn after_create_attempt<E>(role_id: RoleId, attempts_made: usize, outcome: Outcome) -> (r:
        Option<Result<RoleId, RoleCreateError<E>>>)
        ensures
            outcome is Recorded ==> (r matches Some(Ok(g)) && g == role_id),
            outcome is Skipped && attempts_made < MAX_CREATE_ATTEMPTS ==> r is None,
            outcome is Skipped && attempts_made >= MAX_CREATE_ATTEMPTS ==> r matches Some(
                Err(RoleCreateError::AttemptsExceeded),
            ),
    {
        match after_attempt(attempts_made, MAX_CREATE_ATTEMPTS, outcome) {
            Retry::Done => Some(Ok(role_id)),
            Retry::Again => None,
            Retry::Exhausted => Some(Err(RoleCreateError::AttemptsExceeded)),
        }
    }

    /// What adding `actor` records, given the role as loaded: nothing if the role does
    /// not exist (an error) or already holds the actor; otherwise the addition, on the
    /// condition that the role's latest event is still the one it was loaded at.
    pub fn add_plan<E>(loaded: &Option<LoadedRole>, actor: Actor) -> (r: Result<
        Option<(RolePayload, When)>,
        RoleAddError<E>,
    >)
        requires
            loaded matches Some(l) ==> l.actors.wf(),
        ensures
            loaded is None ==> r matches Err(RoleAddError::InvalidRole),
            loaded matches Some(l) && l.actors.spec_set().contains(actor) ==> r matches Ok(None),
            loaded matches Some(l) ==> (!l.actors.spec_set().contains(actor) ==> r == Ok::<
                Option<(RolePayload, When)>,
                RoleAddError<E>,
            >(Some((RolePayload::ActorAdded(actor), When::Within(l.latest_event_id))))),
    {
        match loaded {
            None => Err(RoleAddError::InvalidRole),
            Some(l) => if l.actors.contains(&actor) {
                Ok(None)
            } else {
                Ok(Some((RolePayload::ActorAdded(actor), When::Within(l.latest_event_id))))
            },
        }
    }

    /// What removing `actor` records, given the role as loaded: nothing if the role does
    /// not exist (an error) or does not hold the actor; otherwise the removal, on the
    /// condition that the role's latest event is still the one it was loaded at.
    pub fn remove_plan<E>(loaded: &Option<LoadedRole>, actor: Actor) -> (r: Result<
        Option<(RolePayload, When)>,
        RoleRemoveError<E>,
    >)
        requires
            loaded matches Some(l) ==> l.actors.wf(),
        ensures
            loaded is None ==> r matches Err(RoleRemoveError::InvalidRole),
            loaded matches Some(l) && !l.actors.spec_set().contains(actor) ==> r matches Ok(None),
            loaded matches Some(l) ==> (l.actors.spec_set().contains(actor) ==> r == Ok::<
                Option<(RolePayload, When)>,
                RoleRemoveError<E>,
            >(Some((RolePayload::ActorRemoved(actor), When::Within(l.latest_event_id))))),
    {
        match loaded {
            None => Err(RoleRemoveError::InvalidRole),
            Some(l) => if l.actors.contains(&actor) {
                Ok(Some((RolePayload::ActorRemoved(actor), When::Within(l.latest_event_id))))
            } else {
                Ok(None)
            },
        }
    }

    /// What follows an attempt to record an addition: done on success, `None` to load the
    /// role again, or the error once the attempts are spent.
    pub fn after_add_attempt<E>(attempts_made: usize, outcome: Outcome) -> (r: Option<
        Result<(), RoleAddError<E>>,
    >)
        ensures
            outcome is Recorded ==> r matches Some(Ok(())),
            outcome is Skipped && attempts_made < MAX_UPDATE_ATTEMPTS ==> r is None,
            outcome is Skipped && attempts_made >= MAX_UPDATE_ATTEMPTS ==> r matches Some(
                Err(RoleAddError::AttemptsExceeded),
            ),
    {
        match after_attempt(attempts_made, MAX_UPDATE_ATTEMPTS, outcome) {
            Retry::Done => Some(Ok(())),
            Retry::Again => None,
            Retry::Exhausted => Some(Err(RoleAddError::AttemptsExceeded)),
        }
    }

    /// What follows an attempt to record a removal: done on success, `None` to load the
    /// role again, or the error once the attempts are spent.
    pub fn after_remove_attempt<E>(attempts_made: usize, outcome: Outcome) -> (r: Option<
        Result<(), RoleRemoveError<E>>,
    >)
        ensures
            outcome is Recorded ==> r matches Some(Ok(())),
            outcome is Skipped && attempts_made < MAX_UPDATE_ATTEMPTS ==> r is None,
            outcome is Skipped && attempts_made >= MAX_UPDATE_ATTEMPTS ==> r matches Some(
                Err(RoleRemoveError::AttemptsExceeded),
            ),
    {
        match after_attempt(attempts_made, MAX_UPDATE_ATTEMPTS, outcome) {
            Retry::Done => Some(Ok(())),
            Retry::Again => None,
            Retry::Exhausted => Some(Err(RoleRemoveError::AttemptsExceeded)),
        }
    }
}

impl<R: Clone> RoleService<R, ObserveRoleProjection<R>> {
    /// A service whose lookups replay the store's role stream.
    pub fn new(store: R) -> (s: Self)
        ensures
            s.store == store,
            cloned::<R>(store, s.projection.store),
    {
        let projection = ObserveRoleProjection::new(store.clone());
        Self::with_projection(store, projection)
    }
}

/// The answer to a role lookup, given what the projection answered: only the system may
/// look up roles; then the projection's roles are the answer, and its error is handed on.
pub fn lookup_answer<E>(authority: &Authority, answer: Result<Vec<RoleId>, E>) -> (r: Result<
    Vec<RoleId>,
    RoleLookupError<E>,
>)
    ensures
        !(authority.spec_actor() is System) ==> r matches Err(RoleLookupError::RequiresSystemAuthority),
        authority.spec_actor() is System ==> match answer {
            Ok(v) => r == Ok::<Vec<RoleId>, RoleLookupError<E>>(v),
            Err(e) => r matches Err(RoleLookupError::Projection(x)) && x == e,
        },
{
    match check_lookup_authority(authority) {
        Ok(()) => match answer {
            Ok(v) => Ok(v),
            Err(e) => Err(RoleLookupError::Projection(e)),
        },
        Err(e) => Err(e),
    }
}

impl<R, P: RoleProjection> RoleService<R, P> {
    /// Looks up the roles of an actor: only the system may, and then the projection
    /// answers, each role once, or fails with its own error exactly when it fails.
    pub fn roles(&self, authority: &Authority, actor: &Actor) -> (r: Result<
        Vec<RoleId>,
        RoleLookupError<P::Error>,
    >)
        ensures
            !(authority.spec_actor() is System) <==> r matches Err(
                RoleLookupError::RequiresSystemAuthority,
            ),
            authority.spec_actor() is System ==> (r is Ok <==> !self.projection.lookup_fails(*actor)),
            authority.spec_actor() is System ==> (r matches Err(RoleLookupError::Projection(_))
                <==> self.projection.lookup_fails(*actor)),
            r matches Ok(v) ==> forall|i: int, j: int| 0 <= i < j < v@.len() ==> v@[i] != v@[j],
            r matches Ok(v) ==> forall|q: RoleId|
                #![trigger v@.contains(q)]
                v@.contains(q) <==> self.projection.held_roles(*actor).contains(q),
    {
        if !check_lookup_authority::<P::Error>(authority).is_ok() {
            return Err(RoleLookupError::RequiresSystemAuthority);
        }
        lookup_answer(authority, self.projection.roles(actor))
    }
}

/// Creating a role, one store call at a time: each attempt records `Created` for a
/// fresh identifier on condition that its stream is empty, up to `MAX_CREATE_ATTEMPTS`
/// attempts.
#[derive(Debug)]
pub struct RoleCreation {
    pub authority: Authority,
    /// The identifier of the current attempt.
    pub role_id: RoleId,
    /// The attempts made so far, the current one included.
    pub attempts: usize,
}

impl RoleCreation {
    /// The first attempt: record `Created` for a fresh identifier on an empty stream.
    pub fn start(authority: Authority) -> (r: (RoleCreation, StoreCall<RoleId, RolePayload>))
        ensures
            r.0.authority == authority,
            r.0.attempts == 1,
            r.0.role_id.0.wf() && r.0.role_id.0 is Cuid16,
            crate::ident::spec_is_cuid2(r.0.role_id.0@) && r.0.role_id.0@.len() <= 16,
            r.1 == (StoreCall::Record {
                authority,
                id: r.0.role_id,
                payload: RolePayload::Created,
                when: When::Empty,
            }),
    {
        let role_id = RoleId::new();
        (
            RoleCreation { authority, role_id, attempts: 1 },
            StoreCall::Record { authority, id: role_id, payload: RolePayload::Created, when: When::Empty },
        )
    }

    /// Follows the store's reply to the attempt: its error ends the creation; a recorded
    /// event gives the role; if the stream was taken, a new attempt with a fresh
    /// identifier is made unless `MAX_CREATE_ATTEMPTS` were made.
    pub fn recorded<E>(&mut self, reply: Result<Outcome, E>) -> (s: Step<
        RoleId,
        RolePayload,
        Result<RoleId, RoleCreateError<E>>,
    >)
        ensures
            final(self).authority == old(self).authority,
            reply matches Err(e) ==> (s matches Step::Done(Err(RoleCreateError::Store(x))) && x == e),
            reply matches Ok(Outcome::Recorded(_)) ==> (s matches Step::Done(Ok(g)) && g == old(
                self,
            ).role_id),
            reply matches Ok(Outcome::Skipped) && old(self).attempts >= MAX_CREATE_ATTEMPTS ==> (
            s matches Step::Done(Err(RoleCreateError::AttemptsExceeded))),
            reply matches Ok(Outcome::Skipped) && old(self).attempts < MAX_CREATE_ATTEMPTS ==> {
                &&& final(self).attempts == old(self).attempts + 1
                &&& final(self).role_id.0.wf() && final(self).role_id.0 is Cuid16
                &&& crate::ident::spec_is_cuid2(final(self).role_id.0@) && final(self).role_id.0@.len() <= 16
                &&& s matches Step::Call(c) && c == (StoreCall::Record {
                    authority: old(self).authority,
                    id: final(self).role_id,
                    payload: RolePayload::Created,
                    when: When::Empty,
                })
            },
    {
        let outcome = match reply {
            Ok(o) => o,
            Err(e) => return Step::Done(Err(RoleCreateError::Store(e))),
        };
        match RoleService::<(), ()>::after_create_attempt(self.role_id, self.attempts, outcome) {
            Some(r) => Step::Done(r),
            None => {
                self.attempts = self.attempts + 1;
                self.role_id = RoleId::new();
                Step::Call(
                    StoreCall::Record {
                        authority: self.authority,
                        id: self.role_id,
                        payload: RolePayload::Created,
                        when: When::Empty,
                    },
                )
            },
        }
    }
}

/// Looking up the roles of an actor by replaying every role stream of the store, one
/// page at a time from the start.
pub struct RoleLookup {
    pub actor: Actor,
    pub replay: RoleReplay,
    /// The events read so far, in order.
    pub seen: Ghost<Seq<RoleEvent>>,
}

impl RoleLookup {
    /// The replay holds the states that the events read so far give.
    pub open spec fn wf(&self) -> bool {
        &&& self.replay.wf()
        &&& Some(self.replay.spec_view()) == roles_replay(Map::<RoleId, RoleView>::empty(), self.seen@)
    }

    /// Follows the store's reply to a read: its error ends the lookup with that error;
    /// otherwise the page's events are replayed after those read before (an error if one
    /// does not follow from its role's state), and the next page is read if more follow;
    /// else the answer is the roles that hold the actor after every event, each once.
    pub fn observed<E>(&mut self, reply: Result<Page<RoleEvent>, E>) -> (r: Result<
        Step<RoleId, RolePayload, Result<Vec<RoleId>, RoleLookupError<E>>>,
        RoleStateError,
    >)
        requires
            old(self).wf(),
        ensures
            final(self).actor == old(self).actor,
            reply matches Err(e) ==> (r matches Ok(Step::Done(Err(RoleLookupError::Projection(x))))
                && x == e),
            reply matches Ok(page) ==> (r is Ok <==> roles_replay(
                Map::<RoleId, RoleView>::empty(),
                old(self).seen@ + page.items@,
            ) is Some),
            reply matches Ok(page) ==> (r is Ok ==> final(self).wf() && final(self).seen@ == old(
                self,
            ).seen@ + page.items@),
            reply matches Ok(page) ==> (page.more && r is Ok ==> (r matches Ok(Step::Call(c)) && c
                == (StoreCall::<RoleId, RolePayload>::Observe {
                after: After::Specific(page.next),
                limit: REVIEW_PAGE_SIZE,
            }))),
            reply matches Ok(page) ==> (!page.more && r is Ok ==> (r matches Ok(Step::Done(Ok(v)))
                && (forall|i: int, j: int| 0 <= i < j < v@.len() ==> v@[i] != v@[j]) && (forall|
                q: RoleId,
            |
                #![trigger v@.contains(q)]
                v@.contains(q) <==> replayed_roles_of(
                    roles_replay(Map::<RoleId, RoleView>::empty(), old(self).seen@ + page.items@).unwrap(),
                    old(self).actor,
                ).contains(q)))),
    {
        let page = match reply {
            Ok(p) => p,
            Err(e) => return Ok(Step::Done(Err(RoleLookupError::Projection(e)))),
        };
        proof {
            lemma_roles_replay_append(Map::<RoleId, RoleView>::empty(), self.seen@, page.items@);
        }
        let replayed = self.replay.replay_page(&page.items);
        match replayed {
            Err(e) => Err(e),
            Ok(()) => {
                self.seen = Ghost(self.seen@ + page.items@);
                if page.more {
                    Ok(Step::Call(StoreCall::Observe { after: After::Specific(page.next), limit: REVIEW_PAGE_SIZE }))
                } else {
                    Ok(Step::Done(Ok(self.replay.roles_of(&self.actor))))
                }
            },
        }
    }
}

impl<R> RoleService<R, ObserveRoleProjection<R>> {
    /// Starts looking up the roles of an actor by replaying the store's role streams:
    /// only the system may; the first page is read from the start.
    pub fn start_lookup<E>(&self, authority: &Authority, actor: Actor) -> (r: Result<
        (RoleLookup, StoreCall<RoleId, RolePayload>),
        RoleLookupError<E>,
    >)
        ensures
            !(authority.spec_actor() is System) <==> r matches Err(
                RoleLookupError::RequiresSystemAuthority,
            ),
            authority.spec_actor() is System ==> (r matches Ok((l, c)) && l.wf() && l.actor == actor
                && l.seen@ == Seq::<RoleEvent>::empty() && c == (StoreCall::<RoleId, RolePayload>::Observe {
                after: After::Start,
                limit: REVIEW_PAGE_SIZE,
            })),
    {
        match check_lookup_authority::<E>(authority) {
            Err(e) => Err(e),
            Ok(()) => {
                let replay = RoleReplay::new();
                Ok(
                    (
                        RoleLookup { actor, replay, seen: Ghost(Seq::empty()) },
                        StoreCall::Observe { after: After::Start, limit: REVIEW_PAGE_SIZE },
                    ),
                )
            },
        }
    }
}

/// Adding an actor to a role, one store call at a time: read the role's stream page by page,
/// and unless the role already holds the actor record its addition on condition that the
/// stream has not changed; if another writer got there first, read again, up to
/// `MAX_UPDATE_ATTEMPTS` recording attempts.
pub struct RoleAddition {
    pub role_id: RoleId,
    pub authority: Authority,
    pub actor: Actor,
    /// The recording attempts that another writer beat so far.
    pub attempts: usize,
    pub loader: RoleLoader,
    /// The events of the role read since the current attempt began.
    pub seen: Ghost<Seq<RoleEvent>>,
}

impl RoleAddition {
    /// The loader holds the state that the events read so far give.
    pub open spec fn wf(&self) -> bool {
        &&& self.loader.state.wf()
        &&& Some(self.loader.state.spec_view()) == role_replay(None, self.seen@)
    }

    /// The first read of the role's stream, from its start.
    pub fn start(role_id: RoleId, authority: Authority, actor: Actor) -> (r: (
        RoleAddition,
        StoreCall<RoleId, RolePayload>,
    ))
        ensures
            r.0.wf(),
            r.0.role_id == role_id && r.0.authority == authority && r.0.actor == actor,
            r.0.attempts == 0,
            r.0.seen@ == Seq::<RoleEvent>::empty(),
            r.1 == (StoreCall::<RoleId, RolePayload>::Review {
                id: role_id,
                after: After::Start,
                limit: REVIEW_PAGE_SIZE,
            }),
    {
        (
            RoleAddition { role_id, authority, actor, attempts: 0, loader: RoleLoader::new(), seen: Ghost(Seq::empty()) },
            StoreCall::Review { id: role_id, after: After::Start, limit: REVIEW_PAGE_SIZE },
        )
    }

    /// Follows the store's reply to a read of the role's stream: its error ends the
    /// update; an empty page means the role does not exist; otherwise the events are
    /// replayed after those read before (an error if one does not follow), the next page
    /// is read if more follow, and at the end the actor is added
    /// (on condition that the role's latest event is still the one read) unless the role is
    /// absent (an error) or already holds it.
    pub fn reviewed<E>(&mut self, reply: Result<Page<RoleEvent>, E>) -> (r: Result<
        Step<RoleId, RolePayload, Result<(), RoleAddError<E>>>,
        RoleStateError,
    >)
        requires
            old(self).wf(),
        ensures
            final(self).role_id == old(self).role_id,
            final(self).authority == old(self).authority,
            final(self).actor == old(self).actor,
            final(self).attempts == old(self).attempts,
            reply matches Err(e) ==> (r matches Ok(Step::Done(Err(RoleAddError::Store(x)))) && x == e),
            reply matches Ok(page) ==> (page.items@.len() == 0 ==> (r matches Ok(
                Step::Done(Err(RoleAddError::InvalidRole)),
            ))),
            reply matches Ok(page) ==> (page.items@.len() > 0 ==> (r is Ok <==> role_replay(
                None,
                old(self).seen@ + page.items@,
            ) is Some)),
            reply matches Ok(page) ==> (page.items@.len() > 0 && page.more && r is Ok ==> {
                &&& final(self).wf()
                &&& final(self).seen@ == old(self).seen@ + page.items@
                &&& r matches Ok(Step::Call(c)) && c == (StoreCall::<RoleId, RolePayload>::Review {
                    id: old(self).role_id,
                    after: After::Specific(page.next),
                    limit: REVIEW_PAGE_SIZE,
                })
            }),
            reply matches Ok(page) ==> (page.items@.len() > 0 && !page.more && r is Ok ==> match role_replay(
                None,
                old(self).seen@ + page.items@,
            ).unwrap() {
                Some((actors, When::Within(id))) => if actors.contains(old(self).actor) {
                    r matches Ok(Step::Done(Ok(())))
                } else {
                    r matches Ok(Step::Call(c)) && c == (StoreCall::Record {
                        authority: old(self).authority,
                        id: old(self).role_id,
                        payload: RolePayload::ActorAdded(old(self).actor),
                        when: When::Within(id),
                    })
                },
                _ => r matches Ok(Step::Done(Err(RoleAddError::InvalidRole))),
            }),
    {
        let page = match reply {
            Ok(p) => p,
            Err(e) => return Ok(Step::Done(Err(RoleAddError::Store(e)))),
        };
        proof {
            lemma_role_replay_append(None, self.seen@, page.items@);
        }
        let step = match self.loader.observe(&page) {
            Ok(step) => step,
            Err(e) => return Err(e),
        };
        if page.items.len() > 0 {
            self.seen = Ghost(self.seen@ + page.items@);
        }
        match step {
            LoadStep::Next(after) => Ok(Step::Call(StoreCall::Review { id: self.role_id, after, limit: REVIEW_PAGE_SIZE })),
            LoadStep::Done(loaded) => match RoleService::<(), ()>::add_plan::<E>(&loaded, self.actor) {
                Err(e) => Ok(Step::Done(Err(e))),
                Ok(None) => Ok(Step::Done(Ok(()))),
                Ok(Some((payload, when))) => Ok(
                    Step::Call(StoreCall::Record { authority: self.authority, id: self.role_id, payload, when }),
                ),
            },
        }
    }

    /// Follows the store's reply to a recording attempt: its error ends the update; a
    /// recorded event finishes it; if another writer got there first, the role is read
    /// again from the start, unless this was attempt `MAX_UPDATE_ATTEMPTS`.
    pub fn recorded<E>(&mut self, reply: Result<Outcome, E>) -> (s: Step<
        RoleId,
        RolePayload,
        Result<(), RoleAddError<E>>,
    >)
        ensures
            final(self).role_id == old(self).role_id,
            final(self).authority == old(self).authority,
            final(self).actor == old(self).actor,
            reply matches Err(e) ==> (s matches Step::Done(Err(RoleAddError::Store(x))) && x == e),
            reply matches Ok(Outcome::Recorded(_)) ==> (s matches Step::Done(Ok(()))),
            reply matches Ok(Outcome::Skipped) && old(self).attempts + 1 >= MAX_UPDATE_ATTEMPTS ==> (
            s matches Step::Done(Err(RoleAddError::AttemptsExceeded))),
            reply matches Ok(Outcome::Skipped) && old(self).attempts + 1 < MAX_UPDATE_ATTEMPTS ==> {
                &&& final(self).wf()
                &&& final(self).attempts == old(self).attempts + 1
                &&& final(self).seen@ == Seq::<RoleEvent>::empty()
                &&& s matches Step::Call(c) && c == (StoreCall::<RoleId, RolePayload>::Review {
                    id: old(self).role_id,
                    after: After::Start,
                    limit: REVIEW_PAGE_SIZE,
                })
            },
    {
        let outcome = match reply {
            Ok(o) => o,
            Err(e) => return Step::Done(Err(RoleAddError::Store(e))),
        };
        let made = one_more_attempt(self.attempts);
        match RoleService::<(), ()>::after_add_attempt::<E>(made, outcome) {
            Some(r) => Step::Done(r),
            None => {
                self.attempts = made;
                self.loader = RoleLoader::new();
                self.seen = Ghost(Seq::empty());
                Step::Call(StoreCall::Review { id: self.role_id, after: After::Start, limit: REVIEW_PAGE_SIZE })
            },
        }
    }
}

/// Removing an actor from a role, one store call at a time: read the role's stream page by
/// page, and if the role holds the actor record its removal on condition that the stream
/// has not changed; if another writer got there first, read again, up to
/// `MAX_UPDATE_ATTEMPTS` recording attempts.
pub struct RoleRemoval {
    pub role_id: RoleId,
    pub authority: Authority,
    pub actor: Actor,
    /// The recording attempts that another writer beat so far.
    pub attempts: usize,
    pub loader: RoleLoader,
    /// The events of the role read since the current attempt began.
    pub seen: Ghost<Seq<RoleEvent>>,
}

impl RoleRemoval {
    /// The loader holds the state that the events read so far give.
    pub open spec fn wf(&self) -> bool {
        &&& self.loader.state.wf()
        &&& Some(self.loader.state.spec_view()) == role_replay(None, self.seen@)
    }

    /// The first read of the role's stream, from its start.
    pub fn start(role_id: RoleId, authority: Authority, actor: Actor) -> (r: (
        RoleRemoval,
        StoreCall<RoleId, RolePayload>,
    ))
        ensures
            r.0.wf(),
            r.0.role_id == role_id && r.0.authority == authority && r.0.actor == actor,
            r.0.attempts == 0,
            r.0.seen@ == Seq::<RoleEvent>::empty(),
            r.1 == (StoreCall::<RoleId, RolePayload>::Review {
                id: role_id,
                after: After::Start,
                limit: REVIEW_PAGE_SIZE,
            }),
    {
        (
            RoleRemoval { role_id, authority, actor, attempts: 0, loader: RoleLoader::new(), seen: Ghost(Seq::empty()) },
            StoreCall::Review { id: role_id, after: After::Start, limit: REVIEW_PAGE_SIZE },
        )
    }

    /// Follows the store's reply to a read of the role's stream: its error ends the
    /// update; an empty page means the role does not exist; otherwise the events are
    /// replayed after those read before (an error if one does not follow), the next page
    /// is read if more follow, and at the end the actor is removed
    /// (on condition that the role's latest event is still the one read) unless the role is
    /// absent (an error) or does not hold it.
    pub fn reviewed<E>(&mut self, reply: Result<Page<RoleEvent>, E>) -> (r: Result<
        Step<RoleId, RolePayload, Result<(), RoleRemoveError<E>>>,
        RoleStateError,
    >)
        requires
            old(self).wf(),
        ensures
            final(self).role_id == old(self).role_id,
            final(self).authority == old(self).authority,
            final(self).actor == old(self).actor,
            final(self).attempts == old(self).attempts,
            reply matches Err(e) ==> (r matches Ok(Step::Done(Err(RoleRemoveError::Store(x)))) && x == e),
            reply matches Ok(page) ==> (page.items@.len() == 0 ==> (r matches Ok(
                Step::Done(Err(RoleRemoveError::InvalidRole)),
            ))),
            reply matches Ok(page) ==> (page.items@.len() > 0 ==> (r is Ok <==> role_replay(
                None,
                old(self).seen@ + page.items@,
            ) is Some)),
            reply matches Ok(page) ==> (page.items@.len() > 0 && page.more && r is Ok ==> {
                &&& final(self).wf()
                &&& final(self).seen@ == old(self).seen@ + page.items@
                &&& r matches Ok(Step::Call(c)) && c == (StoreCall::<RoleId, RolePayload>::Review {
                    id: old(self).role_id,
                    after: After::Specific(page.next),
                    limit: REVIEW_PAGE_SIZE,
                })
            }),
            reply matches Ok(page) ==> (page.items@.len() > 0 && !page.more && r is Ok ==> match role_replay(
                None,
                old(self).seen@ + page.items@,
            ).unwrap() {
                Some((actors, When::Within(id))) => if !actors.contains(old(self).actor) {
                    r matches Ok(Step::Done(Ok(())))
                } else {
                    r matches Ok(Step::Call(c)) && c == (StoreCall::Record {
                        authority: old(self).authority,
                        id: old(self).role_id,
                        payload: RolePayload::ActorRemoved(old(self).actor),
                        when: When::Within(id),
                    })
                },
                _ => r matches Ok(Step::Done(Err(RoleRemoveError::InvalidRole))),
            }),
    {
        let page = match reply {
            Ok(p) => p,
            Err(e) => return Ok(Step::Done(Err(RoleRemoveError::Store(e)))),
        };
        proof {
            lemma_role_replay_append(None, self.seen@, page.items@);
        }
        let step = match self.loader.observe(&page) {
            Ok(step) => step,
            Err(e) => return Err(e),
        };
        if page.items.len() > 0 {
            self.seen = Ghost(self.seen@ + page.items@);
        }
        match step {
            LoadStep::Next(after) => Ok(Step::Call(StoreCall::Review { id: self.role_id, after, limit: REVIEW_PAGE_SIZE })),
            LoadStep::Done(loaded) => match RoleService::<(), ()>::remove_plan::<E>(&loaded, self.actor) {
                Err(e) => Ok(Step::Done(Err(e))),
                Ok(None) => Ok(Step::Done(Ok(()))),
                Ok(Some((payload, when))) => Ok(
                    Step::Call(StoreCall::Record { authority: self.authority, id: self.role_id, payload, when }),
                ),
            },
        }
    }

    /// Follows the store's reply to a recording attempt: its error ends the update; a
    /// recorded event finishes it; if another writer got there first, the role is read
    /// again from the start, unless this was attempt `MAX_UPDATE_ATTEMPTS`.
    pub fn recorded<E>(&mut self, reply: Result<Outcome, E>) -> (s: Step<
        RoleId,
        RolePayload,
        Result<(), RoleRemoveError<E>>,
    >)
        ensures
            final(self).role_id == old(self).role_id,
            final(self).authority == old(self).authority,
            final(self).actor == old(self).actor,
            reply matches Err(e) ==> (s matches Step::Done(Err(RoleRemoveError::Store(x))) && x == e),
            reply matches Ok(Outcome::Recorded(_)) ==> (s matches Step::Done(Ok(()))),
            reply matches Ok(Outcome::Skipped) && old(self).attempts + 1 >= MAX_UPDATE_ATTEMPTS ==> (
            s matches Step::Done(Err(RoleRemoveError::AttemptsExceeded))),
            reply matches Ok(Outcome::Skipped) && old(self).attempts + 1 < MAX_UPDATE_ATTEMPTS ==> {
                &&& final(self).wf()
                &&& final(self).attempts == old(self).attempts + 1
                &&& final(self).seen@ == Seq::<RoleEvent>::empty()
                &&& s matches Step::Call(c) && c == (StoreCall::<RoleId, RolePayload>::Review {
                    id: old(self).role_id,
                    after: After::Start,
                    limit: REVIEW_PAGE_SIZE,
                })
            },
    {
        let outcome = match reply {
            Ok(o) => o,
            Err(e) => return Step::Done(Err(RoleRemoveError::Store(e))),
        };
        let made = one_more_attempt(self.attempts);
        match RoleService::<(), ()>::after_remove_attempt::<E>(made, outcome) {
            Some(r) => Step::Done(r),
            None => {
                self.attempts = made;
                self.loader = RoleLoader::new();
                self.seen = Ghost(Seq::empty());
                Step::Call(StoreCall::Review { id: self.role_id, after: After::Start, limit: REVIEW_PAGE_SIZE })
            },
        }
    }
}

/// Adding an actor that a present role already holds leaves its actors unchanged, and
/// removing an actor that it does not hold does too: repeating an addition or a removal
/// changes nothing.
pub proof fn lemma_role_updates_idempotent(actors: Set<Actor>, w: When, e: RoleEvent)
    ensures
        e.payload matches RolePayload::ActorAdded(a) && actors.contains(a) ==> role_step(
            Some((actors, w)),
            e,
        ) == Some(Some((actors, When::Within(e.event_id)))),
        e.payload matches RolePayload::ActorRemoved(a) && !actors.contains(a) ==> role_step(
            Some((actors, w)),
            e,
        ) == Some(Some((actors, When::Within(e.event_id)))),
{
    if let RolePayload::ActorAdded(a) = e.payload {
        if actors.contains(a) {
            assert(actors.insert(a) =~= actors);
        }
    }
    if let RolePayload::ActorRemoved(a) = e.payload {
        if !actors.contains(a) {
            assert(actors.remove(a) =~= actors);
        }
    }
}

/// Removing an actor right after adding it to a present role that did not hold it gives
/// back the role's actors as they were.
pub proof fn lemma_remove_undoes_add(actors: Set<Actor>, w: When, added: RoleEvent, removed: RoleEvent)
    requires
        added.payload matches RolePayload::ActorAdded(a) && removed.payload
            == RolePayload::ActorRemoved(a) && !actors.contains(a),
    ensures
        role_step(Some((actors, w)), added) matches Some(v) && role_step(v, removed) == Some(
            Some((actors, When::Within(removed.event_id))),
        ),
{
    if let RolePayload::ActorAdded(a) = added.payload {
        assert(actors.insert(a).remove(a) =~= actors);
    }
}

/// Recording the creation of a role that the history does not hold keeps the history
/// valid, makes the role present with no actors, and changes no actor's roles.
pub proof fn lemma_recorded_creation(es: Seq<RoleEvent>, e: RoleEvent)
    requires
        roles_replay(Map::<RoleId, RoleView>::empty(), es) is Some,
        role_in(roles_replay(Map::<RoleId, RoleView>::empty(), es).unwrap(), e.id) is None,
        e.payload == RolePayload::Created,
    ensures
        roles_replay(Map::<RoleId, RoleView>::empty(), es.push(e)) == Some(
            roles_replay(Map::<RoleId, RoleView>::empty(), es).unwrap().insert(
                e.id,
                Some((Set::<Actor>::empty(), When::Within(e.event_id))),
            ),
        ),
        forall|x: Actor|
            #![trigger replayed_roles_of(roles_replay(Map::<RoleId, RoleView>::empty(), es.push(e)).unwrap(), x)]
            replayed_roles_of(
                roles_replay(Map::<RoleId, RoleView>::empty(), es.push(e)).unwrap(),
                x,
            ) == replayed_roles_of(roles_replay(Map::<RoleId, RoleView>::empty(), es).unwrap(), x),
{
    let m = roles_replay(Map::<RoleId, RoleView>::empty(), es).unwrap();
    assert(es.push(e).drop_last() =~= es);
    let m2 = roles_replay(Map::<RoleId, RoleView>::empty(), es.push(e)).unwrap();
    assert forall|x: Actor| #![trigger replayed_roles_of(m2, x)] replayed_roles_of(m2, x)
        == replayed_roles_of(m, x) by {
        assert(replayed_roles_of(m2, x) =~= replayed_roles_of(m, x));
    }
}

/// Recording the addition of an actor to a role that the history holds present keeps
/// the history valid: the actor then holds that role as well, and every other actor
/// holds the roles it held.
pub proof fn lemma_recorded_addition(es: Seq<RoleEvent>, e: RoleEvent, a: Actor)
    requires
        roles_replay(Map::<RoleId, RoleView>::empty(), es) is Some,
        role_in(roles_replay(Map::<RoleId, RoleView>::empty(), es).unwrap(), e.id) is Some,
        e.payload == RolePayload::ActorAdded(a),
    ensures
        roles_replay(Map::<RoleId, RoleView>::empty(), es.push(e)) is Some,
        forall|x: Actor|
            #![trigger replayed_roles_of(roles_replay(Map::<RoleId, RoleView>::empty(), es.push(e)).unwrap(), x)]
            replayed_roles_of(
                roles_replay(Map::<RoleId, RoleView>::empty(), es.push(e)).unwrap(),
                x,
            ) == if x == a {
                replayed_roles_of(roles_replay(Map::<RoleId, RoleView>::empty(), es).unwrap(), x).insert(e.id)
            } else {
                replayed_roles_of(roles_replay(Map::<RoleId, RoleView>::empty(), es).unwrap(), x)
            },
{
    let m = roles_replay(Map::<RoleId, RoleView>::empty(), es).unwrap();
    assert(es.push(e).drop_last() =~= es);
    let m2 = roles_replay(Map::<RoleId, RoleView>::empty(), es.push(e)).unwrap();
    assert forall|x: Actor| #![trigger replayed_roles_of(m2, x)] replayed_roles_of(m2, x) == if x
        == a {
        replayed_roles_of(m, x).insert(e.id)
    } else {
        replayed_roles_of(m, x)
    } by {
        if x == a {
            assert(replayed_roles_of(m2, x) =~= replayed_roles_of(m, x).insert(e.id));
        } else {
            assert(replayed_roles_of(m2, x) =~= replayed_roles_of(m, x));
        }
    }
}

/// Recording the removal of an actor from a role that the history holds present keeps
/// the history valid: the actor then no longer holds that role, and every other actor
/// holds the roles it held.
pub proof fn lemma_recorded_removal(es: Seq<RoleEvent>, e: RoleEvent, a: Actor)
    requires
        roles_replay(Map::<RoleId, RoleView>::empty(), es) is Some,
        role_in(roles_replay(Map::<RoleId, RoleView>::empty(), es).unwrap(), e.id) is Some,
        e.payload == RolePayload::ActorRemoved(a),
    ensures
        roles_replay(Map::<RoleId, RoleView>::empty(), es.push(e)) is Some,
        forall|x: Actor|
            #![trigger replayed_roles_of(roles_replay(Map::<RoleId, RoleView>::empty(), es.push(e)).unwrap(), x)]
            replayed_roles_of(
                roles_replay(Map::<RoleId, RoleView>::empty(), es.push(e)).unwrap(),
                x,
            ) == if x == a {
                replayed_roles_of(roles_replay(Map::<RoleId, RoleView>::empty(), es).unwrap(), x).remove(e.id)
            } else {
                replayed_roles_of(roles_replay(Map::<RoleId, RoleView>::empty(), es).unwrap(), x)
            },
{
    let m = roles_replay(Map::<RoleId, RoleView>::empty(), es).unwrap();
    assert(es.push(e).drop_last() =~= es);
    let m2 = roles_replay(Map::<RoleId, RoleView>::empty(), es.push(e)).unwrap();
    assert forall|x: Actor| #![trigger replayed_roles_of(m2, x)] replayed_roles_of(m2, x) == if x
        == a {
        replayed_roles_of(m, x).remove(e.id)
    } else {
        replayed_roles_of(m, x)
    } by {
        if x == a {
            assert(replayed_roles_of(m2, x) =~= replayed_roles_of(m, x).remove(e.id));
        } else {
            assert(replayed_roles_of(m2, x) =~= replayed_roles_of(m, x));
        }
    }
}

/// Whether, after the events, the actor was last added to the role rather than removed
/// from it (and never, if neither happened).
pub open spec fn last_added(es: Seq<RoleEvent>, r: RoleId, x: Actor) -> bool
    decreases es.len(),
{
    if es.len() == 0 {
        false
    } else if es.last().id == r && es.last().payload == RolePayload::ActorAdded(x) {
        true
    } else if es.last().id == r && es.last().payload == RolePayload::ActorRemoved(x) {
        false
    } else {
        last_added(es.drop_last(), r, x)
    }
}

/// Over any valid history of role events (what creating roles and adding and removing
/// actors records), an actor holds exactly the roles to which it was last added and not
/// removed since: the roles that a lookup answers are the actors' latest memberships.
pub proof fn lemma_roles_are_latest_memberships(es: Seq<RoleEvent>)
    requires
        roles_replay(Map::<RoleId, RoleView>::empty(), es) is Some,
    ensures
        forall|x: Actor, r: RoleId|
            #![trigger replayed_roles_of(roles_replay(Map::<RoleId, RoleView>::empty(), es).unwrap(), x).contains(r)]
            replayed_roles_of(roles_replay(Map::<RoleId, RoleView>::empty(), es).unwrap(), x).contains(r)
                <==> last_added(es, r, x),
    decreases es.len(),
{
    let empty = Map::<RoleId, RoleView>::empty();
    if es.len() == 0 {
    } else {
        let prev = es.drop_last();
        let e = es.last();
        assert(roles_replay(empty, prev) is Some);
        lemma_roles_are_latest_memberships(prev);
        let m = roles_replay(empty, prev).unwrap();
        let m2 = roles_replay(empty, es).unwrap();
        assert(m2 == m.insert(e.id, role_step(role_in(m, e.id), e).unwrap()));
        assert forall|x: Actor, r: RoleId|
            #![trigger replayed_roles_of(m2, x).contains(r)]
            replayed_roles_of(m2, x).contains(r) <==> last_added(es, r, x) by {
            assert(replayed_roles_of(m, x).contains(r) <==> last_added(prev, r, x));
            if r != e.id {
                assert(replayed_roles_of(m2, x).contains(r) == replayed_roles_of(m, x).contains(r));
            } else {
                match e.payload {
                    RolePayload::Created => {
                        assert(!replayed_roles_of(m, x).contains(r));
                    },
                    RolePayload::ActorAdded(a) => {},
                    RolePayload::ActorRemoved(a) => {},
                }
            }
        }
    }
}

} // verus!
