//! Accounts and users kept as event streams: the events of each, how an aggregate folds
//! them, and the numbers under which events are stored. Identifiers are UUIDs, held as
//! their 128-bit values.

use crate::idmap::{IdMap, IdSet};
use vstd::prelude::*;

verus! {

/// What a tenant may do with a shared account.
#[derive(Clone, Copy, PartialEq, Eq, Structural, Debug, Hash)]
pub enum TenantPermissions {
    Read,
    ReadWrite,
    Share,
}

/// What can happen to an account.
#[derive(Clone, Debug)]
pub enum AccountEvent {
    Created { owner_id: u128, name: String, starting_balance: i64 },
    AddTenant { shared_user_id: u128, permissions: TenantPermissions },
    UpdateTenant { shared_user_id: u128, permissions: TenantPermissions },
    RemoveTenant { shared_user_id: u128 },
    BalanceUpdated { amount: i64 },
    Deleted,
}

/// An account as folded from its events.
#[derive(Debug)]
pub struct AccountState {
    pub id: u128,
    pub balance: i64,
    pub tenants: IdMap<u128, TenantPermissions>,
    pub name: String,
    pub owner_id: u128,
    pub deleted: bool,
}

/// An account seen from outside: balance, tenants, name, owner, and whether deleted.
pub type AccountView = (int, Map<u128, TenantPermissions>, Seq<char>, u128, bool);

/// How an event changes an account: creation sets owner, name and balance; a balance
/// update adds to the balance; a tenant is added (or replaced), updated only if present,
/// or removed; deletion marks the account.
pub open spec fn account_step(v: AccountView, e: AccountEvent) -> AccountView {
    match e {
        AccountEvent::Created { owner_id, name, starting_balance } => (
            starting_balance as int,
            v.1,
            name@,
            owner_id,
            v.4,
        ),
        AccountEvent::BalanceUpdated { amount } => (v.0 + amount, v.1, v.2, v.3, v.4),
        AccountEvent::AddTenant { shared_user_id, permissions } => (
            v.0,
            v.1.insert(shared_user_id, permissions),
            v.2,
            v.3,
            v.4,
        ),
        AccountEvent::RemoveTenant { shared_user_id } => (
            v.0,
            v.1.remove(shared_user_id),
            v.2,
            v.3,
            v.4,
        ),
        AccountEvent::UpdateTenant { shared_user_id, permissions } => (
            v.0,
            if v.1.dom().contains(shared_user_id) {
                v.1.insert(shared_user_id, permissions)
            } else {
                v.1
            },
            v.2,
            v.3,
            v.4,
        ),
        AccountEvent::Deleted => (v.0, v.1, v.2, v.3, true),
    }
}

/// Folds the events of an account.
pub open spec fn account_replay(v: AccountView, es: Seq<AccountEvent>) -> AccountView
    decreases es.len(),
{
    if es.len() == 0 {
        v
    } else {
        account_step(account_replay(v, es.drop_last()), es.last())
    }
}

/// An account before any event: no balance, tenants or name, a nil owner, not deleted.
pub open spec fn empty_account() -> AccountView {
    (0, Map::empty(), Seq::empty(), 0, false)
}

/// Every balance that folding the events reaches fits in an `i64`.
pub open spec fn balances_stay_in_range(v: AccountView, es: Seq<AccountEvent>) -> bool {
    forall|k: int|
        0 <= k <= es.len() ==> i64::MIN <= #[trigger] account_replay(v, es.take(k)).0 <= i64::MAX
}

impl AccountState {
    pub closed spec fn wf(&self) -> bool {
        self.tenants.wf()
    }

    pub closed spec fn spec_view(&self) -> AccountView {
        (self.balance as int, self.tenants.spec_map(), self.name@, self.owner_id, self.deleted)
    }

    /// An account with the identifier and no event applied.
    pub fn new(id: u128) -> (a: AccountState)
        ensures
            a.wf(),
            a.id == id,
            a.spec_view() == empty_account(),
    {
        AccountState {
            id,
            balance: 0,
            tenants: IdMap::new(),
            name: String::new(),
            owner_id: 0,
            deleted: false,
        }
    }

    /// Applies an event, as `account_step` says. A balance update must keep the balance
    /// within an `i64`.
    pub fn apply(&mut self, event: AccountEvent)
        requires
            old(self).wf(),
            i64::MIN <= account_step(old(self).spec_view(), event).0 <= i64::MAX,
        ensures
            final(self).wf(),
            final(self).id == old(self).id,
            final(self).spec_view() == account_step(old(self).spec_view(), event),
    {
        match event {
            AccountEvent::Created { owner_id, name, starting_balance } => {
                self.owner_id = owner_id;
                self.name = name;
                self.balance = starting_balance;
            },
            AccountEvent::BalanceUpdated { amount } => {
                self.balance = self.balance + amount;
            },
            AccountEvent::AddTenant { shared_user_id, permissions } => {
                self.tenants.insert(shared_user_id, permissions);
            },
            AccountEvent::RemoveTenant { shared_user_id } => {
                let _ = self.tenants.remove(&shared_user_id);
            },
            AccountEvent::UpdateTenant { shared_user_id, permissions } => {
                if self.tenants.contains_key(&shared_user_id) {
                    self.tenants.insert(shared_user_id, permissions);
                }
            },
            AccountEvent::Deleted => {
                self.deleted = true;
            },
        }
    }

    /// The account with the identifier after all its events, in order. Every balance
    /// reached must fit in an `i64`.
    pub fn from_events(id: u128, events: Vec<AccountEvent>) -> (a: AccountState)
        requires
            balances_stay_in_range(empty_account(), events@),
        ensures
            a.wf(),
            a.id == id,
            a.spec_view() == account_replay(empty_account(), events@),
    {
        let mut a = AccountState::new(id);
        let ghost all = events@;
        let mut rest = events;
        while rest.len() > 0
            invariant
                balances_stay_in_range(empty_account(), all),
                rest@.len() <= all.len(),
                rest@ == all.skip(all.len() - rest@.len()),
                a.wf(),
                a.id == id,
                a.spec_view() == account_replay(empty_account(), all.take(all.len() - rest@.len())),
            decreases rest@.len(),
        {
            let ghost k = all.len() - rest@.len();
            assert(all.take(k + 1).drop_last() =~= all.take(k));
            assert(all[k] == rest@[0]);
            assert(i64::MIN <= account_replay(empty_account(), all.take(k + 1)).0 <= i64::MAX);
            let e = rest.remove(0);
            a.apply(e);
            assert(rest@ =~= all.skip(all.len() - rest@.len()));
        }
        assert(all.take(all.len() as int) =~= all);
        a
    }
}

/// What can happen to a user.
#[derive(Clone, Debug)]
pub enum UserEvent {
    Created { username: String, password: String },
    UsernameUpdate { username: String },
    PasswordUpdate { password: String },
    Login { session_id: String },
    Logout { session_id: String },
    AddAccount { id: u128 },
    Deleted,
}

/// A set of texts, each held once.
#[derive(Debug)]
pub struct TextSet {
    items: Vec<String>,
}

impl TextSet {
    pub closed spec fn spec_set(&self) -> Set<Seq<char>> {
        Set::new(|t: Seq<char>| exists|i: int| 0 <= i < self.items@.len() && self.items@[i]@ == t)
    }

    pub closed spec fn wf(&self) -> bool {
        forall|i: int, j: int|
            0 <= i < j < self.items@.len() ==> self.items@[i]@ != self.items@[j]@
    }

    /// The empty set.
    pub fn new() -> (s: TextSet)
        ensures
            s.wf(),
            s.spec_set() == Set::<Seq<char>>::empty(),
    {
        let s = TextSet { items: Vec::new() };
        assert(s.spec_set() =~= Set::<Seq<char>>::empty());
        s
    }

    fn find(&self, t: &String) -> (r: Option<usize>)
        ensures
            r matches Some(i) ==> i < self.items@.len() && self.items@[i as int]@ == t@,
            r is None ==> forall|i: int| 0 <= i < self.items@.len() ==> self.items@[i]@ != t@,
    {
        let mut i: usize = 0;
        while i < self.items.len()
            invariant
                i <= self.items@.len(),
                forall|j: int| 0 <= j < i ==> self.items@[j]@ != t@,
            decreases self.items@.len() - i,
        {
            if self.items[i] == *t {
                return Some(i);
            }
            i = i + 1;
        }
        None
    }

    /// Whether the text is in the set.
    pub fn contains(&self, t: &String) -> (r: bool)
        ensures
            r == self.spec_set().contains(t@),
    {
        match self.find(t) {
            Some(_) => true,
            None => false,
        }
    }

    /// Adds the text.
    pub fn insert(&mut self, t: String)
        requires
            old(self).wf(),
        ensures
            final(self).wf(),
            final(self).spec_set() == old(self).spec_set().insert(t@),
    {
        match self.find(&t) {
            Some(_) => {
                assert(self.spec_set() =~= old(self).spec_set().insert(t@));
            },
            None => {
                let ghost tv = t@;
                self.items.push(t);
                assert(self.items@[self.items@.len() - 1]@ == tv);
                assert forall|x: Seq<char>| #[trigger] self.spec_set().contains(x) <==> old(self).spec_set().insert(tv).contains(x) by {
                    if old(self).spec_set().contains(x) {
                        let i = choose|i: int| 0 <= i < old(self).items@.len() && old(self).items@[i]@ == x;
                        assert(self.items@[i]@ == x);
                    }
                    if self.spec_set().contains(x) && x != tv {
                        let i = choose|i: int| 0 <= i < self.items@.len() && self.items@[i]@ == x;
                        assert(old(self).items@[i]@ == x);
                    }
                }
                assert(self.spec_set() =~= old(self).spec_set().insert(tv));
            },
        }
    }

    /// Removes the text.
    pub fn remove(&mut self, t: &String)
        requires
            old(self).wf(),
        ensures
            final(self).wf(),
            final(self).spec_set() == old(self).spec_set().remove(t@),
    {
        match self.find(t) {
            Some(i) => {
                let ghost before = self.items@;
                let _ = self.items.remove(i);
                assert forall|x: Seq<char>| #[trigger] self.spec_set().contains(x) <==> old(self).spec_set().remove(t@).contains(x) by {
                    if old(self).spec_set().remove(t@).contains(x) {
                        let j = choose|j: int| 0 <= j < before.len() && before[j]@ == x;
                        assert(j != i);
                        if j < i {
                            assert(self.items@[j]@ == x);
                        } else {
                            assert(self.items@[j - 1]@ == x);
                        }
                    }
                    if self.spec_set().contains(x) {
                        let j = choose|j: int| 0 <= j < self.items@.len() && self.items@[j]@ == x;
                        if j < i {
                            assert(before[j]@ == x);
                        } else {
                            assert(before[j + 1]@ == x);
                            assert(before[j + 1]@ != before[i as int]@);
                        }
                    }
                }
                assert(self.spec_set() =~= old(self).spec_set().remove(t@));
            },
            None => {
                assert(self.spec_set() =~= old(self).spec_set().remove(t@));
            },
        }
    }
}

/// A user as folded from its events.
#[derive(Debug)]
pub struct UserState {
    pub id: u128,
    pub authenticated_sessions: TextSet,
    pub username: String,
    pub password: String,
    pub accounts: IdSet<u128>,
    pub deleted: bool,
}

/// A user seen from outside: sessions, username, password, accounts, and whether deleted.
pub type UserView = (Set<Seq<char>>, Seq<char>, Seq<char>, Set<u128>, bool);

/// How an event changes a user: creation sets username and password; they can be
/// changed; a login adds a session and a logout removes it; an account can be added;
/// deletion marks the user.
pub open spec fn user_step(v: UserView, e: UserEvent) -> UserView {
    match e {
        UserEvent::Created { username, password } => (v.0, username@, password@, v.3, v.4),
        UserEvent::AddAccount { id } => (v.0, v.1, v.2, v.3.insert(id), v.4),
        UserEvent::UsernameUpdate { username } => (v.0, username@, v.2, v.3, v.4),
        UserEvent::PasswordUpdate { password } => (v.0, v.1, password@, v.3, v.4),
        UserEvent::Login { session_id } => (v.0.insert(session_id@), v.1, v.2, v.3, v.4),
        UserEvent::Logout { session_id } => (v.0.remove(session_id@), v.1, v.2, v.3, v.4),
        UserEvent::Deleted => (v.0, v.1, v.2, v.3, true),
    }
}

/// Folds the events of a user.
pub open spec fn user_replay(v: UserView, es: Seq<UserEvent>) -> UserView
    decreases es.len(),
{
    if es.len() == 0 {
        v
    } else {
        user_step(user_replay(v, es.drop_last()), es.last())
    }
}

/// A user before any event.
pub open spec fn empty_user() -> UserView {
    (Set::empty(), Seq::empty(), Seq::empty(), Set::empty(), false)
}

impl UserState {
    pub closed spec fn wf(&self) -> bool {
        self.authenticated_sessions.wf() && self.accounts.wf()
    }

    pub closed spec fn spec_view(&self) -> UserView {
        (
            self.authenticated_sessions.spec_set(),
            self.username@,
            self.password@,
            self.accounts.spec_set(),
            self.deleted,
        )
    }

    /// A user with the identifier and no event applied.
    pub fn new(id: u128) -> (u: UserState)
        ensures
            u.wf(),
            u.id == id,
            u.spec_view() == empty_user(),
    {
        UserState {
            id,
            authenticated_sessions: TextSet::new(),
            username: String::new(),
            password: String::new(),
            accounts: IdSet::new(),
            deleted: false,
        }
    }

    /// Applies an event, as `user_step` says.
    pub fn apply(&mut self, event: UserEvent)
        requires
            old(self).wf(),
        ensures
            final(self).wf(),
            final(self).id == old(self).id,
            final(self).spec_view() == user_step(old(self).spec_view(), event),
    {
        match event {
            UserEvent::Created { username, password } => {
                self.username = username;
                self.password = password;
            },
            UserEvent::AddAccount { id } => {
                self.accounts.insert(id);
            },
            UserEvent::UsernameUpdate { username } => {
                self.username = username;
            },
            UserEvent::PasswordUpdate { password } => {
                self.password = password;
            },
            UserEvent::Login { session_id } => {
                self.authenticated_sessions.insert(session_id);
            },
            UserEvent::Logout { session_id } => {
                self.authenticated_sessions.remove(&session_id);
            },
            UserEvent::Deleted => {
                self.deleted = true;
            },
        }
    }

    /// The user with the identifier after all its events, in order.
    pub fn from_events(id: u128, events: Vec<UserEvent>) -> (u: UserState)
        ensures
            u.wf(),
            u.id == id,
            u.spec_view() == user_replay(empty_user(), events@),
    {
        let mut u = UserState::new(id);
        let ghost all = events@;
        let mut rest = events;
        while rest.len() > 0
            invariant
                rest@.len() <= all.len(),
                rest@ == all.skip(all.len() - rest@.len()),
                u.wf(),
                u.id == id,
                u.spec_view() == user_replay(empty_user(), all.take(all.len() - rest@.len())),
            decreases rest@.len(),
        {
            let ghost k = all.len() - rest@.len();
            assert(all.take(k + 1).drop_last() =~= all.take(k));
            assert(all[k] == rest@[0]);
            let e = rest.remove(0);
            u.apply(e);
            assert(rest@ =~= all.skip(all.len() - rest@.len()));
        }
        assert(all.take(all.len() as int) =~= all);
        u
    }
}

/// The kind of aggregate that an event belongs to.
#[derive(Clone, Copy, PartialEq, Eq, Structural, Debug)]
pub enum AggregateType {
    User,
    Account,
}

impl AggregateType {
    /// The stored number: 1 for users, 2 for accounts.
    pub fn code(&self) -> (c: i16)
        ensures
            *self == AggregateType::User ==> c == 1,
            *self == AggregateType::Account ==> c == 2,
    {
        match self {
            AggregateType::User => 1,
            AggregateType::Account => 2,
        }
    }
}

/// The kind of a stored event: user events are numbered from 1, account events from 100.
#[derive(Clone, Copy, PartialEq, Eq, Structural, Debug)]
pub enum EventType {
    UserCreated,
    UsernameUpdate,
    UserPasswordUpdate,
    UserLogin,
    UserLogout,
    UserAddAccount,
    UserDeleted,
    AccountCreated,
    AccountAddTenant,
    AccountUpdateTenant,
    AccountRemoveTenant,
    AccountBalanceUpdated,
    AccountDeleted,
}

impl EventType {
    /// The stored number of the kind.
    pub open spec fn spec_code(&self) -> i16 {
        match self {
            EventType::UserCreated => 1,
            EventType::UsernameUpdate => 2,
            EventType::UserPasswordUpdate => 3,
            EventType::UserLogin => 4,
            EventType::UserLogout => 5,
            EventType::UserAddAccount => 6,
            EventType::UserDeleted => 7,
            EventType::AccountCreated => 100,
            EventType::AccountAddTenant => 101,
            EventType::AccountUpdateTenant => 102,
            EventType::AccountRemoveTenant => 103,
            EventType::AccountBalanceUpdated => 104,
            EventType::AccountDeleted => 105,
        }
    }

    /// The stored number of the kind.
    pub fn code(&self) -> (c: i16)
        ensures
            c == self.spec_code(),
    {
        match self {
            EventType::UserCreated => 1,
            EventType::UsernameUpdate => 2,
            EventType::UserPasswordUpdate => 3,
            EventType::UserLogin => 4,
            EventType::UserLogout => 5,
            EventType::UserAddAccount => 6,
            EventType::UserDeleted => 7,
            EventType::AccountCreated => 100,
            EventType::AccountAddTenant => 101,
            EventType::AccountUpdateTenant => 102,
            EventType::AccountRemoveTenant => 103,
            EventType::AccountBalanceUpdated => 104,
            EventType::AccountDeleted => 105,
        }
    }

    /// The kind of a user event.
    pub fn from_user_event(user_event: &UserEvent) -> (t: EventType)
        ensures
            user_event is Created ==> t == EventType::UserCreated,
            user_event is UsernameUpdate ==> t == EventType::UsernameUpdate,
            user_event is PasswordUpdate ==> t == EventType::UserPasswordUpdate,
            user_event is Login ==> t == EventType::UserLogin,
            user_event is Logout ==> t == EventType::UserLogout,
            user_event is AddAccount ==> t == EventType::UserAddAccount,
            user_event is Deleted ==> t == EventType::UserDeleted,
    {
        match user_event {
            UserEvent::Created { .. } => EventType::UserCreated,
            UserEvent::UsernameUpdate { .. } => EventType::UsernameUpdate,
            UserEvent::PasswordUpdate { .. } => EventType::UserPasswordUpdate,
            UserEvent::Login { .. } => EventType::UserLogin,
            UserEvent::Logout { .. } => EventType::UserLogout,
            UserEvent::AddAccount { .. } => EventType::UserAddAccount,
            UserEvent::Deleted => EventType::UserDeleted,
        }
    }

    /// The kind of an account event.
    pub fn from_account_event(account_event: &AccountEvent) -> (t: EventType)
        ensures
            account_event is Created ==> t == EventType::AccountCreated,
            account_event is AddTenant ==> t == EventType::AccountAddTenant,
            account_event is UpdateTenant ==> t == EventType::AccountUpdateTenant,
            account_event is RemoveTenant ==> t == EventType::AccountRemoveTenant,
            account_event is BalanceUpdated ==> t == EventType::AccountBalanceUpdated,
            account_event is Deleted ==> t == EventType::AccountDeleted,
    {
        match account_event {
            AccountEvent::Created { .. } => EventType::AccountCreated,
            AccountEvent::AddTenant { .. } => EventType::AccountAddTenant,
            AccountEvent::UpdateTenant { .. } => EventType::AccountUpdateTenant,
            AccountEvent::RemoveTenant { .. } => EventType::AccountRemoveTenant,
            AccountEvent::BalanceUpdated { .. } => EventType::AccountBalanceUpdated,
            AccountEvent::Deleted => EventType::AccountDeleted,
        }
    }
}

} // verus!
