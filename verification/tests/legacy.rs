use monkesto::event_sourcing::{
    AccountEvent, AccountState, AggregateType, EventType, TenantPermissions, TextSet, UserEvent,
    UserState,
};
use monkesto::ident::Ident;
use monkesto::journal::balance::{BalanceUpdate, TransactionEvent, TransactionEventType};
use monkesto::queue::{QueueError, Received, after_receive};
use monkesto::store::Timestamp;

#[test]
fn an_account_folds_its_events() {
    let events = vec![
        AccountEvent::Created { owner_id: 7, name: "Savings".to_string(), starting_balance: 100 },
        AccountEvent::BalanceUpdated { amount: -30 },
        AccountEvent::AddTenant { shared_user_id: 9, permissions: TenantPermissions::Read },
        AccountEvent::UpdateTenant { shared_user_id: 9, permissions: TenantPermissions::Share },
        AccountEvent::UpdateTenant { shared_user_id: 10, permissions: TenantPermissions::Share },
        AccountEvent::AddTenant { shared_user_id: 11, permissions: TenantPermissions::ReadWrite },
        AccountEvent::RemoveTenant { shared_user_id: 11 },
        AccountEvent::BalanceUpdated { amount: 5 },
    ];
    let a = AccountState::from_events(42, events);
    assert_eq!(a.id, 42);
    assert_eq!(a.owner_id, 7);
    assert_eq!(a.name, "Savings");
    assert_eq!(a.balance, 75);
    assert_eq!(a.tenants.len(), 1);
    assert_eq!(a.tenants.get(&9), Some(&TenantPermissions::Share));
    assert_eq!(a.tenants.get(&10), None);
    assert!(!a.deleted);
    let mut a = a;
    a.apply(AccountEvent::Deleted);
    assert!(a.deleted);
}

#[test]
fn a_user_folds_its_events() {
    let events = vec![
        UserEvent::Created { username: "ann".to_string(), password: "x".to_string() },
        UserEvent::Login { session_id: "s1".to_string() },
        UserEvent::Login { session_id: "s2".to_string() },
        UserEvent::Login { session_id: "s1".to_string() },
        UserEvent::Logout { session_id: "s2".to_string() },
        UserEvent::UsernameUpdate { username: "anne".to_string() },
        UserEvent::PasswordUpdate { password: "y".to_string() },
        UserEvent::AddAccount { id: 5 },
        UserEvent::AddAccount { id: 5 },
    ];
    let u = UserState::from_events(1, events);
    assert_eq!(u.username, "anne");
    assert_eq!(u.password, "y");
    assert!(u.authenticated_sessions.contains(&"s1".to_string()));
    assert!(!u.authenticated_sessions.contains(&"s2".to_string()));
    assert_eq!(u.accounts.len(), 1);
    assert!(!u.deleted);
}

#[test]
fn a_text_set_holds_each_text_once() {
    let mut s = TextSet::new();
    s.insert("a".to_string());
    s.insert("a".to_string());
    s.insert("b".to_string());
    assert!(s.contains(&"a".to_string()));
    s.remove(&"a".to_string());
    assert!(!s.contains(&"a".to_string()));
    assert!(s.contains(&"b".to_string()));
}

#[test]
fn stored_numbers_of_event_kinds() {
    assert_eq!(AggregateType::User.code(), 1);
    assert_eq!(AggregateType::Account.code(), 2);
    assert_eq!(EventType::from_user_event(&UserEvent::Deleted).code(), 7);
    assert_eq!(EventType::from_user_event(&UserEvent::Login { session_id: String::new() }).code(), 4);
    assert_eq!(EventType::from_account_event(&AccountEvent::Deleted).code(), 105);
    assert_eq!(EventType::from_account_event(&AccountEvent::BalanceUpdated { amount: 1 }).code(), 104);
}

#[test]
fn transaction_events_have_kinds() {
    let created = TransactionEvent::Created {
        id: Ident::new10(),
        author: Ident::new10(),
        description: "test".to_string(),
        updates: vec![BalanceUpdate { account_id: Ident::new10(), changed_by: -45 }],
        created_at: Timestamp(0),
    };
    assert_eq!(created.get_type(), TransactionEventType::Created);
    assert_eq!(created.get_type().code(), 1);
    let described = TransactionEvent::UpdatedDescription { new_desc: "x".to_string() };
    assert_eq!(described.get_type().code(), 2);
    let updated = TransactionEvent::UpdatedBalancedUpdates { new_balanceupdates: Vec::new() };
    assert_eq!(updated.get_type(), TransactionEventType::UpdatedBalanceUpdates);
    assert_eq!(updated.get_type().code(), 3);
}

#[test]
fn a_queue_reader_that_fell_behind_gets_no_event() {
    assert!(matches!(after_receive(false, Received::Event(1u64, 'x')), Some(Ok((1, Some('x'))))));
    assert!(matches!(after_receive(true, Received::Event(2u64, 'y')), Some(Ok((2, None)))));
    assert!(after_receive::<u64, char>(false, Received::Lagged).is_none());
    assert!(matches!(after_receive::<u64, char>(true, Received::Closed), Some(Err(QueueError::QueueClosed))));
}
