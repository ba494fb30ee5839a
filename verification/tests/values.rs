use monkesto::ident::{Ident, IdentError};
use monkesto::ids::{AccountId, JournalId};
use monkesto::journal::forms::{InviteUserForm, UpdatePermissionsForm, permissions_from_flags};
use monkesto::name::{Memo, MemoError, Name, NameError};
use monkesto::permissions::Permissions;

#[test]
fn reserved_names_and_cuids_are_identifiers() {
    assert!(Ident::from_str("dylan").is_ok());
    assert!(Ident::from_str("uinit").is_ok());
    assert!(matches!(Ident::from_str("abcdefghij"), Ok(Ident::Cuid10(_))));
    assert!(matches!(Ident::from_str("abcdefghijklmnop"), Ok(Ident::Cuid16(_))));
    assert!(matches!(Ident::from_str("dylan"), Ok(Ident::Custom(_))));
}

#[test]
fn other_texts_are_not_identifiers() {
    for s in ["", "bob", "Dylan", "abcdefghi", "abcdefghijk", "1bcdefghij", "abcde-ghij"] {
        assert!(matches!(Ident::from_str(s), Err(IdentError::InvalidId(t)) if t == s), "{}", s);
    }
}

#[test]
fn identifiers_give_back_their_text() {
    let id = Ident::from_str("abcdefghij").expect("valid");
    assert_eq!(id.as_str(), "abcdefghij");
    assert_eq!(id.as_bytes(), b"abcdefghij".to_vec());
    let parsed = Ident::try_from_bytes(b"grace").expect("valid");
    assert_eq!(parsed.as_str(), "grace");
}

#[test]
fn bytes_that_are_not_utf8_are_a_parse_error() {
    assert!(matches!(Ident::try_from_bytes(&[0xff, 0xfe]), Err(IdentError::Parse(_))));
}

#[test]
fn new_identifiers_have_their_length() {
    let a = Ident::new10();
    let b = Ident::new16();
    assert_eq!(a.as_str().len(), 10);
    assert_eq!(b.as_str().len(), 16);
    assert!(Ident::from_str(&a.as_str()).is_ok());
    assert!(Ident::from_str(&b.as_str()).is_ok());
    assert_ne!(JournalId::new(), JournalId::new());
    assert!(cuid::is_cuid2(a.as_str()));
    assert!(cuid::is_cuid2(b.as_str()));
    assert!(cuid::is_cuid2(AccountId::new().0.as_str()));
}

#[test]
fn parsed_identifiers_keep_their_kind() {
    let ten = Ident::new10().as_str();
    assert!(matches!(JournalId::from_str(&ten), Ok(JournalId(Ident::Cuid10(_)))));
    let sixteen = Ident::new16().as_str();
    assert!(matches!(AccountId::from_str(&sixteen), Ok(AccountId(Ident::Cuid16(_)))));
    assert!(matches!(JournalId::from_str("uinit"), Ok(JournalId(Ident::Custom(_)))));
    assert!(matches!(JournalId::from_str("abc"), Err(IdentError::InvalidId(t)) if t == "abc"));
}

#[test]
fn nil_identifier_is_uinit() {
    assert_eq!(Ident::nil().as_str(), "uinit");
    assert_eq!(AccountId::nil().ident().as_str(), "uinit");
}

#[test]
fn names_are_not_blank_and_at_most_64_bytes() {
    assert!(matches!(Name::try_new("   ".to_string()), Err(NameError::TooShort(s)) if s == "   "));
    assert!(matches!(Name::try_new(String::new()), Err(NameError::TooShort(_))));
    let long = "x".repeat(65);
    assert!(matches!(Name::try_new(long.clone()), Err(NameError::TooLong(s)) if s == long));
    assert_eq!(Name::try_new("x".repeat(64)).expect("64 bytes").as_str().len(), 64);
    assert_eq!(Name::try_new("é".repeat(32)).expect("64 bytes").as_str(), "é".repeat(32));
    assert!(Name::try_new("é".repeat(33)).is_err());
    assert_eq!(Name::try_new("a".repeat(64)).expect("64 bytes").as_str(), "a".repeat(64));
    assert!(matches!(Name::try_new("a".repeat(65)), Err(NameError::TooLong(s)) if s == "a".repeat(65)));
    assert!(matches!(Name::try_new(" ".repeat(70)), Err(NameError::TooShort(s)) if s == " ".repeat(70)));
    assert!(matches!(Name::try_new("\u{3000}\t\n".to_string()), Err(NameError::TooShort(_))));
}

#[test]
fn memos_are_at_most_100_characters() {
    assert_eq!(Memo::try_new("x".repeat(100)).expect("100 characters").as_str().len(), 100);
    assert!(matches!(Memo::try_new("x".repeat(101)), Err(MemoError(s)) if s.len() == 101));
    assert_eq!(Memo::try_new(String::new()).expect("empty").as_str(), "");
    assert_eq!(Memo::try_new("é".repeat(60)).expect("60 characters").as_str(), "é".repeat(60));
    assert_eq!(Memo::try_new("é".repeat(100)).expect("100 characters").as_str(), "é".repeat(100));
    assert!(matches!(Memo::try_new("é".repeat(101)), Err(MemoError(s)) if s == "é".repeat(101)));
}

#[test]
fn permissions_union_and_containment() {
    let mut p = Permissions::read();
    p.insert(Permissions::invite());
    assert_eq!(p.bits(), 65);
    assert!(p.contains(Permissions::read()));
    assert!(p.contains(Permissions::empty()));
    assert!(!p.contains(Permissions::owner()));
    assert!(Permissions::all().contains(p));
    assert_eq!(Permissions::read().union(Permissions::add_account()).bits(), 3);
    assert!(Permissions::from_bits(0xff).is_some());
    assert!(Permissions::from_bits(0x100).is_none());
    assert!(Permissions::from_bits(-1).is_none());
    assert!(Permissions::empty().is_empty());
}

#[test]
fn ticked_boxes_grant_their_permissions() {
    assert_eq!(permissions_from_flags(false, false, false, false).bits(), 0);
    assert_eq!(permissions_from_flags(true, false, false, false).bits(), 1);
    assert_eq!(permissions_from_flags(true, true, true, true).bits(), 99);
    let form = InviteUserForm {
        email: "a@b.c".to_string(),
        read: Some("on".to_string()),
        add_account: None,
        append_transaction: Some("on".to_string()),
        invite: None,
    };
    assert_eq!(form.permissions().bits(), 33);
    let update = UpdatePermissionsForm { read: None, add_account: Some(String::new()), append_transaction: None, invite: Some(String::new()) };
    assert_eq!(update.permissions().bits(), 66);
}

#[test]
fn parsing_an_identifier_text_gives_back_the_identifier() {
    for s in ["abcdefghij", "abcdefghijklmnop", "sarah"] {
        let id = Ident::from_str(s).expect("valid");
        assert_eq!(Ident::from_str(&id.as_str()), Ok(id));
    }
}
