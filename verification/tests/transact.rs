use monkesto::ids::AccountId;
use monkesto::journal::entry::{EntryKind, EntrySide};
use monkesto::journal::error::{JournalError, TransactionValidationError};
use monkesto::journal::forms::TransactForm;
use monkesto::journal::transact::{
    RowFailure, TransactFormError, amount_from_parts, read_transact_form, read_transact_form_checked,
};

fn form(accounts: &[&str], amounts: &[&str], types: &[i32]) -> TransactForm {
    TransactForm {
        account: accounts.iter().map(|s| s.to_string()).collect(),
        amount: amounts.iter().map(|s| s.to_string()).collect(),
        entry_type: types.to_vec(),
    }
}

fn validation(r: Result<Vec<monkesto::journal::transaction::TransactionEntry>, TransactFormError>) -> TransactionValidationError {
    match r {
        Err(TransactFormError::Journal(JournalError::TransactionValidation(e))) => e,
        other => panic!("expected a validation error, got {:?}", other),
    }
}

#[test]
fn rows_become_entries_in_cents() {
    let entries = read_transact_form(&form(&["abcdefghij", "klmnopqrst"], &["12.34", "12.34"], &[1, 2]))
        .expect("valid rows");
    assert_eq!(entries.len(), 2);
    assert_eq!(entries[0].amount, 1234);
    assert_eq!(entries[0].entry_side, EntrySide::Debit);
    assert_eq!(entries[1].entry_side, EntrySide::Credit);
    assert!(matches!(entries[0].entry_kind, EntryKind::Account { account_id } if account_id == AccountId::from_str("abcdefghij").expect("valid")));
}

#[test]
fn rows_without_an_account_are_left_out() {
    let entries = read_transact_form(&form(&["", "abcdefghij"], &["nonsense", "5"], &[9, 2])).expect("valid rows");
    assert_eq!(entries.len(), 1);
    assert_eq!(entries[0].amount, 500);
}

#[test]
fn an_empty_form_has_no_entries() {
    assert!(matches!(validation(read_transact_form(&form(&[], &[], &[]))), TransactionValidationError::NoTransactionEntries));
}

#[test]
fn amount_errors_name_the_text() {
    let one = |amount: &str| validation(read_transact_form(&form(&["abcdefghij"], &[amount], &[1])));
    assert!(matches!(one("abc"), TransactionValidationError::ParseDecimal(t) if t == "abc"));
    assert!(matches!(one("1.005"), TransactionValidationError::PartialCentValue(t) if t == "1.005"));
    assert!(matches!(one("100000000000000000"), TransactionValidationError::OutOfRange(t) if t == "100000000000000000"));
    assert!(matches!(one("-5"), TransactionValidationError::NegativeEntryAmount(t) if t == "-500"));
    assert!(matches!(one("0.00"), TransactionValidationError::NegativeEntryAmount(t) if t == "0"));
}

#[test]
fn missing_amounts_and_sides_are_errors() {
    assert!(matches!(
        validation(read_transact_form(&form(&["abcdefghij"], &[], &[1]))),
        TransactionValidationError::MissingEntryAmount
    ));
    assert!(matches!(
        validation(read_transact_form(&form(&["abcdefghij"], &["1"], &[]))),
        TransactionValidationError::MissingEntryType
    ));
    assert!(matches!(
        read_transact_form(&form(&["abcdefghij"], &["1"], &[3])),
        Err(TransactFormError::EntrySide(e)) if e.0 == 3
    ));
}

#[test]
fn sides_are_read_as_bytes() {
    let entries = read_transact_form(&form(&["abcdefghij"], &["1"], &[257])).expect("257 reads as 1");
    assert_eq!(entries[0].entry_side, EntrySide::Debit);
}

#[test]
fn the_first_failing_row_decides() {
    assert!(matches!(
        validation(read_transact_form(&form(&["abcdefghij", "klmnopqrst"], &["x", "y"], &[1, 1]))),
        TransactionValidationError::ParseDecimal(t) if t == "x"
    ));
}

#[test]
fn an_amount_too_large_to_scale_is_reported() {
    assert!(read_transact_form_checked(&form(&["abcdefghij"], &["79228162514264337593543950335"], &[1])).is_none());
    assert!(read_transact_form_checked(&form(&["abcdefghij"], &["2"], &[2])).is_some());
}

#[test]
fn decimal_parts_give_cents() {
    assert_eq!(amount_from_parts(Some((false, 1234, 2))), Ok(1234));
    assert_eq!(amount_from_parts(Some((false, 5, 0))), Ok(500));
    assert_eq!(amount_from_parts(Some((false, 125, 1))), Ok(1250));
    assert_eq!(amount_from_parts(None), Err((RowFailure::ParseDecimal, None)));
    assert_eq!(amount_from_parts(Some((false, 1234, 3))), Err((RowFailure::PartialCentValue, None)));
    assert_eq!(amount_from_parts(Some((true, 5, 0))), Err((RowFailure::NegativeEntryAmount, Some("-500".to_string()))));
    assert_eq!(amount_from_parts(Some((false, 0, 0))), Err((RowFailure::NegativeEntryAmount, Some("0".to_string()))));
}
