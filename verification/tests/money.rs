use monkesto::money::{format_amount, format_balance};

#[test]
fn amounts_show_dollars_and_cents() {
    assert_eq!(format_amount(1234), "$12.34");
    assert_eq!(format_amount(5), "$0.05");
    assert_eq!(format_amount(100), "$1.00");
    assert_eq!(format_amount(0), "$0.00");
    assert_eq!(format_amount(-5), "$0.-5");
    assert_eq!(format_amount(-1234), "$-12.-34");
    assert_eq!(format_amount(i64::MAX), "$92233720368547758.07");
    assert_eq!(format_amount(i64::MIN), "$-92233720368547758.-8");
}

#[test]
fn amounts_match_the_standard_formatting() {
    for a in [0i64, 1, 9, 10, 99, 100, 101, 12345, -1, -9, -10, -99, -100, -12345, i64::MAX, i64::MIN] {
        assert_eq!(format_amount(a), format!("${}.{:02}", a / 100, a % 100), "{}", a);
    }
}

#[test]
fn balances_show_their_side() {
    assert_eq!(format_balance(-2550), "$25.50 Dr");
    assert_eq!(format_balance(2550), "$25.50 Cr");
    assert_eq!(format_balance(0), "$0.00 Cr");
    assert_eq!(format_balance(i64::MAX), "$92233720368547758.07 Cr");
}
