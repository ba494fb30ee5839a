use monkesto::idmap::IdMap;
use monkesto::jewel::{
    JewelAccount, JewelCurrency, OfferingSource, OfferingSourceDecodeError, expense_totals,
    giving_by_source, group_by_month, name_expenses, start_cutoff, start_period, top_expenses,
    total_cents,
};

fn account(id: i64, name: &str) -> JewelAccount {
    JewelAccount {
        account_id: id,
        account_type: 0,
        name: name.to_string(),
        parent_id: None,
        tax_deductible: false,
        local_income: false,
        local_expense: true,
        permanent: false,
        active: true,
    }
}

#[test]
fn dollars_are_the_us_dollar() {
    assert!(matches!(JewelCurrency::from_name("Dollars".to_string()), JewelCurrency::USD));
    assert!(matches!(JewelCurrency::from_name("Euros".to_string()), JewelCurrency::Unknown(s) if s == "Euros"));
}

#[test]
fn offering_sources_decode() {
    assert_eq!(OfferingSource::decode(0), Ok(OfferingSource::Unknown));
    assert_eq!(OfferingSource::decode(1), Ok(OfferingSource::InPerson));
    assert_eq!(OfferingSource::decode(2), Ok(OfferingSource::ReturnedCheck));
    assert_eq!(OfferingSource::decode(3), Ok(OfferingSource::Unknown));
    assert_eq!(OfferingSource::decode(4), Ok(OfferingSource::Unknown));
    assert_eq!(OfferingSource::decode(5), Ok(OfferingSource::Online));
    assert_eq!(OfferingSource::decode(6), Err(OfferingSourceDecodeError(6)));
    assert_eq!(OfferingSource::decode(-1), Err(OfferingSourceDecodeError(-1)));
}

#[test]
fn start_period_goes_back_whole_years_and_months() {
    assert_eq!(start_period(2024, 6, 3), (2024, 3));
    assert_eq!(start_period(2024, 6, 12), (2023, 6));
    assert_eq!(start_period(2024, 6, 14), (2023, 4));
    assert_eq!(start_period(2024, 2, 5), (2023, 9));
    assert_eq!(start_period(2024, 3, 3), (2023, 12));
    assert_eq!(start_period(2024, 3, 0), (2024, 3));
}

#[test]
fn start_period_of_january_rolls_back_into_december() {
    assert_eq!(start_period(2025, 1, 1), (2024, 12));
    assert_eq!(start_period(2025, 1, 13), (2023, 12));
    assert_eq!(start_period(0, 1, 1), (-1, 12));
}

#[test]
fn start_cutoff_is_the_first_of_the_start_month() {
    assert_eq!(start_cutoff(2024, 6, 3), Some("2024-03-01".to_string()));
    assert_eq!(start_cutoff(2024, 1, 14), Some("2022-11-01".to_string()));
    assert_eq!(start_cutoff(2025, 1, 1), Some("2024-12-01".to_string()));
}

#[test]
fn start_cutoff_outside_the_calendar_is_none() {
    assert_eq!(start_cutoff(262143, 1, 0), None);
    assert_eq!(start_cutoff(262142, 12, 0), Some("+262142-12-01".to_string()));
}

#[test]
fn items_are_grouped_by_month_from_the_current_one() {
    let items = vec![(2024, 6, 'a'), (2024, 6, 'b'), (2024, 5, 'c'), (2024, 3, 'd'), (2024, 3, 'e')];
    let groups = group_by_month(&items, 2024, 6, 4);
    assert_eq!(groups, vec![vec!['a', 'b'], vec!['c'], vec![], vec!['d', 'e']]);
    let from_january = vec![(2023, 12, 1), (2023, 11, 2), (2023, 11, 3)];
    assert_eq!(group_by_month(&from_january, 2024, 1, 3), vec![vec![], vec![1], vec![2, 3]]);
    assert_eq!(group_by_month::<u8>(&Vec::new(), 2024, 1, 2), vec![Vec::<u8>::new(), Vec::new()]);
    assert!(group_by_month::<u8>(&Vec::new(), 2024, 1, 0).is_empty());
}

#[test]
fn items_outside_the_months_are_left_out() {
    let items = vec![(2024, 7, 'x'), (2024, 6, 'a'), (2023, 6, 'y'), (2024, 5, 'b')];
    assert_eq!(group_by_month(&items, 2024, 6, 2), vec![vec!['a'], vec!['b']]);
    let unordered = vec![(2024, 4, 'c'), (2024, 6, 'a'), (2024, 4, 'd'), (2024, 6, 'b')];
    assert_eq!(group_by_month(&unordered, 2024, 6, 3), vec![vec!['a', 'b'], vec![], vec!['c', 'd']]);
}

#[test]
fn totals_add_up_cents() {
    assert_eq!(total_cents(&vec![100, 250, -50]), 300);
    assert_eq!(total_cents(&Vec::new()), 0);
    let offerings = vec![
        (1000, OfferingSource::InPerson),
        (500, OfferingSource::Online),
        (70, OfferingSource::ReturnedCheck),
        (30, OfferingSource::Unknown),
        (1, OfferingSource::InPerson),
    ];
    assert_eq!(giving_by_source(&offerings), (1001, 500, 30));
}

#[test]
fn expenses_are_totalled_per_account() {
    let totals = expense_totals(&vec![(1, 100), (2, 50), (1, 25), (3, 0)]);
    assert_eq!(totals.len(), 3);
    assert_eq!(totals.get(&1), Some(&125));
    assert_eq!(totals.get(&2), Some(&50));
    assert_eq!(totals.get(&3), Some(&0));
    assert_eq!(totals.get(&4), None);
}

#[test]
fn top_expenses_are_the_largest_in_order() {
    let totals = expense_totals(&vec![(1, 100), (2, 300), (3, 200), (4, 300), (5, 50)]);
    assert_eq!(top_expenses(&totals, 3), vec![(300, 2), (300, 4), (200, 3)]);
    assert_eq!(top_expenses(&totals, 10).len(), 5);
    assert!(top_expenses(&totals, 0).is_empty());
    assert!(top_expenses(&IdMap::<i64, i64>::new(), 3).is_empty());
}

#[test]
fn expenses_are_named_by_their_accounts() {
    let accounts = vec![account(1, "Rent"), account(2, "Old name"), account(2, "Power")];
    let named = name_expenses(&vec![(300, 2), (100, 1), (50, 9)], &accounts);
    assert_eq!(
        named,
        vec![(300, "Power".to_string()), (100, "Rent".to_string()), (50, "unknown account".to_string())]
    );
}
