use budget::amount::Amount;
use budget::currency::Currency;
use budget::date::Date;
use budget::duplicate_check::{is_possible_duplicate, DuplicateChecker};
use budget::transaction::Transaction;
use budget::transaction_type::TransactionType;
use chrono::{Datelike, Utc};

fn x_eur(value: i64) -> Amount {
    Amount::new(value, Currency::eur())
}

fn today() -> Date {
    let now = Utc::now().date_naive();
    Date::new(now.year(), now.month(), now.day()).unwrap()
}

fn record(amount: Amount, date: Date) -> Transaction {
    Transaction::new(date, amount, None, TransactionType::Unknown, None)
}

#[test]
fn is_possible_duplicate_test_amount() {
    assert!(is_possible_duplicate(&record(x_eur(10219), today()), &record(x_eur(10219), today())));
    assert!(!is_possible_duplicate(
        &record(x_eur(-10219), today()),
        &record(x_eur(10219), today())
    ));
    assert!(!is_possible_duplicate(&record(x_eur(110), today()), &record(x_eur(220), today())));
}

#[test]
fn is_possible_duplicate_test_date() {
    assert!(is_possible_duplicate(&record(x_eur(1020), today()), &record(x_eur(1020), today())));

    // Within +3 days
    assert!(is_possible_duplicate(
        &record(x_eur(1020), Date::new(2024, 1, 24).unwrap()),
        &record(x_eur(1020), Date::new(2024, 1, 27).unwrap()),
    ));
    // Within -3 days
    assert!(is_possible_duplicate(
        &record(x_eur(1020), Date::new(2024, 1, 24).unwrap()),
        &record(x_eur(1020), Date::new(2024, 1, 21).unwrap()),
    ));
}

#[test]
fn four_days_apart_is_no_duplicate() {
    assert!(!is_possible_duplicate(
        &record(x_eur(1020), Date::new(2024, 1, 24).unwrap()),
        &record(x_eur(1020), Date::new(2024, 1, 28).unwrap()),
    ));
    assert!(!is_possible_duplicate(
        &record(x_eur(1020), Date::new(2024, 3, 2).unwrap()),
        &record(x_eur(1020), Date::new(2024, 2, 27).unwrap()),
    ));
    assert!(is_possible_duplicate(
        &record(x_eur(1020), Date::new(2024, 3, 1).unwrap()),
        &record(x_eur(1020), Date::new(2024, 2, 27).unwrap()),
    ));
    assert!(!is_possible_duplicate(
        &record(Amount::new(1020, Currency::chf()), today()),
        &record(x_eur(1020), today()),
    ));
}

#[test]
fn possible_duplicates_keep_their_order() {
    let stored = vec![
        record(x_eur(1020), Date::new(2024, 1, 20).unwrap()),
        record(x_eur(1020), Date::new(2024, 1, 22).unwrap()),
        record(x_eur(999), Date::new(2024, 1, 24).unwrap()),
        record(x_eur(1020), Date::new(2024, 1, 27).unwrap()),
    ];
    let new = record(x_eur(1020), Date::new(2024, 1, 24).unwrap());
    let found = DuplicateChecker::get_possible_duplicates(&new, &stored);
    assert_eq!(found, vec![&stored[1], &stored[3]]);
}
