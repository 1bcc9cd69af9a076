use budget::amount::Amount;
use budget::amount_converter::AmountConverter;
use budget::calculator::Calculator;
use budget::chart::{bar_width, percent, percent_hundredths};
use budget::currency::Currency;
use budget::date::Date;
use budget::exchange_rate::{ExchangeRate, ExchangeRateProvider, ANY};
use budget::filter::{Filter, Request};
use budget::transaction::Transaction;
use budget::transaction_type::TransactionType;

fn day(year: i32, month: u32, day: u32) -> Date {
    Date::new(year, month, day).unwrap()
}

fn paid(date: Date, value: i64, currency: Currency, transaction_type: TransactionType) -> Transaction {
    Transaction::new(date, Amount::new(value, currency), None, transaction_type, None)
}

fn chf_rate(year: i32, month: i64, day: i64, rate: i64) -> ExchangeRate {
    ExchangeRate {
        year,
        month,
        day,
        base_currency: Currency::eur(),
        currency: Currency::chf(),
        rate,
    }
}

fn january() -> Vec<Transaction> {
    vec![
        paid(day(2024, 1, 5), -5000, Currency::eur(), TransactionType::Eat),
        paid(day(2024, 1, 10), 10000, Currency::chf(), TransactionType::Car),
    ]
}

#[test]
fn base_currency_amount_is_its_own_base_amount() {
    let provider = ExchangeRateProvider::new(vec![]);
    let t = paid(day(2024, 1, 5), -5000, Currency::eur(), TransactionType::Eat);
    let restated = AmountConverter::prepare_base_amount(&provider, t.clone());
    assert_eq!(restated.base_amount, Some(t.amount.clone()));
    let again = AmountConverter::prepare_base_amount(&provider, restated.clone());
    assert_eq!(again, restated);
}

#[test]
fn january_scenario_with_a_rate_of_the_day() {
    let provider = ExchangeRateProvider::new(vec![chf_rate(2024, 1, 10, 950_000)]);
    let restated = AmountConverter::prepare_all(&provider, january());
    let values: Vec<Option<i64>> =
        restated.iter().map(|t| t.base_amount.as_ref().map(|a| a.value)).collect();
    assert_eq!(values, vec![Some(-5000), Some(9500)]);
    assert_eq!(restated[1].base_amount.as_ref().unwrap().currency, Currency::eur());
    assert_eq!(Calculator::sum(&restated), 4500);
    let totals = Calculator::totals(&restated);
    assert_eq!(totals.income, 9500);
    assert_eq!(totals.expenses, -5000);
    assert_eq!(totals.total, 4500);
}

#[test]
fn missing_rate_leaves_the_base_amount_absent() {
    let provider = ExchangeRateProvider::new(vec![chf_rate(2023, ANY, ANY, 950_000)]);
    let restated = AmountConverter::prepare_all(&provider, january());
    assert_eq!(restated.len(), 2);
    assert!(restated[1].base_amount.is_none());
    assert_eq!(restated[1].amount, Amount::new(10000, Currency::chf()));
    assert_eq!(Calculator::sum(&restated), -5000);
    let totals = Calculator::totals(&restated);
    assert_eq!(totals.income, 0);
    assert_eq!(totals.expenses, -5000);
}

#[test]
fn sum_for_type_and_currency_is_in_the_currency_paid() {
    let provider = ExchangeRateProvider::new(vec![chf_rate(2024, 1, 10, 950_000)]);
    let restated = AmountConverter::prepare_all(&provider, january());
    assert_eq!(
        Calculator::sum_for_type_and_currency(&restated, TransactionType::Car, &Currency::chf()),
        10000
    );
    assert_eq!(Calculator::sum_for_type(&restated, TransactionType::Car), 9500);
    assert_eq!(
        Calculator::sum_for_type_and_currency(&restated, TransactionType::Car, &Currency::eur()),
        0
    );
    let by_type = Calculator::totals_for_type(&restated, TransactionType::Eat);
    assert_eq!((by_type.income, by_type.expenses, by_type.total), (0, -5000, -5000));
    let by_both =
        Calculator::totals_for_type_and_currency(&restated, TransactionType::Car, &Currency::chf());
    assert_eq!((by_both.income, by_both.expenses, by_both.total), (10000, 0, 10000));
}

#[test]
fn totals_for_type_and_currency_are_in_the_currency_paid() {
    let car = |value: i64, currency: Currency| {
        paid(day(2024, 1, 10), value, currency, TransactionType::Car)
    };
    let list = vec![
        car(10000, Currency::chf()),
        car(-3000, Currency::usd()),
        car(-2550, Currency::chf()),
        paid(day(2024, 1, 10), 700, Currency::chf(), TransactionType::Eat),
    ];
    let totals = Calculator::totals_for_type_and_currency(&list, TransactionType::Car, &Currency::chf());
    assert_eq!((totals.income, totals.expenses, totals.total), (10000, -2550, 7450));
    let totals = Calculator::totals_for_type_and_currency(&list, TransactionType::Car, &Currency::usd());
    assert_eq!((totals.income, totals.expenses, totals.total), (0, -3000, -3000));
    let totals = Calculator::totals_for_type_and_currency(&list[..2], TransactionType::Car, &Currency::chf());
    assert_eq!(totals.total, 10000);
    let totals = Calculator::totals_for_type_and_currency(&list, TransactionType::Car, &Currency::eur());
    assert_eq!((totals.income, totals.expenses, totals.total), (0, 0, 0));
}

#[test]
fn sum_of_nothing_is_zero() {
    assert_eq!(Calculator::sum(&[]), 0);
    let totals = Calculator::totals(&january());
    assert_eq!((totals.total, totals.income, totals.expenses), (0, 0, 0));
    assert_eq!(Calculator::sum(&january()), 0);
}

#[test]
fn rate_of_the_day_before_month_before_year() {
    let t = paid(day(2024, 1, 10), 10000, Currency::chf(), TransactionType::Car);
    let all = vec![
        chf_rate(2024, ANY, ANY, 900_000),
        chf_rate(2024, 1, ANY, 930_000),
        chf_rate(2024, 1, 10, 950_000),
    ];
    let provider = ExchangeRateProvider::new(all.clone());
    assert_eq!(provider.find_exchange_rate(&t), Some(all[2].clone()));
    let provider = ExchangeRateProvider::new(all[..2].to_vec());
    assert_eq!(provider.find_exchange_rate(&t), Some(all[1].clone()));
    let provider = ExchangeRateProvider::new(all[..1].to_vec());
    assert_eq!(provider.find_exchange_rate(&t), Some(all[0].clone()));
    let provider = ExchangeRateProvider::new(vec![chf_rate(2023, 1, 10, 950_000)]);
    assert_eq!(provider.find_exchange_rate(&t), None);
    let other = paid(day(2024, 1, 10), 10000, Currency::usd(), TransactionType::Car);
    let provider = ExchangeRateProvider::new(all);
    assert_eq!(provider.find_exchange_rate(&other), None);
}

#[test]
fn converted_values_round_half_away_from_zero() {
    assert_eq!(AmountConverter::convert_value(10000, 950_000), Some(9500));
    assert_eq!(AmountConverter::convert_value(1, 500_000), Some(1));
    assert_eq!(AmountConverter::convert_value(-1, 500_000), Some(-1));
    assert_eq!(AmountConverter::convert_value(1, 499_999), Some(0));
    assert_eq!(AmountConverter::convert_value(-3, 1_500_000), Some(-5));
    assert_eq!(AmountConverter::convert_value(i64::MAX, 1_000_000), Some(i64::MAX));
    assert_eq!(AmountConverter::convert_value(i64::MIN, 1_000_000), Some(i64::MIN));
    assert_eq!(AmountConverter::convert_value(i64::MAX, 2_000_000), None);
    assert_eq!(AmountConverter::convert_value(i64::MIN, -1_000_000), None);
}

#[test]
fn empty_request_returns_the_input() {
    let request = Request::new(None, None, None, None);
    assert!(request.empty());
    assert_eq!(Filter::apply(january(), &request), january());
}

#[test]
fn date_range_excludes_from_and_includes_to() {
    let request = Request::new(Some(day(2024, 1, 5)), Some(day(2024, 1, 10)), None, None);
    assert!(!request.empty());
    let kept = Filter::apply(january(), &request);
    assert_eq!(kept, vec![january()[1].clone()]);
    let request = Request::new(Some(day(2024, 1, 4)), Some(day(2024, 1, 9)), None, None);
    assert_eq!(Filter::apply(january(), &request), vec![january()[0].clone()]);
}

#[test]
fn filter_by_category_and_note() {
    let mut list = january();
    list[0].note = Some("Lunch with Anna".to_string());
    list[1].note = Some("Sold the old car".to_string());
    let by_type = Request::new(None, None, Some(TransactionType::Car), None);
    assert_eq!(Filter::apply(list.clone(), &by_type), vec![list[1].clone()]);
    let by_note = Request::new(None, None, None, Some("Anna".to_string()));
    assert_eq!(Filter::apply(list.clone(), &by_note), vec![list[0].clone()]);
    let by_case = Request::new(None, None, None, Some("anna".to_string()));
    assert_eq!(Filter::apply(list.clone(), &by_case), vec![]);
    let mut without = Request::new(None, None, None, None);
    without.exclude = Some("car".to_string());
    assert_eq!(Filter::apply(list.clone(), &without), vec![list[0].clone()]);
}

#[test]
fn a_transaction_without_a_note_holds_no_text() {
    let mut list = january();
    list[0].note = Some("Lunch".to_string());
    let any_note = Request::new(None, None, None, Some(String::new()));
    assert_eq!(Filter::apply(list.clone(), &any_note), vec![list[0].clone()]);
    let lunch = Request::new(None, None, None, Some("Lunch".to_string()));
    assert_eq!(Filter::apply(list.clone(), &lunch), vec![list[0].clone()]);
    let mut no_note_at_all = Request::new(None, None, None, None);
    no_note_at_all.exclude = Some(String::new());
    assert_eq!(Filter::apply(list.clone(), &no_note_at_all), vec![list[1].clone()]);
    let mut no_lunch = Request::new(None, None, None, None);
    no_lunch.exclude = Some("Lunch".to_string());
    assert_eq!(Filter::apply(list.clone(), &no_lunch), vec![list[1].clone()]);
    let mut both = Request::new(None, None, None, Some("L".to_string()));
    both.exclude = Some("x".to_string());
    assert_eq!(Filter::apply(list.clone(), &both), vec![list[0].clone()]);
    assert!(!lunch.keeps(&list[1]) && lunch.keeps(&list[0]));
}

#[test]
fn a_store_bounds_a_request_that_is_not_empty() {
    let today = day(2024, 1, 9);
    let empty = Request::new(None, None, None, None);
    assert!(empty.bounded(today).empty());
    assert_eq!(Filter::apply(january(), &empty.bounded(today)), january());
    let by_type = Request::new(None, None, Some(TransactionType::Car), None);
    let bounded = by_type.bounded(today);
    assert_eq!(bounded.from, Some(day(1900, 1, 1)));
    assert_eq!(bounded.to, Some(today));
    assert_eq!(bounded.transaction_type, Some(TransactionType::Car));
    assert_eq!(Filter::apply(january(), &bounded), vec![]);
    assert_eq!(Filter::apply(january(), &by_type), vec![january()[1].clone()]);
    let mut set = Request::new(Some(day(2024, 1, 5)), Some(day(2024, 1, 10)), None, Some("a".to_string()));
    set.exclude = Some("b".to_string());
    let kept = set.bounded(today);
    assert_eq!((kept.from, kept.to), (set.from, set.to));
    assert_eq!((kept.search, kept.exclude), (set.search, set.exclude));
    let old = vec![paid(day(1900, 1, 1), 1, Currency::eur(), TransactionType::Car), paid(day(1900, 1, 2), 1, Currency::eur(), TransactionType::Car)];
    assert_eq!(Filter::apply(old.clone(), &by_type.bounded(today)), vec![old[1].clone()]);
}

#[test]
fn amounts_and_transactions_in_their_order() {
    assert!(Amount::new(1, Currency::eur()) < Amount::new(2, Currency::chf()));
    assert!(Amount::new(3, Currency::eur()) > Amount::new(2, Currency::eur()));
    assert_eq!(
        Amount::new(2, Currency::eur()).partial_cmp(&Amount::new(2, Currency::chf())),
        Some(std::cmp::Ordering::Equal)
    );
    let none = paid(day(2024, 1, 1), 5, Currency::chf(), TransactionType::Eat);
    let small = none.with_base_amount(Amount::new(1, Currency::eur()));
    let large = none.with_base_amount(Amount::new(9, Currency::eur()));
    assert!(small > none && none < small && large > small);
    assert_eq!(none.partial_cmp(&none.clone()), Some(std::cmp::Ordering::Equal));
    assert_eq!(small.partial_cmp(&large), Some(std::cmp::Ordering::Less));
}

#[test]
fn major_types_take_the_first_category_among_equals() {
    let mut list = vec![
        paid(day(2024, 1, 5), 100, Currency::eur(), TransactionType::Eat),
        paid(day(2024, 1, 6), 100, Currency::eur(), TransactionType::Car),
        paid(day(2024, 1, 7), -300, Currency::eur(), TransactionType::Home),
        paid(day(2024, 1, 8), -300, Currency::eur(), TransactionType::Gas),
    ];
    for t in list.iter_mut() {
        t.base_amount = Some(t.amount.clone());
    }
    let major = Calculator::major_types(&list);
    assert_eq!(major.max_income.transaction_type, TransactionType::Car);
    assert_eq!(major.max_income.value, 100);
    assert_eq!(major.max_expenses.transaction_type, TransactionType::Gas);
    assert_eq!(major.max_expenses.value, -300);
    assert_eq!(major.min_income.transaction_type, TransactionType::Body);
    assert_eq!(major.min_income.value, 0);
    assert_eq!(major.min_expenses.transaction_type, TransactionType::Body);
    assert_eq!(major.min_expenses.value, 0);
}

#[test]
fn sort_is_descending_and_stable_with_absent_last() {
    let mut list = vec![
        paid(day(2024, 1, 1), 1, Currency::chf(), TransactionType::Eat),
        paid(day(2024, 1, 2), 200, Currency::eur(), TransactionType::Car),
        paid(day(2024, 1, 3), 2, Currency::chf(), TransactionType::Home),
        paid(day(2024, 1, 4), 500, Currency::eur(), TransactionType::Gas),
        paid(day(2024, 1, 5), 200, Currency::eur(), TransactionType::Fun),
    ];
    for t in list.iter_mut() {
        if t.amount.currency == Currency::eur() {
            t.base_amount = Some(t.amount.clone());
        }
    }
    let sorted = Calculator::sort(&list);
    let dates: Vec<u32> = sorted.iter().map(|t| t.date.day).collect();
    assert_eq!(dates, vec![4, 2, 5, 1, 3]);
}

#[test]
fn shares_in_percent() {
    assert_eq!(percent(9500, 4500), Some(211));
    assert_eq!(percent(-5000, 4500), Some(-111));
    assert_eq!(percent(1, 0), Some(0));
    assert_eq!(percent(1, 3), Some(33));
    assert_eq!(percent(1, 8), Some(13));
    assert_eq!(percent(-1, 8), Some(-13));
    assert_eq!(percent_hundredths(1, 3), Some(3333));
    assert_eq!(percent_hundredths(2, 3), Some(6667));
    assert_eq!(percent(i128::MAX, 1), None);
    assert_eq!(percent(i128::MAX, 0), Some(0));
    assert_eq!(bar_width(100), 50);
    assert_eq!(bar_width(33), 16);
    assert_eq!(bar_width(-111), 0);
    assert_eq!(bar_width(0), 0);
    let mut list = january();
    for t in list.iter_mut() {
        t.base_amount = Some(Amount::new(t.amount.value, Currency::eur()));
    }
    let shares = Calculator::shares(&list);
    assert_eq!(shares.len(), 15);
    assert_eq!(shares[TransactionType::Car.index()], Some(200));
    assert_eq!(shares[TransactionType::Eat.index()], Some(-100));
    assert_eq!(shares[TransactionType::Body.index()], Some(0));
    assert_eq!(Calculator::shares(&january()), vec![Some(0); 15]);
}
