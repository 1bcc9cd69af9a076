use budget::amount::Amount;
use budget::currency::{all, Currency};
use budget::date::Date;
use budget::error::Error;
use budget::invoice_type::InvoiceType;
use budget::month::Month;
use budget::transaction::{contains_transaction_in_currency, Transaction};
use budget::transaction_type::{TransactionType, NUMBER_OF_TYPES};
use budget::verbosity::Verbosity;

#[test]
fn categories_from_free_text() {
    assert_eq!(TransactionType::from_str("car"), TransactionType::Car);
    assert_eq!(TransactionType::from_str("Auto"), TransactionType::Car);
    assert_eq!(TransactionType::from_str("a"), TransactionType::Car);
    assert_eq!(TransactionType::from_str("k"), TransactionType::Clothes);
    assert_eq!(TransactionType::from_str("tv"), TransactionType::Telecommunication);
    assert_eq!(TransactionType::from_str("Steuern"), TransactionType::Tax);
    assert_eq!(TransactionType::from_str("house"), TransactionType::Home);
    assert_eq!(TransactionType::from_str("banking"), TransactionType::Banking);
    assert_eq!(TransactionType::from_str("n"), TransactionType::Education);
    assert_eq!(TransactionType::from_str("u"), TransactionType::Unknown);
    assert_eq!(TransactionType::from_str(""), TransactionType::Unknown);
    assert_eq!(TransactionType::from_str(" car"), TransactionType::Unknown);
    assert_eq!(TransactionType::from_uppercase("car"), TransactionType::Unknown);
    assert_eq!(TransactionType::from_uppercase("CAR"), TransactionType::Car);
}

#[test]
fn values_from_text_by_the_standard_trait() {
    assert_eq!("tanken".parse::<TransactionType>(), Ok(TransactionType::Gas));
    assert_eq!("nothing".parse::<TransactionType>(), Ok(TransactionType::Unknown));
    assert_eq!("haus".parse::<InvoiceType>(), Ok(InvoiceType::Home));
    assert_eq!("$".parse::<Currency>(), Ok(Currency::usd()));
    assert_eq!(
        "Dollar".parse::<Currency>(),
        Err(Error::Parse("Currency 'Dollar' not found".to_string()))
    );
}

#[test]
fn categories_in_their_orders() {
    let all = TransactionType::all();
    let known = TransactionType::all_known();
    assert_eq!(all.len(), NUMBER_OF_TYPES);
    assert_eq!(known.len(), NUMBER_OF_TYPES - 1);
    assert_eq!(all[0], TransactionType::Body);
    assert_eq!(all[9], TransactionType::Telecommunication);
    assert_eq!(all[10], TransactionType::Insurance);
    assert_eq!(all[14], TransactionType::Unknown);
    assert_eq!(known[9], TransactionType::Insurance);
    assert_eq!(known[10], TransactionType::Telecommunication);
    assert!(!known.contains(&TransactionType::Unknown));
    for (place, transaction_type) in all.iter().enumerate() {
        assert_eq!(transaction_type.index(), place);
        assert_eq!(
            TransactionType::from_identifier(transaction_type.identifier()),
            Some(*transaction_type)
        );
    }
    assert_eq!(TransactionType::from_identifier('Z'), None);
    assert_eq!(TransactionType::Car.identifier(), 'A');
    assert_eq!(TransactionType::Education.identifier(), 'N');
    assert_eq!(TransactionType::Unknown.identifier(), 'U');
    assert_eq!(TransactionType::Eat.to_str(), "Food / Essen");
    assert_eq!(TransactionType::Unknown.to_str(), "Diverse");
}

#[test]
fn invoice_categories() {
    assert_eq!(InvoiceType::from_str("body"), InvoiceType::Clothes);
    assert_eq!(InvoiceType::from_str("haus"), InvoiceType::Home);
    assert_eq!(InvoiceType::from_str("house"), InvoiceType::Unknown);
    assert_eq!(InvoiceType::from_str("t"), InvoiceType::Gas);
    assert_eq!(InvoiceType::from_uppercase("TV"), InvoiceType::Telecommunication);
    assert_eq!(InvoiceType::all().len(), 9);
    assert_eq!(InvoiceType::all_known().len(), 8);
    assert_eq!(InvoiceType::all()[8], InvoiceType::Unknown);
    assert_eq!(InvoiceType::all_known()[7], InvoiceType::Telecommunication);
    assert_eq!(InvoiceType::Gas.identifier(), 'T');
    assert_eq!(InvoiceType::Home.to_str(), "Home / Hause");
}

#[test]
fn currencies_by_code_and_symbol() {
    assert_eq!(Currency::base(), Currency::eur());
    assert_eq!(Currency::new("EUR", "Euro"), Currency::eur());
    assert!(Currency::eur() != Currency::chf());
    assert_eq!(Currency::usd().symbol, "$");
    assert_eq!(Currency::chf().iso, "CHF");
    assert_eq!(Currency::from_str("EUR"), Ok(Currency::eur()));
    assert_eq!(Currency::from_str("€").unwrap().iso, "EUR");
    assert_eq!(Currency::from_str("$").unwrap().iso, "USD");
    assert_eq!(Currency::from_str("CHF").unwrap().symbol, "CHF");
    assert_eq!(
        Currency::from_str("eur"),
        Err(Error::Parse("Currency 'eur' not found".to_string()))
    );
    let codes: Vec<String> = all().into_iter().map(|c| c.iso).collect();
    assert_eq!(codes, vec!["EUR", "CHF", "USD"]);
    assert!(Currency::eur().same_as(&Currency::base()));
    let list = vec![Currency::new("AAA", "CHF"), Currency::chf()];
    assert_eq!(Currency::find_in(&list, "CHF").unwrap().iso, "CHF");
    assert_eq!(Currency::find_in(&list, "AAA").unwrap().symbol, "CHF");
    assert_eq!(Currency::find_in(&list, "x"), None);
}

#[test]
fn dates_of_the_calendar() {
    assert!(Date::new(2024, 2, 29).is_some());
    assert!(Date::new(2023, 2, 29).is_none());
    assert!(Date::new(1900, 2, 29).is_none());
    assert!(Date::new(2000, 2, 29).is_some());
    assert!(Date::new(-4, 2, 29).is_some());
    assert!(Date::new(2024, 4, 31).is_none());
    assert!(Date::new(2024, 13, 1).is_none());
    assert!(Date::new(2024, 0, 1).is_none());
    assert!(Date::new(2024, 1, 0).is_none());
    assert!(Date::new(262142, 12, 31).is_some());
    assert!(Date::new(262143, 1, 1).is_none());
    assert!(Date::new(-262143, 1, 1).is_some());
    assert!(Date::new(-262144, 12, 31).is_none());
    assert_eq!(Date::month_length(2024, 2), 29);
    assert_eq!(Date::month_length(2023, 2), 28);
    assert_eq!(Date::month_length(2023, 9), 30);
    assert_eq!(Date::month_length(2023, 12), 31);
    assert_eq!(Date::month_length(2023, 14), 0);
    let a = Date::new(2024, 1, 31).unwrap();
    let b = Date::new(2024, 2, 1).unwrap();
    assert!(a.is_before(&b) && b.is_after(&a));
    assert!(!a.is_before(&a) && !a.is_after(&a));
    assert!(Date::new(2023, 12, 31).unwrap().is_before(&a));
    assert_eq!(Date::new(2024, 2, 3).unwrap().last_day_of_month(), Date::new(2024, 2, 29).unwrap());
    for year in [2023, 2024, 1900, 2000, -1, -400] {
        for month in 1..=12 {
            let last = Date::month_length(year, month);
            assert_eq!(
                chrono::NaiveDate::from_ymd_opt(year, month, last).is_some(),
                Date::new(year, month, last).is_some()
            );
            assert!(chrono::NaiveDate::from_ymd_opt(year, month, last + 1).is_none());
        }
    }
}

#[test]
fn months_and_verbosity() {
    assert_eq!(Month::from_int(1), Month::January);
    assert_eq!(Month::from_int(12), Month::December);
    assert_eq!(Month::try_from_int(3), Some(Month::March));
    assert_eq!(Month::try_from_int(0), None);
    assert_eq!(Month::try_from_int(13), None);
    assert_eq!(Month::January.name_translate(), "Jänner");
    assert_eq!(Month::March.name_translate(), "März");
    assert_eq!(Month::December.name_translate(), "Dezember");
    assert_eq!(Month::October.to_int(), 10);
    assert_eq!(Verbosity::from_int(0), Verbosity::Normal);
    assert_eq!(Verbosity::from_int(3), Verbosity::Trace);
    assert_eq!(Verbosity::try_from_int(2), Some(Verbosity::Debug));
    assert_eq!(Verbosity::try_from_int(4), None);
    assert!(Verbosity::Debug.at_least(Verbosity::Info));
    assert!(Verbosity::Info.at_least(Verbosity::Info));
    assert!(!Verbosity::Normal.at_least(Verbosity::Info));
    assert_eq!(Verbosity::Trace.to_int(), 3);
}

#[test]
fn errors_as_text() {
    assert_eq!(Error::file_io("gone"), Error::FileIO("gone".to_string()));
    assert_eq!(Error::FileIO("gone".to_string()).message(), "File IO error: gone");
    assert_eq!(Error::Parse("x".to_string()).message(), "Parse Error: x");
    assert_eq!(Error::Rate("x".to_string()).message(), "Rate Error: x");
    assert_eq!(Error::General("x".to_string()).message(), "General Error: x");
    assert_eq!(Error::Persistence("x".to_string()).message(), "Persistence Error: x");
    assert_eq!(Error::Argument("x".to_string()).message(), "Argument Error: x");
    assert_eq!(Error::Import("x".to_string()).message(), "Import Error: x");
    assert_eq!(Error::LineEmpty.message(), "Line empty");
    assert_eq!(Error::LineSeparator.message(), "Line separator");
    assert_eq!(Error::LineComment.description(), "Line comment");
}

#[test]
fn amounts_and_transactions() {
    let amount = Amount::new(-6660, Currency::eur());
    assert_eq!(amount.value(), -6660);
    assert_eq!(amount.currency(), Currency::eur());
    assert_eq!(amount.currency_ref(), &Currency::eur());
    assert_eq!(amount.to_text(), "€ -66.60");
    assert_eq!(Amount::new(5, Currency::usd()).to_text(), "$ 0.05");
    assert_eq!(Amount::new(-5, Currency::usd()).to_text(), "$ -0.05");
    assert_eq!(Amount::new(0, Currency::chf()).to_text(), "CHF 0.00");
    assert_eq!(Amount::new(123456, Currency::chf()).to_text(), "CHF 1234.56");
    assert_eq!(Amount::new(i64::MIN, Currency::chf()).to_text(), "CHF -92233720368547758.08");
    assert!(amount.same_as(&Amount::new(-6660, Currency::new("EUR", "E"))));
    assert!(!amount.same_as(&Amount::new(-6660, Currency::chf())));
    let date = Date::new(2019, 2, 15).unwrap();
    let t = Transaction::new(date, amount.clone(), None, TransactionType::Gas, None);
    assert_eq!(t.date(), date);
    assert_eq!(t.amount(), amount);
    assert_eq!(t.amount_ref(), &amount);
    assert_eq!(t.base_amount(), None);
    assert_eq!(t.transaction_type(), TransactionType::Gas);
    assert_eq!(t.note(), None);
    let with = t.with_base_amount(amount.clone());
    assert_eq!(with.base_amount(), Some(amount.clone()));
    assert_eq!(with.date, t.date);
    assert_eq!(with.duplicate(), with);
    assert!(contains_transaction_in_currency(&[t.clone()], &Currency::eur()));
    assert!(!contains_transaction_in_currency(&[t], &Currency::chf()));
    assert!(!contains_transaction_in_currency(&[], &Currency::chf()));
}
