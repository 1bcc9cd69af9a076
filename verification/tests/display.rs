use budget::amount::Amount;
use budget::chart::{growing_bar_width, write_share};
use budget::currency::Currency;
use budget::date::Date;
use budget::display::{
    amount_string, ansi_color_for_type, color_for_expenses, color_for_income, color_for_type,
    get_prepared_note, has_true_color_support, Paint,
};
use budget::error::Error;
use budget::file::{normalize_step, refusal, FileWriter, PathFacts, PathStep};
use budget::invoice::Invoice;
use budget::invoice_type::InvoiceType;
use budget::persistence::{create_tables_error, prefill_error};
use budget::rate_map::AmountConverter;
use budget::rate_provider::{Rate, RateProvider};
use budget::transaction::Transaction;
use budget::transaction_type::TransactionType;

fn paid(value: i64, currency: Currency, note: Option<&str>) -> Transaction {
    Transaction::new(
        Date::new(2024, 1, 10).unwrap(),
        Amount::new(value, currency),
        None,
        TransactionType::Car,
        note.map(|n| n.to_string()),
    )
}

#[test]
fn notes_with_line_breaks() {
    assert_eq!(get_prepared_note(&paid(1, Currency::eur(), None)), "");
    assert_eq!(get_prepared_note(&paid(1, Currency::eur(), Some("plain"))), "plain");
    assert_eq!(
        get_prepared_note(&paid(1, Currency::eur(), Some("one<br />two<br />three"))),
        "one\n              two\n              three"
    );
    assert_eq!(
        get_prepared_note(&paid(1, Currency::eur(), Some("<br /><br/><br />"))),
        "\n              <br/>\n              "
    );
}

#[test]
fn amounts_as_shown() {
    let base = Currency::eur();
    assert_eq!(amount_string(&paid(-5000, Currency::eur(), None), &base), "€ -50.00");
    let unconverted = paid(10000, Currency::chf(), None);
    assert_eq!(amount_string(&unconverted, &base), "CHF 100.00");
    let converted = unconverted.with_base_amount(Amount::new(9500, Currency::eur()));
    assert_eq!(amount_string(&converted, &base), "CHF 100.00 (€ 95.00)");
    let own = paid(100, Currency::eur(), None).with_base_amount(Amount::new(100, Currency::eur()));
    assert_eq!(amount_string(&own, &base), "€ 1.00");
}

#[test]
fn colours() {
    assert_eq!(ansi_color_for_type(TransactionType::Body, false), Paint::AnsiValue(0));
    assert_eq!(ansi_color_for_type(TransactionType::Body, true), Paint::AnsiValue(124));
    assert_eq!(ansi_color_for_type(TransactionType::Car, true), Paint::AnsiValue(131));
    assert_eq!(ansi_color_for_type(TransactionType::Unknown, false), Paint::AnsiValue(98));
    assert_eq!(ansi_color_for_type(TransactionType::Unknown, true), Paint::AnsiValue(222));
    assert_eq!(color_for_income(false), Paint::Green);
    assert_eq!(color_for_income(true), Paint::Rgb { r: 6, g: 168, b: 59 });
    assert_eq!(color_for_expenses(false), Paint::Red);
    assert_eq!(color_for_expenses(true), Paint::Rgb { r: 232, g: 53, b: 32 });
    assert_eq!(color_for_type(TransactionType::Body, true, false), Some(Paint::AnsiValue(81)));
    assert_eq!(color_for_type(TransactionType::Home, false, false), Some(Paint::AnsiValue(17)));
    assert_eq!(
        color_for_type(TransactionType::Car, true, true),
        Some(Paint::Rgb { r: 112, g: 255, b: 81 })
    );
    assert_eq!(
        color_for_type(TransactionType::Unknown, false, true),
        Some(Paint::Rgb { r: 12, g: 170, b: 201 })
    );
    assert_eq!(color_for_type(TransactionType::Tax, false, true), None);
    assert_eq!(color_for_type(TransactionType::Banking, true, false), None);
    assert!(has_true_color_support(Some("truecolor")));
    assert!(!has_true_color_support(Some("24bit")));
    assert!(!has_true_color_support(None));
}

#[test]
fn bars_that_grow() {
    assert_eq!(growing_bar_width(10000, 10), 50);
    assert_eq!(growing_bar_width(10000, 5), 25);
    assert_eq!(growing_bar_width(10000, 0), 0);
    assert_eq!(growing_bar_width(3333, 10), 17);
    assert_eq!(growing_bar_width(3333, 1), 2);
    assert_eq!(growing_bar_width(1, 1), 0);
    assert_eq!(growing_bar_width(100, 10), 0);
    assert_eq!(growing_bar_width(101, 10), 1);
    assert_eq!(growing_bar_width(-3333, 10), 0);
    assert_eq!(growing_bar_width(i128::MAX, 1), usize::MAX);
    assert_eq!(write_share(0), "0%");
    assert_eq!(write_share(3333), "33.33%");
    assert_eq!(write_share(-11111), "-111.11%");
    assert_eq!(write_share(5), "0.05%");
}

#[test]
fn addresses_and_rates_of_a_service() {
    let start = Date::new(2024, 1, 5).unwrap();
    let end = Date::new(2024, 12, 31).unwrap();
    assert_eq!(
        RateProvider::build_request_url(&start, &end, &["CHF", "USD"]),
        "https://api.exchangerate.host/timeseries?start_date=2024-01-05&end_date=2024-12-31&symbols=CHF,USD"
    );
    assert_eq!(
        RateProvider::build_request_url(&start, &start, &[]),
        "https://api.exchangerate.host/timeseries?start_date=2024-01-05&end_date=2024-01-05&symbols="
    );
    let rates =
        RateProvider::build_rate(&["CHF", "USD", "GBP"], "2024-01-05", &vec![Some(950_000), None, Some(1)]);
    assert_eq!(rates.len(), 2);
    assert_eq!((rates[0].currency.as_str(), rates[0].rate, rates[0].date), ("CHF", 950_000, start));
    assert_eq!((rates[1].currency.as_str(), rates[1].rate), ("GBP", 1));
    assert!(RateProvider::build_rate(&["CHF"], "05.01.2024", &vec![Some(1)]).is_empty());
    let url_of = |year: i32| {
        let date = Date::new(year, 3, 9).unwrap();
        RateProvider::build_request_url(&date, &date, &[])
    };
    let with = |text: &str| {
        format!(
            "https://api.exchangerate.host/timeseries?start_date={}&end_date={}&symbols=",
            text, text
        )
    };
    assert_eq!(url_of(0), with("0000-03-09"));
    assert_eq!(url_of(7), with("0007-03-09"));
    assert_eq!(url_of(999), with("0999-03-09"));
    assert_eq!(url_of(1000), with("1000-03-09"));
    assert_eq!(url_of(9999), with("9999-03-09"));
    assert_eq!(url_of(10000), with("+10000-03-09"));
    assert_eq!(url_of(262142), with("+262142-03-09"));
    assert_eq!(url_of(-1), with("-0001-03-09"));
    assert_eq!(url_of(-12345), with("-12345-03-09"));
    for year in [-262143, -10000, -9999, -100, -10, 0, 1, 99, 100, 2024, 9999, 10001, 262142] {
        for (month, day) in [(1, 1), (9, 30), (10, 9), (12, 31)] {
            let date = Date::new(year, month, day).unwrap();
            let naive = chrono::NaiveDate::from_ymd_opt(year, month, day).unwrap();
            assert_eq!(naive.format("%Y-%m-%d").to_string(), naive.to_string());
            assert_eq!(
                RateProvider::build_request_url(&date, &date, &[]),
                with(&naive.to_string())
            );
        }
    }
}

#[test]
fn invoices_at_the_rate_of_the_day() {
    let day = Date::new(2024, 1, 5).unwrap();
    let converter = AmountConverter::new(
        Currency::eur(),
        vec![Rate::new(day, "CHF", 1_250_000), Rate::new(day, "CHF", 2_000_000)],
    );
    let invoice = |value: i64, currency: Currency, date: Date| {
        Invoice::new(date, Amount::new(value, currency), None, InvoiceType::Car, None)
    };
    let in_base = invoice(1000, Currency::eur(), day);
    assert_eq!(
        converter.invoice_with_base_amount(&in_base).base_amount,
        Some(Amount::new(1000, Currency::eur()))
    );
    let foreign = invoice(1000, Currency::chf(), day);
    assert_eq!(
        converter.invoice_with_base_amount(&foreign).base_amount,
        Some(Amount::new(800, Currency::eur()))
    );
    assert_eq!(
        converter.convert(&in_base, &in_base.amount, &Currency::chf()),
        Ok(Amount::new(1250, Currency::chf()))
    );
    let other_day = invoice(1000, Currency::chf(), Date::new(2024, 1, 6).unwrap());
    assert_eq!(converter.invoice_with_base_amount(&other_day), other_day);
    assert_eq!(
        converter.convert_to_base(&other_day, &other_day.amount),
        Err(Error::Rate("Currency 'CHF' not found in map for date 2024-01-06".to_string()))
    );
    assert_eq!(AmountConverter::convert_value_inverse(1000, 1_250_000), Some(800));
    assert_eq!(AmountConverter::convert_value_inverse(-1, 2_000_000), Some(-1));
    assert_eq!(AmountConverter::convert_value_inverse(1, 3_000_000), Some(0));
    assert_eq!(AmountConverter::convert_value_inverse(1, 0), None);
    assert_eq!(AmountConverter::convert_value_inverse(i64::MAX, 1), None);
    assert_eq!(AmountConverter::convert_value_inverse(100, -1_000_000), Some(-100));
    assert_eq!(converter.rate_of_day(&day), Some(1_250_000));
}

#[test]
fn paths_and_stores() {
    let new_file = PathFacts {
        is_dir: false,
        exists: false,
        is_absolute: true,
        has_parent: true,
        parent_is_dir: true,
        parent_is_canonical: true,
    };
    assert_eq!(normalize_step(&new_file), PathStep::Keep);
    assert_eq!(normalize_step(&PathFacts { exists: true, ..new_file }), PathStep::Canonicalize);
    assert_eq!(
        normalize_step(&PathFacts { is_dir: true, exists: true, ..new_file }),
        PathStep::RefuseDirectory
    );
    assert_eq!(
        normalize_step(&PathFacts { parent_is_dir: false, ..new_file }),
        PathStep::RefuseMissingParent
    );
    assert_eq!(
        normalize_step(&PathFacts { parent_is_dir: false, is_absolute: false, ..new_file }),
        PathStep::PrependWorkingDirectory
    );
    assert_eq!(
        normalize_step(&PathFacts { parent_is_canonical: false, ..new_file }),
        PathStep::RefuseMissingParent
    );
    assert_eq!(normalize_step(&PathFacts { has_parent: false, ..new_file }), PathStep::RefuseNoParent);
    assert_eq!(
        refusal(PathStep::RefuseDirectory, "/x"),
        Some(Error::FileIO("File path must not be a directory".to_string()))
    );
    assert_eq!(
        refusal(PathStep::RefuseMissingParent, "/x"),
        Some(Error::FileIO("File parent directory /x not found".to_string()))
    );
    assert_eq!(
        refusal(PathStep::RefuseNoParent, "/x"),
        Some(Error::FileIO("File path not found".to_string()))
    );
    assert_eq!(refusal(PathStep::Keep, "/x"), None);
    assert_eq!(FileWriter::check_output_path(false, Some(true)), Ok(()));
    assert_eq!(FileWriter::check_output_path(false, None), Ok(()));
    assert_eq!(
        FileWriter::check_output_path(true, Some(true)),
        Err(Error::FileIO("Output path must not be a directory".to_string()))
    );
    assert_eq!(
        FileWriter::check_output_path(false, Some(false)),
        Err(Error::FileIO("Output path parent directory does not exist".to_string()))
    );
    assert_eq!(
        create_tables_error(Some("8"), "/db", "denied"),
        Error::FileIO("Attempt to write a readonly database /db".to_string())
    );
    assert_eq!(
        create_tables_error(Some("1"), "/db", "denied"),
        Error::Persistence("Error during database migration #create-tables: denied".to_string())
    );
    assert_eq!(
        create_tables_error(None, "/db", "denied"),
        Error::Persistence("Error during database migration #create-tables: denied".to_string())
    );
    assert_eq!(
        prefill_error("denied"),
        Error::Persistence("Error during database migration #prefill: denied".to_string())
    );
}
