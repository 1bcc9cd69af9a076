use budget::amount::Amount;
use budget::commands::{count_imports, import_kind, show_types, transactions_of_month, ImportKind};
use budget::currency::Currency;
use budget::date::Date;
use budget::decimal::parse_decimal;
use budget::error::Error;
use budget::import::{partition_and_unpack, TransactionJson};
use budget::transaction::Transaction;
use budget::transaction_parser::{sort_by_date, TransactionParser};
use budget::transaction_type::TransactionType;

fn decimal(text: &str) -> Option<i64> {
    parse_decimal(&text.chars().collect())
}

#[test]
fn transaction_parser_build_from_vec() {
    let transaction_parser = TransactionParser::new();
    let result =
        transaction_parser.build_from_vec(vec!["15.02.2019", "€", "66.60", "T", "Gas station"]);
    match result {
        Ok(i) => {
            assert_eq!(i.transaction_type(), TransactionType::Gas);
            assert_eq!(i.amount(), Amount::new(-6660, Currency::eur()));
            assert_eq!(i.date(), Date::new(2019, 2, 15).unwrap());
            assert!(i.note().is_some());
            assert_eq!(i.note().unwrap(), "Gas station");
        }
        Err(e) => panic!("{:?}", e),
    };
}

#[test]
fn build_from_vec_reports_the_first_cell_that_fails() {
    let parser = TransactionParser::new();
    assert_eq!(
        parser.build_from_vec(vec![]),
        Err(Error::Parse("Could not read date from line".to_string()))
    );
    match parser.build_from_vec(vec!["31.02.2019", "€", "1"]) {
        Err(Error::Parse(text)) => {
            assert!(text.starts_with("Could not parse date '31.02.2019': "), "{}", text)
        }
        other => panic!("{:?}", other),
    }
    assert_eq!(
        parser.build_from_vec(vec!["15.02.2019"]),
        Err(Error::Parse("Could not read currency from line".to_string()))
    );
    assert_eq!(
        parser.build_from_vec(vec!["15.02.2019", "XYZ"]),
        Err(Error::Parse("Currency 'XYZ' not found".to_string()))
    );
    assert_eq!(
        parser.build_from_vec(vec!["15.02.2019", "CHF"]),
        Err(Error::Parse("Could not read amount from line".to_string()))
    );
    assert_eq!(
        parser.build_from_vec(vec!["15.02.2019", "CHF", "12x"]),
        Err(Error::Parse("Could not parse amount '12x': no decimal number".to_string()))
    );
    let bare = parser.build_from_vec(vec![" 15.02.2019 ", " USD ", " 1,5 "]).unwrap();
    assert_eq!(bare.amount, Amount::new(-150, Currency::usd()));
    assert_eq!(bare.transaction_type, TransactionType::Unknown);
    assert_eq!(bare.note, None);
    assert_eq!(bare.base_amount, None);
}

#[test]
fn part_of_a_row() {
    let parser = TransactionParser::new();
    let row = vec![" a ".to_string(), "b".to_string()];
    assert_eq!(parser.get_vec_part(&row, 0), Some(" a ".to_string()));
    assert_eq!(parser.get_vec_part(&row, 2), None);
    assert_eq!(parser.get_vec_part_or_error(&row, 0, "missing"), Ok("a".to_string()));
    assert_eq!(
        parser.get_vec_part_or_error(&row, 2, "missing"),
        Err(Error::Parse("missing".to_string()))
    );
}

#[test]
fn parse_lines_sorts_by_day_and_value() {
    let parser = TransactionParser::new();
    let row = |cells: [&str; 5]| cells.iter().map(|c| c.to_string()).collect::<Vec<String>>();
    let imported = parser.parse_lines(vec![
        row(["16.02.2019", "€", "5", "E", "second day"]),
        row(["15.02.2019", "€", "1", "E", "small"]),
        row(["nonsense", "€", "1", "E", ""]),
        row(["15.02.2019", "€", "66.60", "T", "large"]),
        row(["15.02.2019", "€", "1", "E", "small again"]),
        row(["15.02.2019", "?", "1", "E", ""]),
    ]);
    let notes: Vec<String> = imported.transactions.iter().map(|t| t.note().unwrap()).collect();
    assert_eq!(notes, vec!["large", "small", "small again", "second day"]);
    assert_eq!(imported.errors.len(), 2);
    assert_eq!(imported.errors[1], Error::Parse("Currency '?' not found".to_string()));
    assert!(sort_by_date(&vec![]).is_empty());
}

#[test]
fn decimal_amounts_in_hundredths() {
    assert_eq!(decimal("66.60"), Some(6660));
    assert_eq!(decimal("66,6"), Some(6660));
    assert_eq!(decimal("-0.05"), Some(-5));
    assert_eq!(decimal("+7"), Some(700));
    assert_eq!(decimal("7."), Some(700));
    assert_eq!(decimal(".5"), Some(50));
    assert_eq!(decimal("1.005"), Some(101));
    assert_eq!(decimal("1.0049"), Some(100));
    assert_eq!(decimal("0.999"), Some(100));
    assert_eq!(decimal("92233720368547758.07"), Some(i64::MAX));
    assert_eq!(decimal("-92233720368547758.07"), Some(-i64::MAX));
    assert_eq!(decimal("92233720368547758.08"), None);
    assert_eq!(decimal("123456789012345678901234567890"), None);
    assert_eq!(decimal(""), None);
    assert_eq!(decimal("."), None);
    assert_eq!(decimal("-"), None);
    assert_eq!(decimal("1.2.3"), None);
    assert_eq!(decimal("1e3"), None);
    assert_eq!(decimal(" 1"), None);
}

#[test]
fn partition_keeps_values_and_errors_in_order() {
    let input: Vec<Result<Option<u8>, String>> = vec![
        Ok(Some(1)),
        Err("first".to_string()),
        Ok(None),
        Ok(Some(2)),
        Err("second".to_string()),
    ];
    let (values, errors) = partition_and_unpack(input);
    assert_eq!(values, vec![1, 2]);
    assert_eq!(errors, vec!["first".to_string(), "second".to_string()]);
}

#[test]
fn json_record_becomes_a_transaction() {
    let record = TransactionJson {
        amount: -1250,
        date: Date::new(2024, 3, 1).unwrap(),
        currency: "$".to_string(),
        note: "Coffee".to_string(),
    };
    let t: Transaction = record.into_transaction().unwrap();
    assert_eq!(t.amount, Amount::new(-1250, Currency::usd()));
    assert_eq!(t.transaction_type, TransactionType::Unknown);
    assert_eq!(t.note, Some("Coffee".to_string()));
    assert_eq!(t.base_amount, None);
    let unknown = TransactionJson {
        amount: 1,
        date: Date::new(2024, 3, 1).unwrap(),
        currency: "GBP".to_string(),
        note: String::new(),
    };
    assert_eq!(
        unknown.into_transaction(),
        Err(Error::Parse("Currency 'GBP' not found".to_string()))
    );
}

#[test]
fn commands_decide_on_plain_values() {
    let lines = show_types();
    assert_eq!(lines.len(), 14);
    assert_eq!(lines[0], "- B: Body / Cosmetics");
    assert_eq!(lines[1], "- A: Car / Auto");
    assert_eq!(lines[13], "- J: Bank / Banking");
    assert_eq!(import_kind(Some("json"), "a.json"), Ok(ImportKind::Json));
    assert_eq!(import_kind(Some("md"), "a.md"), Ok(ImportKind::Markdown));
    assert_eq!(
        import_kind(Some("csv"), "a.csv"),
        Err(Error::Import("No parser to import csv files".to_string()))
    );
    assert_eq!(
        import_kind(None, "/tmp/a"),
        Err(Error::Import("Could not detect the extension of file path /tmp/a".to_string()))
    );
    let count = count_imports(&vec![true, false, true, true]);
    assert_eq!((count.successful, count.failed), (3, 1));
    let paid = |month: u32| {
        Transaction::new(
            Date::new(2024, month, 1).unwrap(),
            Amount::new(1, Currency::eur()),
            None,
            TransactionType::Eat,
            None,
        )
    };
    let all = vec![paid(1), paid(2), paid(1)];
    assert_eq!(transactions_of_month(&all, 1), vec![paid(1), paid(1)]);
    assert_eq!(transactions_of_month(&all, 3), vec![]);
}
