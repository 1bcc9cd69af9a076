use budget::date::Date;
use budget::error::Error;
use budget::filter::{DateShape, Request};
use budget::invoice::{contains_invoice_in_currency, Invoice, InvoiceParser};
use budget::invoice_type::InvoiceType;
use budget::request::Request as InvoiceRequest;
use budget::amount::Amount;
use budget::currency::Currency;
use budget::transaction_type::TransactionType;

fn day(year: i32, month: u32, day: u32) -> Date {
    Date::new(year, month, day).unwrap()
}

#[test]
fn shapes_of_dates() {
    assert_eq!(Request::date_shape("2024-01-05"), Some(DateShape::Day));
    assert_eq!(Request::date_shape("2024-01"), Some(DateShape::Month));
    assert_eq!(Request::date_shape("2024"), Some(DateShape::Year));
    assert_eq!(Request::date_shape("24"), None);
    assert_eq!(Request::date_shape("2024-1-5"), None);
    assert_eq!(Request::date_shape(" 2024"), None);
    assert_eq!(Request::date_shape("2024-01-05x"), None);
    assert_eq!(Request::date_shape(""), None);
}

#[test]
fn from_dates() {
    assert_eq!(Request::parse_from_date("2024-01-05"), Ok(day(2024, 1, 5)));
    assert_eq!(Request::parse_from_date("2024-02"), Ok(day(2024, 2, 1)));
    assert_eq!(Request::parse_from_date("2024"), Ok(day(2024, 1, 1)));
    assert_eq!(
        Request::parse_from_date(""),
        Err(Error::Argument("Date input must not be empty".to_string()))
    );
    assert_eq!(
        Request::parse_from_date("5.1.2024"),
        Err(Error::Argument(
            "Could not parse date 5.1.2024. Please use format 'YYYY-MM-DD'".to_string()
        ))
    );
    match Request::parse_from_date("2024-13-01") {
        Err(Error::Argument(text)) => {
            assert!(text.starts_with("Could not parse date 2024-13-01: "), "{}", text)
        }
        other => panic!("{:?}", other),
    }
    assert_eq!(Request::first_day_of("2024", DateShape::Year), Ok(day(2024, 1, 1)));
}

#[test]
fn to_dates() {
    assert_eq!(Request::parse_to_date("2024-01-05"), Ok(day(2024, 1, 5)));
    assert_eq!(Request::parse_to_date("2024-02"), Ok(day(2024, 2, 29)));
    assert_eq!(Request::parse_to_date("2023-02"), Ok(day(2023, 2, 28)));
    assert_eq!(Request::parse_to_date("2024-12"), Ok(day(2024, 12, 31)));
    assert_eq!(Request::parse_to_date("2024"), Ok(day(2024, 12, 31)));
    assert_eq!(
        Request::parse_to_date(""),
        Err(Error::Argument("Date input must not be empty".to_string()))
    );
    assert_eq!(
        Request::parse_to_date("soon"),
        Err(Error::Argument("Could not parse date soon. Please use format 'YYYY-MM-DD'".to_string()))
    );
    match Request::parse_to_date("2024-00") {
        Err(Error::Argument(text)) => {
            assert!(text.starts_with("Could not parse date 2024-00: "), "{}", text)
        }
        other => panic!("{:?}", other),
    }
    assert_eq!(Request::last_day_of("2024-04", DateShape::Month), Ok(day(2024, 4, 30)));
}

#[test]
fn requests_from_arguments() {
    let request = Request::from_arguments(
        Some("2024-01".to_string()),
        Some("2024".to_string()),
        Some(TransactionType::Car),
        Some("fuel".to_string()),
        Some("toll".to_string()),
    )
    .unwrap();
    assert_eq!(request.from, Some(day(2024, 1, 1)));
    assert_eq!(request.to, Some(day(2024, 12, 31)));
    assert_eq!(request.transaction_type, Some(TransactionType::Car));
    assert_eq!(request.search, Some("fuel".to_string()));
    assert_eq!(request.exclude, Some("toll".to_string()));
    assert_eq!(request.describe(), "Typ:Car / Auto, Von:2024-01-01, Bis:2024-12-31Enthält:fuel");
    let none = Request::from_arguments(None, None, None, None, None).unwrap();
    assert!(none.empty());
    assert_eq!(none.describe(), "");
    assert!(Request::from_arguments(Some("x".to_string()), None, None, None, None).is_err());
    assert!(Request::from_arguments(None, Some("".to_string()), None, None, None).is_err());
    let only_type = Request::new(None, None, Some(TransactionType::Eat), None);
    assert_eq!(only_type.describe(), "Typ:Food / Essen");
    let far = Request::new(Some(day(-5, 3, 9)), Some(day(12345, 10, 1)), None, None);
    assert_eq!(far.describe(), "Von:-0005-03-09, Bis:+12345-10-01");
    let only_from = Request::new(Some(day(2024, 3, 9)), None, None, None);
    assert_eq!(only_from.describe(), "Von:2024-03-09, ");
    assert_eq!(only_from.from_or_default(), day(2024, 3, 9));
    assert_eq!(only_type.from_or_default(), day(1900, 1, 1));
    assert_eq!(only_type.to_or_default(day(2024, 5, 5)), day(2024, 5, 5));
}

#[test]
fn invoice_parser_build_from_vec() {
    let invoice_parser = InvoiceParser::new();
    let result = invoice_parser.build_from_vec(vec!["15.02.2019", "€", "66.60", "T", "Gas station"]);
    match result {
        Ok(i) => {
            assert_eq!(i.invoice_type, InvoiceType::Gas);
            assert_eq!(i.amount, Amount::new(6660, Currency::eur()));
            assert_eq!(i.date, Date::new(2019, 2, 15).unwrap());
            assert!(i.note.is_some());
            assert_eq!(i.note.unwrap(), "Gas station");
        }
        Err(e) => panic!("{:?}", e),
    };
}

#[test]
fn invoices_and_their_requests() {
    let parser = InvoiceParser::new();
    let row = |cells: [&str; 4]| cells.iter().map(|c| c.to_string()).collect::<Vec<String>>();
    let parsed = parser.parse_lines(vec![
        row(["16.02.2019", "€", "5", "body"]),
        row(["15.02.2019", "CHF", "7", "E"]),
        row(["15.02.2019", "CHF", "x", "E"]),
        row(["15.02.2019", "€", "1", "haus"]),
    ]);
    let values: Vec<i64> = parsed.invoices.iter().map(|i| i.amount().value()).collect();
    assert_eq!(values, vec![100, 700, 500]);
    assert_eq!(parsed.invoices[2].invoice_type(), InvoiceType::Clothes);
    assert_eq!(parsed.invoices[0].invoice_type(), InvoiceType::Home);
    assert_eq!(parsed.invoices[0].note(), None);
    assert_eq!(
        parsed.errors,
        vec![Error::Parse("Could not parse amount 'x': no decimal number".to_string())]
    );
    assert!(contains_invoice_in_currency(&parsed.invoices, &Currency::chf()));
    assert!(!contains_invoice_in_currency(&parsed.invoices, &Currency::usd()));
    let invoice: &Invoice = &parsed.invoices[1];
    assert_eq!(invoice.date(), day(2019, 2, 15));
    assert_eq!(invoice.base_amount(), None);
    let based = invoice.with_base_amount(Amount::new(665, Currency::eur()));
    assert_eq!(based.base_amount(), Some(Amount::new(665, Currency::eur())));
    assert_eq!(based.amount_ref(), &invoice.amount);

    let request = InvoiceRequest::new(Some(day(2019, 2, 15)), None, Some(InvoiceType::Clothes));
    assert!(!request.empty());
    assert_eq!(request.invoice_type(), Some(InvoiceType::Clothes));
    assert!(request.keeps(&parsed.invoices[2]));
    assert!(!request.keeps(&parsed.invoices[1]));
    assert!(!InvoiceRequest::new(Some(day(2019, 2, 16)), None, None).keeps(&parsed.invoices[2]));
    assert!(InvoiceRequest::new(None, Some(day(2019, 2, 16)), None).keeps(&parsed.invoices[2]));
    assert_eq!(request.describe(), "Typ:Clothes / Kleidung, Von:2019-02-15, ");
    assert!(InvoiceRequest::new(None, None, None).empty());
    assert_eq!(InvoiceRequest::parse_from_date("2019-02"), Ok(day(2019, 2, 1)));
    assert_eq!(InvoiceRequest::parse_to_date("2019-02"), Ok(day(2019, 2, 28)));
}
