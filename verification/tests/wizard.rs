use budget::amount::Amount;
use budget::currency::Currency;
use budget::date::Date;
use budget::notes::NoteCompletion;
use budget::transaction::Transaction;
use budget::transaction_type::TransactionType;
use budget::text::whitespace;
use budget::wizard::{
    get_transactions_since, parse_u32, prepare_raw_date, prepare_raw_date_as_typed,
    CurrentCompletion, Wizard, WizardAction, WizardEvent, WizardState,
};
use chrono::{Datelike, Local, Months};

fn today() -> Date {
    let now = Local::now();
    Date::new(now.year(), now.month(), now.day()).unwrap()
}

#[test]
fn wizard_test_prepare_raw_date() {
    let prepare = |raw: &str| prepare_raw_date_as_typed(raw, &today());
    let now_m_y = Local::now().format("%m.%Y").to_string();
    assert_eq!(prepare("23"), format!("23.{}", now_m_y));
    assert_eq!(prepare("3"), format!("3.{}", now_m_y));
    assert_eq!(prepare("03"), format!("03.{}", now_m_y));

    assert_eq!(prepare("23."), format!("23.{}", now_m_y));
    assert_eq!(prepare("3."), format!("3.{}", now_m_y));
    assert_eq!(prepare("03."), format!("03.{}", now_m_y));

    let now_y = Local::now().format("%Y").to_string();
    assert_eq!(prepare("23.11."), format!("23.11.{}", now_y));
    assert_eq!(prepare("3.2."), format!("3.2.{}", now_y));
    assert_eq!(prepare("03.04."), format!("03.04.{}", now_y));

    assert_eq!(prepare("23.11"), format!("23.11.{}", now_y));
    assert_eq!(prepare("3.2"), format!("3.2.{}", now_y));
    assert_eq!(prepare("03.04"), format!("03.04.{}", now_y));
}

fn test_date(input: &str, date_a: String, date_b: String) {
    let prepared_date = prepare_raw_date(input, &today());
    assert!(
        prepared_date == date_a || prepared_date == date_b,
        "Test {}: Prepared date {} matches neither {} nor {}",
        input,
        prepared_date,
        date_a,
        date_b
    );
}

#[test]
fn date_test_prepare_raw_date() {
    let now = Local::now();
    let last_year = now.checked_sub_months(Months::new(12)).unwrap();
    let now_m_y = now.format("%m.%Y").to_string();
    let last_year_m_y = last_year.format("%m.%Y").to_string();

    // With trailing dot (`.`)
    test_date("23.", format!("23.{}", now_m_y), format!("23.{}", last_year_m_y));
    test_date("3.", format!("3.{}", now_m_y), format!("3.{}", last_year_m_y));
    test_date("03.", format!("3.{}", now_m_y), format!("3.{}", last_year_m_y));

    // Without trailing dot (`.`)
    test_date("23", format!("23.{}", now_m_y), format!("23.{}", last_year_m_y));
    test_date("3", format!("3.{}", now_m_y), format!("3.{}", last_year_m_y));
    test_date("03", format!("3.{}", now_m_y), format!("3.{}", last_year_m_y));

    let now_y = now.format("%Y").to_string();
    let last_year_y = last_year.format("%Y").to_string();
    // With trailing dot (`.`)
    test_date("23.11.", format!("23.11.{}", now_y), format!("23.11.{}", last_year_y));
    test_date("3.2.", format!("3.2.{}", now_y), format!("3.2.{}", last_year_y));
    test_date("03.04.", format!("3.4.{}", now_y), format!("3.4.{}", last_year_y));

    // Without trailing dot (`.`)
    test_date("23.11", format!("23.11.{}", now_y), format!("23.11.{}", last_year_y));
    test_date("3.2", format!("3.2.{}", now_y), format!("3.2.{}", last_year_y));
    test_date("03.04", format!("3.4.{}", now_y), format!("3.4.{}", last_year_y));
}

#[test]
fn short_dates_on_a_given_day() {
    let day = Date::new(2024, 5, 17).unwrap();
    assert_eq!(prepare_raw_date("3", &day), "3.05.2024");
    assert_eq!(prepare_raw_date("18", &day), "18.05.2023");
    assert_eq!(prepare_raw_date("3.4", &day), "3.4.2024");
    assert_eq!(prepare_raw_date("3.6", &day), "3.6.2023");
    assert_eq!(prepare_raw_date("03.04.2020", &day), "03.04.2020");
    assert_eq!(prepare_raw_date("", &day), "");
    assert_eq!(prepare_raw_date("x.4", &day), "4.05.2024");
    assert_eq!(prepare_raw_date_as_typed("x.4", &day), "x.4.2024");
    assert_eq!(prepare_raw_date_as_typed(" . 7", &day), " 7.05.2024");
    let early = Date::new(5, 1, 1).unwrap();
    assert_eq!(prepare_raw_date_as_typed("1.1", &early), "1.1.05");
}

#[test]
fn numbers_as_the_standard_library_reads_them() {
    let texts = [
        "", "+", "-", "0", "7", "+7", "-7", "++7", "+-7", "007", "+007", " 7", "7 ", "7.", "1e3",
        "4294967295", "4294967296", "+4294967295", "42949672950", "00000000000000000000004294967295",
        "99999999999999999999999999", "１２", "٣", "0x10", "1_000", "12a", "a12",
    ];
    for text in texts {
        assert_eq!(parse_u32(text), text.parse::<u32>().ok(), "{:?}", text);
    }
    for number in (0..=u32::MAX).step_by(65_521) {
        assert_eq!(parse_u32(&number.to_string()), Some(number));
    }
}

#[test]
fn white_space_as_the_standard_library_knows_it() {
    let mut count = 0;
    for code in 0..=0x10FFFFu32 {
        if let Some(c) = char::from_u32(code) {
            assert_eq!(whitespace(c), c.is_whitespace(), "{:?}", c);
            if whitespace(c) {
                count += 1;
            }
        }
    }
    assert_eq!(count, 25);
}

#[test]
fn dialogue_steps() {
    let entered = Wizard::step(WizardState::Entering, WizardEvent::Entered);
    assert_eq!(entered, (WizardState::AskedToSave, WizardAction::ShowAndAskToSave));
    let saved = Wizard::step(WizardState::AskedToSave, WizardEvent::Answered(true));
    assert_eq!(saved, (WizardState::AskedForAnother, WizardAction::SaveAndAskForAnother));
    let discarded = Wizard::step(WizardState::AskedToSave, WizardEvent::Answered(false));
    assert_eq!(discarded, (WizardState::Entering, WizardAction::DiscardAndEnter));
    let again = Wizard::step(WizardState::AskedForAnother, WizardEvent::Answered(true));
    assert_eq!(again, (WizardState::Entering, WizardAction::Enter));
    let done = Wizard::step(WizardState::AskedForAnother, WizardEvent::Answered(false));
    assert_eq!(done, (WizardState::Finished, WizardAction::Leave));
    let stray = Wizard::step(WizardState::Entering, WizardEvent::Answered(true));
    assert_eq!(stray, (WizardState::Entering, WizardAction::Nothing));
    let over = Wizard::step(WizardState::Finished, WizardEvent::Entered);
    assert_eq!(over, (WizardState::Finished, WizardAction::Nothing));
}

fn noted(day: u32, note: Option<&str>) -> Transaction {
    Transaction::new(
        Date::new(2024, 1, day).unwrap(),
        Amount::new(-100, Currency::eur()),
        None,
        TransactionType::Eat,
        note.map(|n| n.to_string()),
    )
}

#[test]
fn completions() {
    let currencies = CurrentCompletion::new();
    assert_eq!(currencies.options, vec!["EUR", "CHF", "USD"]);
    assert_eq!(currencies.get("e"), Some("EUR".to_string()));
    assert_eq!(currencies.get("ch"), Some("CHF".to_string()));
    assert_eq!(currencies.get(""), None);
    assert_eq!(currencies.get("x"), None);

    let list = vec![
        noted(1, Some("Lunch")),
        noted(2, None),
        noted(3, Some("")),
        noted(4, Some("Bakery")),
        noted(5, Some("Lunch")),
        noted(6, Some("lunch break")),
        noted(7, Some("Ba")),
    ];
    let notes = NoteCompletion::new(&list);
    assert_eq!(notes.options, vec!["Ba", "Bakery", "Lunch", "lunch break"]);
    assert_eq!(notes.get("lu"), Some("Lunch".to_string()));
    assert_eq!(notes.get("LUNCH B"), Some("lunch break".to_string()));
    assert_eq!(notes.get("bak"), Some("Bakery".to_string()));
    assert_eq!(notes.get("x"), None);
    assert_eq!(NoteCompletion::new(&[]).options.len(), 0);
}

#[test]
fn transactions_since_a_day() {
    let list = vec![noted(1, None), noted(9, None), noted(5, None), noted(4, None)];
    let kept = get_transactions_since(&list, &Date::new(2024, 1, 5).unwrap());
    assert_eq!(kept, vec![list[1].clone(), list[2].clone()]);
}
