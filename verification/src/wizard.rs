//! What the dialogue that enters a transaction decides: how a short date is
//! completed, what is offered to complete a word, and what comes next.

use crate::date::{earlier, Date};
use crate::decimal::{all_digits, digit, digit_value, digits_value, is_digit};
use crate::numbers::{decimal_text, two_digit_text, write_number, write_two_digits};
use crate::text::{
    begins_with, chars_of, copy_chars, split, split_by, starts_with, strip, stripped, text_of,
    to_uppercase, uppercase_of, Strip,
};
use crate::transaction::Transaction;
use vstd::prelude::*;

verus! {

/// The text without a plus sign at its start.
pub open spec fn unsigned_part(text: Seq<char>) -> Seq<char> {
    if text.len() > 0 && text[0] == '+' {
        text.drop_first()
    } else {
        text
    }
}

/// The number that a text stands for: digits, with or without a plus sign
/// in front, that make a number of at most 32 bits. None for any other
/// text.
pub open spec fn parsed_u32(text: Seq<char>) -> Option<u32> {
    let digits = unsigned_part(text);
    if digits.len() > 0 && all_digits(digits) && digits_value(digits) <= u32::MAX {
        Some(digits_value(digits) as u32)
    } else {
        None
    }
}

/// The number that a text stands for.
pub fn parse_u32(text: &str) -> (r: Option<u32>)
    ensures
        r == parsed_u32(text@),
{
    let chars = chars_of(text);
    let start: usize = if chars.len() > 0 && chars[0] == '+' {
        1
    } else {
        0
    };
    let ghost digits = unsigned_part(chars@);
    proof {
        assert(digits =~= chars@.skip(start as int));
    }
    if start == chars.len() {
        return None;
    }
    let mut value: u64 = 0;
    let mut too_large: bool = false;
    let mut k: usize = start;
    while k < chars.len()
        invariant
            start <= k <= chars.len(),
            start < chars.len(),
            chars@ == text@,
            digits == unsigned_part(chars@),
            digits == chars@.skip(start as int),
            forall|j: int| 0 <= j < k - start ==> is_digit(#[trigger] digits[j]),
            !too_large ==> value == digits_value(digits.take(k - start)) && value <= u32::MAX,
            too_large ==> digits_value(digits.take(k - start)) > u32::MAX,
        decreases chars.len() - k,
    {
        let c: char = chars[k];
        proof {
            assert(digits[k - start] == chars@[k as int]);
            assert(digits.take(k - start + 1).drop_last() =~= digits.take(k - start));
            assert(digits.take(k - start + 1).last() == digits[k - start]);
        }
        if !digit(c) {
            proof {
                assert(!is_digit(digits[k - start]));
                assert(!all_digits(digits));
            }
            return None;
        }
        let d: u8 = digit_value(c);
        if !too_large {
            let next: u64 = value * 10 + d as u64;
            if next > 0xffff_ffff {
                too_large = true;
            } else {
                value = next;
            }
        }
        k += 1;
    }
    proof {
        assert(digits.take(k - start) =~= digits);
        assert(all_digits(digits));
    }
    if too_large {
        None
    } else {
        Some(value as u32)
    }
}

/// The parts of a date that was typed with points between them: the parts
/// that are not blank, in their order.
pub open spec fn typed_parts(parts: Seq<Seq<char>>) -> Seq<Seq<char>>
    decreases parts.len(),
{
    if parts.len() == 0 {
        Seq::empty()
    } else if stripped(parts.last(), Strip::Whitespace).len() > 0 {
        typed_parts(parts.drop_last()).push(parts.last())
    } else {
        typed_parts(parts.drop_last())
    }
}

/// The numbers among the parts, in their order.
pub open spec fn typed_numbers(parts: Seq<Seq<char>>) -> Seq<u32>
    decreases parts.len(),
{
    if parts.len() == 0 {
        Seq::empty()
    } else {
        match parsed_u32(parts.last()) {
            Some(n) => typed_numbers(parts.drop_last()).push(n),
            None => typed_numbers(parts.drop_last()),
        }
    }
}

/// The date that a short date stands for, as text. A day and a month take
/// this year, or last year where the month is later than this month; a day
/// alone takes this month, and last year where the day is later than today.
/// Any other text stays as it is.
pub open spec fn completed_date(raw: Seq<char>, today: Date) -> Seq<char> {
    let numbers = typed_numbers(typed_parts(split_by(raw, '.')));
    if numbers.len() == 2 {
        let year = if numbers[1] > today.month {
            today.year - 1
        } else {
            today.year as int
        };
        decimal_text(numbers[0] as int) + seq!['.'] + decimal_text(numbers[1] as int) + seq!['.']
            + two_digit_text(year)
    } else if numbers.len() == 1 {
        let year = if numbers[0] > today.day {
            today.year - 1
        } else {
            today.year as int
        };
        decimal_text(numbers[0] as int) + seq!['.'] + two_digit_text(today.month as int) + seq![
            '.',
        ] + two_digit_text(year)
    } else {
        raw
    }
}

/// The date that a short date stands for where the parts are taken as they
/// were typed: a day and a month take this year, a day alone this month
/// and this year.
pub open spec fn completed_date_as_typed(raw: Seq<char>, today: Date) -> Seq<char> {
    let parts = typed_parts(split_by(raw, '.'));
    if parts.len() == 2 {
        parts[0] + seq!['.'] + parts[1] + seq!['.'] + two_digit_text(today.year as int)
    } else if parts.len() == 1 {
        parts[0] + seq!['.'] + two_digit_text(today.month as int) + seq!['.'] + two_digit_text(
            today.year as int,
        )
    } else {
        raw
    }
}

/// The parts of a typed date that are not blank.
fn parts_typed(raw: &str) -> (r: Vec<Vec<char>>)
    ensures
        crate::text::parts_view(r@) == typed_parts(split_by(raw@, '.')),
{
    let pieces = split(&chars_of(raw), '.');
    let ghost all = crate::text::parts_view(pieces@);
    let mut kept: Vec<Vec<char>> = Vec::new();
    let mut i: usize = 0;
    proof {
        assert(all.take(0) =~= Seq::<Seq<char>>::empty());
        assert(crate::text::parts_view(kept@) =~= Seq::<Seq<char>>::empty());
    }
    while i < pieces.len()
        invariant
            i <= pieces.len(),
            all == crate::text::parts_view(pieces@),
            all.len() == pieces.len(),
            crate::text::parts_view(kept@) == typed_parts(all.take(i as int)),
        decreases pieces.len() - i,
    {
        proof {
            assert(all.take(i + 1).drop_last() =~= all.take(i as int));
            assert(all.take(i + 1).last() == pieces@[i as int]@);
        }
        let ghost before = kept@;
        if strip(&pieces[i], Strip::Whitespace).len() > 0 {
            let copy = copy_chars(&pieces[i]);
            kept.push(copy);
            proof {
                assert(crate::text::parts_view(kept@) =~= crate::text::parts_view(before).push(
                    pieces@[i as int]@,
                ));
            }
        }
        i += 1;
    }
    proof {
        assert(all.take(i as int) =~= all);
    }
    kept
}

/// The date that a short date stands for, as text.
pub fn prepare_raw_date(raw_date: &str, today: &Date) -> (r: String)
    requires
        today.well_formed(),
    ensures
        r@ == completed_date(raw_date@, *today),
{
    let parts = parts_typed(raw_date);
    let ghost typed = crate::text::parts_view(parts@);
    let mut numbers: Vec<u32> = Vec::new();
    let mut i: usize = 0;
    proof {
        assert(typed.take(0) =~= Seq::<Seq<char>>::empty());
    }
    while i < parts.len()
        invariant
            i <= parts.len(),
            typed == crate::text::parts_view(parts@),
            typed.len() == parts.len(),
            numbers@ == typed_numbers(typed.take(i as int)),
        decreases parts.len() - i,
    {
        proof {
            assert(typed.take(i + 1).drop_last() =~= typed.take(i as int));
            assert(typed.take(i + 1).last() == parts@[i as int]@);
        }
        if let Some(n) = parse_u32(text_of(&parts[i]).as_str()) {
            numbers.push(n);
        }
        i += 1;
    }
    proof {
        assert(typed.take(i as int) =~= typed);
    }
    if numbers.len() == 2 {
        let year: i32 = if numbers[1] > today.month {
            today.year - 1
        } else {
            today.year
        };
        let mut out = write_number(numbers[0] as i128);
        out.push('.');
        let mut month = write_number(numbers[1] as i128);
        out.append(&mut month);
        out.push('.');
        let mut tail = write_two_digits(year as i128);
        out.append(&mut tail);
        proof {
            assert(out@ =~= completed_date(raw_date@, *today));
        }
        text_of(&out)
    } else if numbers.len() == 1 {
        let year: i32 = if numbers[0] > today.day {
            today.year - 1
        } else {
            today.year
        };
        let mut out = write_number(numbers[0] as i128);
        out.push('.');
        let mut month = write_two_digits(today.month as i128);
        out.append(&mut month);
        out.push('.');
        let mut tail = write_two_digits(year as i128);
        out.append(&mut tail);
        proof {
            assert(out@ =~= completed_date(raw_date@, *today));
        }
        text_of(&out)
    } else {
        raw_date.to_owned()
    }
}

/// The date that a short date stands for, with its parts as they were
/// typed.
pub fn prepare_raw_date_as_typed(raw_date: &str, today: &Date) -> (r: String)
    requires
        today.well_formed(),
    ensures
        r@ == completed_date_as_typed(raw_date@, *today),
{
    let mut parts = parts_typed(raw_date);
    let ghost typed = crate::text::parts_view(parts@);
    proof {
        assert(typed.len() == parts.len());
        assert(forall|k: int| 0 <= k < parts.len() ==> typed[k] == parts@[k]@);
    }
    if parts.len() == 2 {
        let mut second = parts.pop().unwrap();
        let mut out = parts.pop().unwrap();
        out.push('.');
        out.append(&mut second);
        out.push('.');
        let mut tail = write_two_digits(today.year as i128);
        out.append(&mut tail);
        proof {
            assert(out@ =~= completed_date_as_typed(raw_date@, *today));
        }
        text_of(&out)
    } else if parts.len() == 1 {
        let mut out = parts.pop().unwrap();
        out.push('.');
        let mut month = write_two_digits(today.month as i128);
        out.append(&mut month);
        out.push('.');
        let mut tail = write_two_digits(today.year as i128);
        out.append(&mut tail);
        proof {
            assert(out@ =~= completed_date_as_typed(raw_date@, *today));
        }
        text_of(&out)
    } else {
        raw_date.to_owned()
    }
}

/// The transactions of the reference day and later, in their order.
pub open spec fn not_before(reference: Date) -> spec_fn(Transaction) -> bool {
    |t: Transaction| !earlier(t.date, reference)
}

/// The transactions of the reference day and later, in their order.
pub fn get_transactions_since(transactions: &[Transaction], reference: &Date) -> (r: Vec<
    Transaction,
>)
    ensures
        r@ == transactions@.filter(not_before(*reference)),
{
    let ghost keep = not_before(*reference);
    let mut kept: Vec<Transaction> = Vec::new();
    let mut i: usize = 0;
    proof {
        assert(transactions@.take(0) =~= Seq::<Transaction>::empty());
        Seq::<Transaction>::empty().lemma_filter_len(keep);
    }
    while i < transactions.len()
        invariant
            i <= transactions.len(),
            keep == not_before(*reference),
            kept@ == transactions@.take(i as int).filter(keep),
        decreases transactions.len() - i,
    {
        proof {
            transactions@.lemma_take_succ_push(i as int);
            transactions@.take(i as int).lemma_filter_push(transactions@[i as int], keep);
        }
        if !transactions[i].date.is_before(reference) {
            kept.push(transactions[i].duplicate());
        }
        i += 1;
    }
    proof {
        assert(transactions@.take(i as int) =~= transactions@);
    }
    kept
}

/// Where the dialogue stands.
#[derive(Clone, Copy, Debug, PartialEq, Eq, Structural)]
pub enum WizardState {
    /// A transaction is being entered.
    Entering,
    /// The transaction was shown and the user is asked whether to save it.
    AskedToSave,
    /// The transaction was saved and the user is asked whether to go on.
    AskedForAnother,
    /// The dialogue is over.
    Finished,
}

/// What has happened.
#[derive(Clone, Copy, Debug, PartialEq, Eq, Structural)]
pub enum WizardEvent {
    /// The user has entered a transaction.
    Entered,
    /// The user has answered yes or no.
    Answered(bool),
}

/// What to do next.
#[derive(Clone, Copy, Debug, PartialEq, Eq, Structural)]
pub enum WizardAction {
    /// Show the transaction and its possible duplicates, and ask whether to
    /// save it.
    ShowAndAskToSave,
    /// Save the transaction and ask whether to enter another.
    SaveAndAskForAnother,
    /// Say that another transaction is built instead, and have it entered.
    DiscardAndEnter,
    /// Have another transaction entered.
    Enter,
    /// Leave the dialogue.
    Leave,
    /// Nothing: the event does not belong to the state.
    Nothing,
}

/// The state and the action that follow an event.
pub open spec fn next_step(state: WizardState, event: WizardEvent) -> (WizardState, WizardAction) {
    match (state, event) {
        (WizardState::Entering, WizardEvent::Entered) => (
            WizardState::AskedToSave,
            WizardAction::ShowAndAskToSave,
        ),
        (WizardState::AskedToSave, WizardEvent::Answered(true)) => (
            WizardState::AskedForAnother,
            WizardAction::SaveAndAskForAnother,
        ),
        (WizardState::AskedToSave, WizardEvent::Answered(false)) => (
            WizardState::Entering,
            WizardAction::DiscardAndEnter,
        ),
        (WizardState::AskedForAnother, WizardEvent::Answered(true)) => (
            WizardState::Entering,
            WizardAction::Enter,
        ),
        (WizardState::AskedForAnother, WizardEvent::Answered(false)) => (
            WizardState::Finished,
            WizardAction::Leave,
        ),
        _ => (state, WizardAction::Nothing),
    }
}

pub struct Wizard {}

impl Wizard {
    /// The state and the action that follow an event.
    pub fn step(state: WizardState, event: WizardEvent) -> (r: (WizardState, WizardAction))
        ensures
            r == next_step(state, event),
    {
        match state {
            WizardState::Entering => match event {
                WizardEvent::Entered => (WizardState::AskedToSave, WizardAction::ShowAndAskToSave),
                WizardEvent::Answered(_) => (state, WizardAction::Nothing),
            },
            WizardState::AskedToSave => match event {
                WizardEvent::Answered(true) => (
                    WizardState::AskedForAnother,
                    WizardAction::SaveAndAskForAnother,
                ),
                WizardEvent::Answered(false) => (
                    WizardState::Entering,
                    WizardAction::DiscardAndEnter,
                ),
                WizardEvent::Entered => (state, WizardAction::Nothing),
            },
            WizardState::AskedForAnother => match event {
                WizardEvent::Answered(true) => (WizardState::Entering, WizardAction::Enter),
                WizardEvent::Answered(false) => (WizardState::Finished, WizardAction::Leave),
                WizardEvent::Entered => (state, WizardAction::Nothing),
            },
            WizardState::Finished => (state, WizardAction::Nothing),
        }
    }
}

/// The codes of the currencies that complete what was typed.
pub struct CurrentCompletion {
    pub options: Vec<String>,
}

/// How many of the options begin with the text.
pub open spec fn count_beginning_with(options: Seq<String>, start: Seq<char>) -> nat
    decreases options.len(),
{
    if options.len() == 0 {
        0
    } else {
        count_beginning_with(options.drop_last(), start) + if begins_with(options.last()@, start) {
            1nat
        } else {
            0nat
        }
    }
}

impl CurrentCompletion {
    /// The codes of the currencies that the library knows.
    pub fn new() -> (r: Self)
        ensures
            r.options@.map_values(|o: String| o@) == crate::currency::known_currencies().map_values(
                |c: crate::currency::CurrencyView| c.iso,
            ),
    {
        let all = crate::currency::all();
        let mut options: Vec<String> = Vec::new();
        let mut i: usize = 0;
        while i < all.len()
            invariant
                i <= all.len(),
                options.len() == i,
                forall|k: int| 0 <= k < i ==> (#[trigger] options@[k])@ == all@[k].iso@,
            decreases all.len() - i,
        {
            options.push(all[i].iso.clone());
            i += 1;
        }
        proof {
            let views = crate::currency::views_of(all@);
            assert(views.len() == all.len());
            assert forall|k: int| 0 <= k < all.len() implies views[k].iso == all@[k].iso@ by {}
            assert(options@.map_values(|o: String| o@) =~= crate::currency::known_currencies().map_values(
                |c: crate::currency::CurrencyView| c.iso,
            ));
        }
        CurrentCompletion { options }
    }

    /// The one option that begins with the text in upper case; none where
    /// no option or more than one begins with it.
    pub fn get(&self, input: &str) -> (r: Option<String>)
        ensures
            r is Some <==> count_beginning_with(self.options@, uppercase_of(input@)) == 1,
            r matches Some(found) ==> exists|i: int|
                0 <= i < self.options.len() && self.options@[i] == found && begins_with(
                    found@,
                    uppercase_of(input@),
                ),
    {
        let wanted = chars_of(to_uppercase(input).as_str());
        let mut count: usize = 0;
        let mut found: Option<String> = None;
        let mut i: usize = 0;
        proof {
            assert(self.options@.take(0) =~= Seq::<String>::empty());
        }
        while i < self.options.len()
            invariant
                i <= self.options.len(),
                count <= i,
                wanted@ == uppercase_of(input@),
                count == count_beginning_with(self.options@.take(i as int), wanted@),
                count > 0 ==> (found matches Some(f) && exists|k: int|
                    0 <= k < i && self.options@[k] == f && begins_with(f@, wanted@)),
            decreases self.options.len() - i,
        {
            proof {
                assert(self.options@.take(i + 1).drop_last() =~= self.options@.take(i as int));
                assert(self.options@.take(i + 1).last() == self.options@[i as int]);
            }
            if starts_with(&chars_of(self.options[i].as_str()), &wanted) {
                count += 1;
                found = Some(self.options[i].clone());
            }
            i += 1;
        }
        proof {
            assert(self.options@.take(i as int) =~= self.options@);
        }
        if count == 1 {
            found
        } else {
            None
        }
    }
}

} // verus!
