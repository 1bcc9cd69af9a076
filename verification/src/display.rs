//! What is shown of a transaction, as plain values: which amounts, the note
//! with its line breaks, and the colours of the categories.

use crate::currency::Currency;
use crate::text::{chars_of, found_at, occurs_at, text_of};
use crate::transaction::Transaction;
use crate::transaction_type::{TransactionType, NUMBER_OF_TYPES};
use vstd::prelude::*;

verus! {

/// A colour of the terminal.
#[derive(Clone, Copy, Debug, PartialEq, Eq, Structural)]
pub enum Paint {
    Green,
    Red,
    /// One of the 256 colours by its number.
    AnsiValue(u8),
    /// A colour by its parts.
    Rgb { r: u8, g: u8, b: u8 },
}

/// The text with every occurrence of `mark` replaced by `with`, from the
/// left and without overlap.
pub open spec fn replaced(text: Seq<char>, mark: Seq<char>, with: Seq<char>) -> Seq<char>
    decreases text.len(),
{
    if text.len() == 0 {
        Seq::empty()
    } else if mark.len() > 0 && occurs_at(text, mark, 0) {
        with + replaced(text.skip(mark.len() as int), mark, with)
    } else {
        seq![text[0]] + replaced(text.drop_first(), mark, with)
    }
}

/// The note as it is shown: every `<br />` starts a new line, which is
/// indented to stand below the first; the empty text without a note.
pub open spec fn shown_note(note: Option<String>) -> Seq<char> {
    match note {
        Some(n) => replaced(n@, "<br />"@, "\n              "@),
        None => Seq::empty(),
    }
}

/// The amounts of a transaction as they are shown: the amount as it was
/// paid, and behind it in brackets the base amount where the transaction
/// was paid in another currency and has one.
pub open spec fn shown_amounts(transaction: Transaction, base_code: Seq<char>) -> Seq<char> {
    if transaction.amount.currency.iso@ != base_code && transaction.base_amount is Some {
        transaction.amount.text() + " ("@ + transaction.base_amount->Some_0.text() + ")"@
    } else {
        transaction.amount.text()
    }
}

/// The number of the colour of a category among the 256 colours: seven for
/// every place in the order of the categories, from 124 on for the light
/// colour and from 0 on for the dark one.
pub open spec fn ansi_number(transaction_type: TransactionType, light: bool) -> int {
    if light {
        124 + 7 * transaction_type.position()
    } else {
        7 * transaction_type.position()
    }
}

/// Every occurrence of `mark` replaced by `with`.
pub fn replace(text: &Vec<char>, mark: &Vec<char>, with: &Vec<char>) -> (r: Vec<char>)
    ensures
        r@ == replaced(text@, mark@, with@),
{
    let mut out: Vec<char> = Vec::new();
    let mut i: usize = 0;
    proof {
        assert(text@.skip(0) =~= text@);
    }
    while i < text.len()
        invariant
            i <= text.len(),
            out@ + replaced(text@.skip(i as int), mark@, with@) == replaced(text@, mark@, with@),
        decreases text.len() - i,
    {
        let ghost rest = text@.skip(i as int);
        let ghost before = out@;
        let here: bool = mark.len() > 0 && found_at(text, mark, i);
        proof {
            if mark.len() > 0 && i + mark.len() <= text.len() {
                assert(rest.subrange(0, mark.len() as int) =~= text@.subrange(
                    i as int,
                    i + mark.len(),
                ));
            }
            assert(here == (mark.len() > 0 && occurs_at(rest, mark@, 0)));
        }
        if here {
            let mut k: usize = 0;
            while k < with.len()
                invariant
                    k <= with.len(),
                    out@ == before + with@.take(k as int),
                decreases with.len() - k,
            {
                out.push(with[k]);
                proof {
                    assert(with@.take(k + 1) =~= with@.take(k as int).push(with@[k as int]));
                    assert(before + with@.take(k as int).push(with@[k as int]) =~= (before
                        + with@.take(k as int)).push(with@[k as int]));
                }
                k += 1;
            }
            proof {
                assert(with@.take(k as int) =~= with@);
                assert(rest.skip(mark.len() as int) =~= text@.skip(i + mark.len()));
                assert((before + with@) + replaced(text@.skip(i + mark.len()), mark@, with@)
                    =~= before + (with@ + replaced(rest.skip(mark.len() as int), mark@, with@)));
            }
            i += mark.len();
        } else {
            out.push(text[i]);
            proof {
                assert(rest[0] == text@[i as int]);
                assert(rest.drop_first() =~= text@.skip(i + 1));
                assert(before.push(text@[i as int]) + replaced(text@.skip(i + 1), mark@, with@)
                    =~= before + (seq![rest[0]] + replaced(rest.drop_first(), mark@, with@)));
            }
            i += 1;
        }
    }
    proof {
        assert(text@.skip(i as int) =~= Seq::<char>::empty());
        assert(out@ + Seq::<char>::empty() =~= out@);
    }
    out
}

/// The note of a transaction as it is shown.
pub fn get_prepared_note(transaction: &Transaction) -> (r: String)
    ensures
        r@ == shown_note(transaction.note),
{
    match &transaction.note {
        Some(note) => text_of(
            &replace(
                &chars_of(note.as_str()),
                &chars_of("<br />"),
                &chars_of("\n              "),
            ),
        ),
        None => String::new(),
    }
}

/// The amounts of a transaction as they are shown.
pub fn amount_string(transaction: &Transaction, base_currency: &Currency) -> (r: String)
    ensures
        r@ == shown_amounts(*transaction, base_currency.iso@),
{
    if !transaction.amount.currency.same_as(base_currency) {
        if let Some(converted) = &transaction.base_amount {
            let mut out = chars_of(transaction.amount.to_text().as_str());
            let mut open = chars_of(" (");
            out.append(&mut open);
            let mut inner = chars_of(converted.to_text().as_str());
            out.append(&mut inner);
            let mut close = chars_of(")");
            out.append(&mut close);
            return text_of(&out);
        }
    }
    transaction.amount.to_text()
}

/// The colour that was chosen for a category: one of the 256 colours, or a
/// colour by its parts where the terminal shows all colours, each in a
/// light and a dark shade. None for the categories that no colour was
/// chosen for.
pub open spec fn chosen_color(transaction_type: TransactionType, light: bool, true_color: bool)
    -> Option<Paint> {
    if !true_color {
        if light {
            match transaction_type {
                TransactionType::Body => Some(Paint::AnsiValue(81)),
                TransactionType::Car => Some(Paint::AnsiValue(9)),
                TransactionType::Clothes => Some(Paint::AnsiValue(10)),
                TransactionType::Eat => Some(Paint::AnsiValue(11)),
                TransactionType::Gas => Some(Paint::AnsiValue(12)),
                TransactionType::Fun => Some(Paint::AnsiValue(13)),
                TransactionType::Health => Some(Paint::AnsiValue(14)),
                TransactionType::Home => Some(Paint::AnsiValue(73)),
                TransactionType::Telecommunication => Some(Paint::AnsiValue(27)),
                TransactionType::Donation => Some(Paint::AnsiValue(207)),
                TransactionType::Unknown => Some(Paint::AnsiValue(57)),
                _ => None,
            }
        } else {
            match transaction_type {
                TransactionType::Body => Some(Paint::AnsiValue(39)),
                TransactionType::Car => Some(Paint::AnsiValue(1)),
                TransactionType::Clothes => Some(Paint::AnsiValue(2)),
                TransactionType::Eat => Some(Paint::AnsiValue(3)),
                TransactionType::Gas => Some(Paint::AnsiValue(4)),
                TransactionType::Fun => Some(Paint::AnsiValue(5)),
                TransactionType::Health => Some(Paint::AnsiValue(6)),
                TransactionType::Home => Some(Paint::AnsiValue(17)),
                TransactionType::Telecommunication => Some(Paint::AnsiValue(17)),
                TransactionType::Donation => Some(Paint::AnsiValue(171)),
                TransactionType::Unknown => Some(Paint::AnsiValue(53)),
                _ => None,
            }
        }
    } else if light {
        match transaction_type {
            TransactionType::Body => Some(Paint::Rgb { r: 56, g: 255, b: 219 }),
            TransactionType::Car => Some(Paint::Rgb { r: 112, g: 255, b: 81 }),
            TransactionType::Clothes => Some(Paint::Rgb { r: 177, g: 255, b: 79 }),
            TransactionType::Eat => Some(Paint::Rgb { r: 225, g: 255, b: 79 }),
            TransactionType::Gas => Some(Paint::Rgb { r: 255, g: 237, b: 61 }),
            TransactionType::Fun => Some(Paint::Rgb { r: 255, g: 200, b: 53 }),
            TransactionType::Health => Some(Paint::Rgb { r: 255, g: 173, b: 45 }),
            TransactionType::Home => Some(Paint::Rgb { r: 255, g: 136, b: 126 }),
            TransactionType::Telecommunication => Some(Paint::Rgb { r: 255, g: 120, b: 186 }),
            TransactionType::Donation => Some(Paint::Rgb { r: 215, g: 151, b: 255 }),
            TransactionType::Unknown => Some(Paint::Rgb { r: 94, g: 228, b: 255 }),
            _ => None,
        }
    } else {
        match transaction_type {
            TransactionType::Body => Some(Paint::Rgb { r: 17, g: 204, b: 170 }),
            TransactionType::Car => Some(Paint::Rgb { r: 84, g: 189, b: 60 }),
            TransactionType::Clothes => Some(Paint::Rgb { r: 132, g: 189, b: 58 }),
            TransactionType::Eat => Some(Paint::Rgb { r: 167, g: 189, b: 58 }),
            TransactionType::Gas => Some(Paint::Rgb { r: 189, g: 174, b: 45 }),
            TransactionType::Fun => Some(Paint::Rgb { r: 189, g: 146, b: 40 }),
            TransactionType::Health => Some(Paint::Rgb { r: 189, g: 127, b: 34 }),
            TransactionType::Home => Some(Paint::Rgb { r: 189, g: 101, b: 94 }),
            TransactionType::Telecommunication => Some(Paint::Rgb { r: 189, g: 91, b: 140 }),
            TransactionType::Donation => Some(Paint::Rgb { r: 159, g: 113, b: 189 }),
            TransactionType::Unknown => Some(Paint::Rgb { r: 12, g: 170, b: 201 }),
            _ => None,
        }
    }
}

/// The colour that was chosen for a category.
pub fn color_for_type(transaction_type: TransactionType, light: bool, true_color: bool) -> (r:
    Option<Paint>)
    ensures
        r == chosen_color(transaction_type, light, true_color),
{
    if !true_color {
        if light {
            match transaction_type {
                TransactionType::Body => Some(Paint::AnsiValue(81)),
                TransactionType::Car => Some(Paint::AnsiValue(9)),
                TransactionType::Clothes => Some(Paint::AnsiValue(10)),
                TransactionType::Eat => Some(Paint::AnsiValue(11)),
                TransactionType::Gas => Some(Paint::AnsiValue(12)),
                TransactionType::Fun => Some(Paint::AnsiValue(13)),
                TransactionType::Health => Some(Paint::AnsiValue(14)),
                TransactionType::Home => Some(Paint::AnsiValue(73)),
                TransactionType::Telecommunication => Some(Paint::AnsiValue(27)),
                TransactionType::Donation => Some(Paint::AnsiValue(207)),
                TransactionType::Unknown => Some(Paint::AnsiValue(57)),
                _ => None,
            }
        } else {
            match transaction_type {
                TransactionType::Body => Some(Paint::AnsiValue(39)),
                TransactionType::Car => Some(Paint::AnsiValue(1)),
                TransactionType::Clothes => Some(Paint::AnsiValue(2)),
                TransactionType::Eat => Some(Paint::AnsiValue(3)),
                TransactionType::Gas => Some(Paint::AnsiValue(4)),
                TransactionType::Fun => Some(Paint::AnsiValue(5)),
                TransactionType::Health => Some(Paint::AnsiValue(6)),
                TransactionType::Home => Some(Paint::AnsiValue(17)),
                TransactionType::Telecommunication => Some(Paint::AnsiValue(17)),
                TransactionType::Donation => Some(Paint::AnsiValue(171)),
                TransactionType::Unknown => Some(Paint::AnsiValue(53)),
                _ => None,
            }
        }
    } else if light {
        match transaction_type {
            TransactionType::Body => Some(Paint::Rgb { r: 56, g: 255, b: 219 }),
            TransactionType::Car => Some(Paint::Rgb { r: 112, g: 255, b: 81 }),
            TransactionType::Clothes => Some(Paint::Rgb { r: 177, g: 255, b: 79 }),
            TransactionType::Eat => Some(Paint::Rgb { r: 225, g: 255, b: 79 }),
            TransactionType::Gas => Some(Paint::Rgb { r: 255, g: 237, b: 61 }),
            TransactionType::Fun => Some(Paint::Rgb { r: 255, g: 200, b: 53 }),
            TransactionType::Health => Some(Paint::Rgb { r: 255, g: 173, b: 45 }),
            TransactionType::Home => Some(Paint::Rgb { r: 255, g: 136, b: 126 }),
            TransactionType::Telecommunication => Some(Paint::Rgb { r: 255, g: 120, b: 186 }),
            TransactionType::Donation => Some(Paint::Rgb { r: 215, g: 151, b: 255 }),
            TransactionType::Unknown => Some(Paint::Rgb { r: 94, g: 228, b: 255 }),
            _ => None,
        }
    } else {
        match transaction_type {
            TransactionType::Body => Some(Paint::Rgb { r: 17, g: 204, b: 170 }),
            TransactionType::Car => Some(Paint::Rgb { r: 84, g: 189, b: 60 }),
            TransactionType::Clothes => Some(Paint::Rgb { r: 132, g: 189, b: 58 }),
            TransactionType::Eat => Some(Paint::Rgb { r: 167, g: 189, b: 58 }),
            TransactionType::Gas => Some(Paint::Rgb { r: 189, g: 174, b: 45 }),
            TransactionType::Fun => Some(Paint::Rgb { r: 189, g: 146, b: 40 }),
            TransactionType::Health => Some(Paint::Rgb { r: 189, g: 127, b: 34 }),
            TransactionType::Home => Some(Paint::Rgb { r: 189, g: 101, b: 94 }),
            TransactionType::Telecommunication => Some(Paint::Rgb { r: 189, g: 91, b: 140 }),
            TransactionType::Donation => Some(Paint::Rgb { r: 159, g: 113, b: 189 }),
            TransactionType::Unknown => Some(Paint::Rgb { r: 12, g: 170, b: 201 }),
            _ => None,
        }
    }
}

/// The colour of a category among the 256 colours.
pub fn ansi_color_for_type(transaction_type: TransactionType, light: bool) -> (r: Paint)
    ensures
        r == Paint::AnsiValue(ansi_number(transaction_type, light) as u8),
        0 <= ansi_number(transaction_type, light) <= 222,
{
    let difference: usize = (229 - 124) / NUMBER_OF_TYPES;
    let value: u8 = (difference * transaction_type.index()) as u8;
    if light {
        Paint::AnsiValue(124 + value)
    } else {
        Paint::AnsiValue(value)
    }
}

/// The colour of income: a green, by its parts where the terminal shows
/// all colours.
pub fn color_for_income(true_color: bool) -> (r: Paint)
    ensures
        r == if true_color {
            Paint::Rgb { r: 6, g: 168, b: 59 }
        } else {
            Paint::Green
        },
{
    if !true_color {
        Paint::Green
    } else {
        Paint::Rgb { r: 6, g: 168, b: 59 }
    }
}

/// The colour of expenses: a red, by its parts where the terminal shows
/// all colours.
pub fn color_for_expenses(true_color: bool) -> (r: Paint)
    ensures
        r == if true_color {
            Paint::Rgb { r: 232, g: 53, b: 32 }
        } else {
            Paint::Red
        },
{
    if !true_color {
        Paint::Red
    } else {
        Paint::Rgb { r: 232, g: 53, b: 32 }
    }
}

/// Whether the terminal shows all colours, from what its environment says
/// of it.
pub fn has_true_color_support(colorterm: Option<&str>) -> (r: bool)
    ensures
        r == (colorterm matches Some(v) && v@ == "truecolor"@),
{
    match colorterm {
        Some(v) => crate::text::same_text(v, "truecolor"),
        None => false,
    }
}

} // verus!
