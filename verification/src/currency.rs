//! Currencies: an ISO code and the symbol that is printed for it.

use crate::error::Error;
use crate::text::same_text;
use vstd::prelude::*;
use vstd::string::StringExecFns;

verus! {

/// A currency. Two currencies are the same when their codes are.
#[derive(Debug, Clone)]
pub struct Currency {
    pub iso: String,
    pub symbol: String,
}

/// What a currency is, as plain text.
pub struct CurrencyView {
    pub iso: Seq<char>,
    pub symbol: Seq<char>,
}

impl View for Currency {
    type V = CurrencyView;

    open spec fn view(&self) -> CurrencyView {
        CurrencyView { iso: self.iso@, symbol: self.symbol@ }
    }
}

/// The views of a list of currencies.
pub open spec fn views_of(list: Seq<Currency>) -> Seq<CurrencyView> {
    list.map_values(|c: Currency| c@)
}

impl PartialEq for Currency {
    fn eq(&self, other: &Self) -> (r: bool) {
        same_text(self.iso.as_str(), other.iso.as_str())
    }
}

impl vstd::std_specs::cmp::PartialEqSpecImpl for Currency {
    open spec fn obeys_eq_spec() -> bool {
        true
    }

    open spec fn eq_spec(&self, other: &Self) -> bool {
        self.iso@ == other.iso@
    }
}

/// The index of the first currency of `list` with the code `code`.
pub open spec fn first_with_code(list: Seq<CurrencyView>, code: Seq<char>) -> Option<int>
    decreases list.len(),
{
    if list.len() == 0 {
        None
    } else if list[0].iso == code {
        Some(0)
    } else {
        match first_with_code(list.drop_first(), code) {
            Some(i) => Some(i + 1),
            None => None,
        }
    }
}

/// The index of the first currency of `list` with the symbol `symbol`.
pub open spec fn first_with_symbol(list: Seq<CurrencyView>, symbol: Seq<char>) -> Option<int>
    decreases list.len(),
{
    if list.len() == 0 {
        None
    } else if list[0].symbol == symbol {
        Some(0)
    } else {
        match first_with_symbol(list.drop_first(), symbol) {
            Some(i) => Some(i + 1),
            None => None,
        }
    }
}

/// The currency that `input` names in `list`: the first with that code, or,
/// where no code matches, the first with that symbol.
pub open spec fn named_in(list: Seq<CurrencyView>, input: Seq<char>) -> Option<int> {
    match first_with_code(list, input) {
        Some(i) => Some(i),
        None => first_with_symbol(list, input),
    }
}

/// The text of the error for an input that names no currency.
pub open spec fn not_found_text(input: Seq<char>) -> Seq<char> {
    "Currency '"@ + input + "' not found"@
}

pub proof fn first_with_code_is_first(list: Seq<CurrencyView>, code: Seq<char>)
    ensures
        match first_with_code(list, code) {
            Some(i) => 0 <= i < list.len() && list[i].iso == code && forall|j: int|
                0 <= j < i ==> list[j].iso != code,
            None => forall|j: int| 0 <= j < list.len() ==> list[j].iso != code,
        },
    decreases list.len(),
{
    if list.len() != 0 && list[0].iso != code {
        first_with_code_is_first(list.drop_first(), code);
        let rest = list.drop_first();
        match first_with_code(rest, code) {
            Some(i) => {
                assert forall|j: int| 0 <= j < i + 1 implies list[j].iso != code by {
                    if j > 0 {
                        assert(list[j] == rest[j - 1]);
                    }
                }
            },
            None => {
                assert forall|j: int| 0 <= j < list.len() implies list[j].iso != code by {
                    if j > 0 {
                        assert(list[j] == rest[j - 1]);
                    }
                }
            },
        }
    }
}

pub proof fn first_with_symbol_is_first(list: Seq<CurrencyView>, symbol: Seq<char>)
    ensures
        match first_with_symbol(list, symbol) {
            Some(i) => 0 <= i < list.len() && list[i].symbol == symbol && forall|j: int|
                0 <= j < i ==> list[j].symbol != symbol,
            None => forall|j: int| 0 <= j < list.len() ==> list[j].symbol != symbol,
        },
    decreases list.len(),
{
    if list.len() != 0 && list[0].symbol != symbol {
        first_with_symbol_is_first(list.drop_first(), symbol);
        let rest = list.drop_first();
        match first_with_symbol(rest, symbol) {
            Some(i) => {
                assert forall|j: int| 0 <= j < i + 1 implies list[j].symbol != symbol by {
                    if j > 0 {
                        assert(list[j] == rest[j - 1]);
                    }
                }
            },
            None => {
                assert forall|j: int| 0 <= j < list.len() implies list[j].symbol != symbol by {
                    if j > 0 {
                        assert(list[j] == rest[j - 1]);
                    }
                }
            },
        }
    }
}

/// A first index is fixed by what holds at it and before it.
pub proof fn first_with_code_unique(list: Seq<CurrencyView>, code: Seq<char>, i: int)
    requires
        0 <= i < list.len(),
        list[i].iso == code,
        forall|j: int| 0 <= j < i ==> list[j].iso != code,
    ensures
        first_with_code(list, code) == Some(i),
{
    first_with_code_is_first(list, code);
}

pub proof fn first_with_symbol_unique(list: Seq<CurrencyView>, symbol: Seq<char>, i: int)
    requires
        0 <= i < list.len(),
        list[i].symbol == symbol,
        forall|j: int| 0 <= j < i ==> list[j].symbol != symbol,
    ensures
        first_with_symbol(list, symbol) == Some(i),
{
    first_with_symbol_is_first(list, symbol);
}

impl Currency {
    pub fn new(iso: &str, symbol: &str) -> (r: Self)
        ensures
            r.iso@ == iso@,
            r.symbol@ == symbol@,
    {
        Currency { iso: iso.to_owned(), symbol: symbol.to_owned() }
    }

    /// The currency in which all totals are stated.
    pub fn base() -> (r: Self)
        ensures
            r.iso@ == "EUR"@,
            r.symbol@ == "€"@,
    {
        Self::eur()
    }

    pub fn eur() -> (r: Self)
        ensures
            r.iso@ == "EUR"@,
            r.symbol@ == "€"@,
    {
        Currency::new("EUR", "€")
    }

    pub fn chf() -> (r: Self)
        ensures
            r.iso@ == "CHF"@,
            r.symbol@ == "CHF"@,
    {
        Currency::new("CHF", "CHF")
    }

    pub fn usd() -> (r: Self)
        ensures
            r.iso@ == "USD"@,
            r.symbol@ == "$"@,
    {
        Currency::new("USD", "$")
    }

    /// Whether this is the currency in which all totals are stated.
    pub open spec fn is_base(&self) -> bool {
        self.iso@ == "EUR"@
    }

    /// Whether both currencies have the same code.
    pub fn same_as(&self, other: &Currency) -> (r: bool)
        ensures
            r == (self.iso@ == other.iso@),
    {
        same_text(self.iso.as_str(), other.iso.as_str())
    }

    /// A copy with the same code and symbol.
    pub fn duplicate(&self) -> (r: Currency)
        ensures
            r == *self,
    {
        Currency { iso: self.iso.clone(), symbol: self.symbol.clone() }
    }

    /// The currency that `input` names among `list`, by code first and by
    /// symbol second.
    pub fn find_in(list: &Vec<Currency>, input: &str) -> (r: Option<Currency>)
        ensures
            match named_in(views_of(list@), input@) {
                Some(i) => 0 <= i < list.len() && r == Some(list@[i]),
                None => r is None,
            },
    {
        let mut i: usize = 0;
        while i < list.len()
            invariant
                i <= list.len(),
                forall|j: int| 0 <= j < i ==> list@[j].iso@ != input@,
            decreases list.len() - i,
        {
            if same_text(list[i].iso.as_str(), input) {
                proof {
                    first_with_code_unique(views_of(list@), input@, i as int);
                }
                return Some(list[i].duplicate());
            }
            i += 1;
        }
        proof {
            first_with_code_is_first(views_of(list@), input@);
        }
        let mut k: usize = 0;
        while k < list.len()
            invariant
                k <= list.len(),
                first_with_code(views_of(list@), input@) is None,
                forall|j: int| 0 <= j < k ==> list@[j].symbol@ != input@,
            decreases list.len() - k,
        {
            if same_text(list[k].symbol.as_str(), input) {
                proof {
                    first_with_symbol_unique(views_of(list@), input@, k as int);
                }
                return Some(list[k].duplicate());
            }
            k += 1;
        }
        proof {
            first_with_symbol_is_first(views_of(list@), input@);
        }
        None
    }

    /// Reads a currency from its code or its symbol.
    pub fn from_str(input: &str) -> (r: Result<Currency, Error>)
        ensures
            match named_in(known_currencies(), input@) {
                Some(i) => r matches Ok(c) && c@ == known_currencies()[i],
                None => r matches Err(Error::Parse(m)) && m@ == not_found_text(input@),
            },
    {
        let list = all();
        match Currency::find_in(&list, input) {
            Some(c) => Ok(c),
            None => {
                let text = String::from_str("Currency '").concat(input).concat("' not found");
                Err(Error::Parse(text))
            },
        }
    }
}

impl std::str::FromStr for Currency {
    type Err = Error;

    fn from_str(input: &str) -> (r: Result<Self, Error>) {
        Currency::from_str(input)
    }
}

/// The currencies that the library knows: the euro, the Swiss franc and the
/// US dollar, in that order.
pub open spec fn known_currencies() -> Seq<CurrencyView> {
    seq![
        CurrencyView { iso: "EUR"@, symbol: "€"@ },
        CurrencyView { iso: "CHF"@, symbol: "CHF"@ },
        CurrencyView { iso: "USD"@, symbol: "$"@ },
    ]
}

/// Every currency that the library knows.
pub fn all() -> (r: Vec<Currency>)
    ensures
        views_of(r@) == known_currencies(),
{
    let mut v: Vec<Currency> = Vec::new();
    v.push(Currency::eur());
    v.push(Currency::chf());
    v.push(Currency::usd());
    assert(views_of(v@) =~= known_currencies());
    v
}

} // verus!
