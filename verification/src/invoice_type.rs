//! The categories of an invoice.

use crate::error::Error;
use crate::text::{same_text, to_uppercase, uppercase_of};
use vstd::prelude::*;

verus! {

/// What an invoice was for.
#[derive(Clone, Copy, Debug, PartialEq, Eq, Hash, Structural)]
pub enum InvoiceType {
    Car,
    Clothes,
    Eat,
    Gas,
    Fun,
    Health,
    Home,
    Telecommunication,
    Unknown,
}

/// The category that an upper-case name stands for; the unknown one where
/// the name is no alias of any.
pub open spec fn invoice_category_of(upper: Seq<char>) -> InvoiceType {
    if upper == "A"@ || upper == "CAR"@ || upper == "AUTO"@ {
        InvoiceType::Car
    } else if upper == "C"@ || upper == "K"@ || upper == "CLOTHES"@ || upper == "BODY"@ || upper == "KLEIDUNG"@ {
        InvoiceType::Clothes
    } else if upper == "E"@ || upper == "EAT"@ || upper == "ESSEN"@ {
        InvoiceType::Eat
    } else if upper == "F"@ || upper == "FUN"@ || upper == "HOBBY"@ {
        InvoiceType::Fun
    } else if upper == "T"@ || upper == "GAS"@ || upper == "TANKEN"@ {
        InvoiceType::Gas
    } else if upper == "G"@ || upper == "HEALTH"@ || upper == "GESUNDHEIT"@ {
        InvoiceType::Health
    } else if upper == "H"@ || upper == "HOME"@ || upper == "HAUS"@ {
        InvoiceType::Home
    } else if upper == "I"@ || upper == "TELECOMMUNICATION"@ || upper == "INTERNET"@ || upper == "HANDY"@ || upper == "TV"@ {
        InvoiceType::Telecommunication
    } else {
        InvoiceType::Unknown
    }
}

/// Every category in its fixed order, the unknown one last.
pub open spec fn all_invoice_types() -> Seq<InvoiceType> {
    seq![
        InvoiceType::Car,
        InvoiceType::Clothes,
        InvoiceType::Eat,
        InvoiceType::Gas,
        InvoiceType::Fun,
        InvoiceType::Health,
        InvoiceType::Home,
        InvoiceType::Telecommunication,
        InvoiceType::Unknown,
    ]
}

impl InvoiceType {
    /// The one-character identifier of the category.
    pub open spec fn identifier_char(self) -> char {
        match self {
            InvoiceType::Car => 'A',
            InvoiceType::Clothes => 'C',
            InvoiceType::Eat => 'E',
            InvoiceType::Gas => 'T',
            InvoiceType::Fun => 'F',
            InvoiceType::Health => 'G',
            InvoiceType::Home => 'H',
            InvoiceType::Telecommunication => 'I',
            InvoiceType::Unknown => 'U',
        }
    }

    /// The label of the category.
    pub open spec fn label(self) -> Seq<char> {
        match self {
            InvoiceType::Car => "Car / Auto"@,
            InvoiceType::Clothes => "Clothes / Kleidung"@,
            InvoiceType::Eat => "Food / Essen"@,
            InvoiceType::Gas => "Gas / Tanken"@,
            InvoiceType::Fun => "Fun / Freunde / Hobby"@,
            InvoiceType::Health => "Health / Gesundheit"@,
            InvoiceType::Home => "Home / Hause"@,
            InvoiceType::Telecommunication => "Internet / Handy / TV"@,
            InvoiceType::Unknown => "Diverse"@,
        }
    }

    /// Reads a category from free text, whatever its case.
    pub fn from_str(input: &str) -> (r: Self)
        ensures
            r == invoice_category_of(uppercase_of(input@)),
    {
        let upper = to_uppercase(input);
        InvoiceType::from_uppercase(upper.as_str())
    }

    /// Reads a category from a name in upper case.
    pub fn from_uppercase(upper: &str) -> (r: Self)
        ensures
            r == invoice_category_of(upper@),
    {
        if same_text(upper, "A") || same_text(upper, "CAR") || same_text(upper, "AUTO") {
            InvoiceType::Car
        } else if same_text(upper, "C") || same_text(upper, "K") || same_text(upper, "CLOTHES") || same_text(upper, "BODY") || same_text(upper, "KLEIDUNG") {
            InvoiceType::Clothes
        } else if same_text(upper, "E") || same_text(upper, "EAT") || same_text(upper, "ESSEN") {
            InvoiceType::Eat
        } else if same_text(upper, "F") || same_text(upper, "FUN") || same_text(upper, "HOBBY") {
            InvoiceType::Fun
        } else if same_text(upper, "T") || same_text(upper, "GAS") || same_text(upper, "TANKEN") {
            InvoiceType::Gas
        } else if same_text(upper, "G") || same_text(upper, "HEALTH") || same_text(upper, "GESUNDHEIT") {
            InvoiceType::Health
        } else if same_text(upper, "H") || same_text(upper, "HOME") || same_text(upper, "HAUS") {
            InvoiceType::Home
        } else if same_text(upper, "I") || same_text(upper, "TELECOMMUNICATION") || same_text(upper, "INTERNET") || same_text(upper, "HANDY") || same_text(upper, "TV") {
            InvoiceType::Telecommunication
        } else {
            InvoiceType::Unknown
        }
    }

    pub fn identifier(&self) -> (r: char)
        ensures
            r == self.identifier_char(),
    {
        match self {
            InvoiceType::Car => 'A',
            InvoiceType::Clothes => 'C',
            InvoiceType::Eat => 'E',
            InvoiceType::Gas => 'T',
            InvoiceType::Fun => 'F',
            InvoiceType::Health => 'G',
            InvoiceType::Home => 'H',
            InvoiceType::Telecommunication => 'I',
            InvoiceType::Unknown => 'U',
        }
    }

    /// Every category except the unknown one.
    pub fn all_known() -> (r: [InvoiceType; 8])
        ensures
            r@ == all_invoice_types().drop_last(),
    {
        let r = [
            InvoiceType::Car,
            InvoiceType::Clothes,
            InvoiceType::Eat,
            InvoiceType::Gas,
            InvoiceType::Fun,
            InvoiceType::Health,
            InvoiceType::Home,
            InvoiceType::Telecommunication,
        ];
        assert(r@ =~= all_invoice_types().drop_last());
        r
    }

    /// Every category, the unknown one included.
    pub fn all() -> (r: [InvoiceType; 9])
        ensures
            r@ == all_invoice_types(),
    {
        let r = [
            InvoiceType::Car,
            InvoiceType::Clothes,
            InvoiceType::Eat,
            InvoiceType::Gas,
            InvoiceType::Fun,
            InvoiceType::Health,
            InvoiceType::Home,
            InvoiceType::Telecommunication,
            InvoiceType::Unknown,
        ];
        assert(r@ =~= all_invoice_types());
        r
    }

    pub fn to_str(self) -> (r: &'static str)
        ensures
            r@ == self.label(),
    {
        match self {
            InvoiceType::Car => "Car / Auto",
            InvoiceType::Clothes => "Clothes / Kleidung",
            InvoiceType::Eat => "Food / Essen",
            InvoiceType::Gas => "Gas / Tanken",
            InvoiceType::Fun => "Fun / Freunde / Hobby",
            InvoiceType::Health => "Health / Gesundheit",
            InvoiceType::Home => "Home / Hause",
            InvoiceType::Telecommunication => "Internet / Handy / TV",
            InvoiceType::Unknown => "Diverse",
        }
    }
}

impl std::str::FromStr for InvoiceType {
    type Err = Error;

    fn from_str(s: &str) -> (r: Result<Self, Error>) {
        Ok(InvoiceType::from_str(s))
    }
}

} // verus!
