//! The categories of a transaction.

use crate::error::Error;
use crate::text::{same_text, to_uppercase, uppercase_of};
use vstd::prelude::*;

verus! {

/// How many categories there are, the unknown one included.
pub const NUMBER_OF_TYPES: usize = 15;

/// What a transaction was for.
#[derive(Clone, Copy, Debug, PartialEq, Eq, Hash, Structural)]
pub enum TransactionType {
    Body,
    Car,
    Clothes,
    Eat,
    Education,
    Gas,
    Fun,
    Health,
    Home,
    Telecommunication,
    Insurance,
    Donation,
    Tax,
    Banking,
    Unknown,
}

/// The category that an upper-case name stands for; the unknown one where
/// the name is no alias of any.
pub open spec fn category_of(upper: Seq<char>) -> TransactionType {
    if upper == "A"@ || upper == "CAR"@ || upper == "AUTO"@ {
        TransactionType::Car
    } else if upper == "B"@ || upper == "BODY"@ || upper == "COSMETICS"@ {
        TransactionType::Body
    } else if upper == "C"@ || upper == "K"@ || upper == "CLOTHES"@ || upper == "KLEIDUNG"@ {
        TransactionType::Clothes
    } else if upper == "E"@ || upper == "EAT"@ || upper == "ESSEN"@ {
        TransactionType::Eat
    } else if upper == "N"@ || upper == "EDUCATION"@ || upper == "AUSBILDUNG"@ {
        TransactionType::Education
    } else if upper == "F"@ || upper == "FUN"@ || upper == "HOBBY"@ {
        TransactionType::Fun
    } else if upper == "T"@ || upper == "GAS"@ || upper == "TANKEN"@ {
        TransactionType::Gas
    } else if upper == "G"@ || upper == "HEALTH"@ || upper == "GESUNDHEIT"@ {
        TransactionType::Health
    } else if upper == "D"@ || upper == "DONATION"@ || upper == "SPENDE"@ {
        TransactionType::Donation
    } else if upper == "I"@ || upper == "TELECOMMUNICATION"@ || upper == "INTERNET"@ || upper == "HANDY"@ || upper == "TV"@ {
        TransactionType::Telecommunication
    } else if upper == "S"@ || upper == "INSURANCE"@ || upper == "VERSICHERUNG"@ {
        TransactionType::Insurance
    } else if upper == "X"@ || upper == "TAX"@ || upper == "TAXES"@ || upper == "STEUERN"@ || upper == "STEUER"@ {
        TransactionType::Tax
    } else if upper == "H"@ || upper == "HOUSE"@ || upper == "HOME"@ {
        TransactionType::Home
    } else if upper == "J"@ || upper == "BANK"@ || upper == "BANKING"@ {
        TransactionType::Banking
    } else {
        TransactionType::Unknown
    }
}

/// Every category in its fixed order, the unknown one last.
pub open spec fn all_types() -> Seq<TransactionType> {
    seq![
        TransactionType::Body,
        TransactionType::Car,
        TransactionType::Clothes,
        TransactionType::Eat,
        TransactionType::Education,
        TransactionType::Gas,
        TransactionType::Fun,
        TransactionType::Health,
        TransactionType::Home,
        TransactionType::Telecommunication,
        TransactionType::Insurance,
        TransactionType::Donation,
        TransactionType::Tax,
        TransactionType::Banking,
        TransactionType::Unknown,
    ]
}

/// Every category but the unknown one, in the order in which they are
/// offered for choice.
pub open spec fn known_types() -> Seq<TransactionType> {
    seq![
        TransactionType::Body,
        TransactionType::Car,
        TransactionType::Clothes,
        TransactionType::Eat,
        TransactionType::Education,
        TransactionType::Gas,
        TransactionType::Fun,
        TransactionType::Health,
        TransactionType::Home,
        TransactionType::Insurance,
        TransactionType::Telecommunication,
        TransactionType::Donation,
        TransactionType::Tax,
        TransactionType::Banking,
    ]
}

impl TransactionType {
    /// The place of the category in the fixed order of `all_types`.
    pub open spec fn position(self) -> int {
        match self {
            TransactionType::Body => 0,
            TransactionType::Car => 1,
            TransactionType::Clothes => 2,
            TransactionType::Eat => 3,
            TransactionType::Education => 4,
            TransactionType::Gas => 5,
            TransactionType::Fun => 6,
            TransactionType::Health => 7,
            TransactionType::Home => 8,
            TransactionType::Telecommunication => 9,
            TransactionType::Insurance => 10,
            TransactionType::Donation => 11,
            TransactionType::Tax => 12,
            TransactionType::Banking => 13,
            TransactionType::Unknown => 14,
        }
    }

    /// The one-character identifier of the category.
    pub open spec fn identifier_char(self) -> char {
        match self {
            TransactionType::Body => 'B',
            TransactionType::Car => 'A',
            TransactionType::Clothes => 'C',
            TransactionType::Eat => 'E',
            TransactionType::Education => 'N',
            TransactionType::Gas => 'T',
            TransactionType::Fun => 'F',
            TransactionType::Health => 'G',
            TransactionType::Home => 'H',
            TransactionType::Telecommunication => 'I',
            TransactionType::Insurance => 'S',
            TransactionType::Donation => 'D',
            TransactionType::Tax => 'X',
            TransactionType::Banking => 'J',
            TransactionType::Unknown => 'U',
        }
    }

    /// The label of the category.
    pub open spec fn label(self) -> Seq<char> {
        match self {
            TransactionType::Body => "Body / Cosmetics"@,
            TransactionType::Car => "Car / Auto"@,
            TransactionType::Clothes => "Clothes / Kleidung"@,
            TransactionType::Eat => "Food / Essen"@,
            TransactionType::Education => "Education / Ausbildung"@,
            TransactionType::Gas => "Gas / Tanken"@,
            TransactionType::Fun => "Fun / Freunde / Hobby"@,
            TransactionType::Health => "Health / Gesundheit"@,
            TransactionType::Home => "Home / Haus"@,
            TransactionType::Telecommunication => "Internet / Handy / TV"@,
            TransactionType::Insurance => "Insurance / Versicherung"@,
            TransactionType::Donation => "Donation / Spende"@,
            TransactionType::Tax => "Tax / Steuer"@,
            TransactionType::Banking => "Bank / Banking"@,
            TransactionType::Unknown => "Diverse"@,
        }
    }

    /// Reads a category from free text, whatever its case.
    pub fn from_str(input: &str) -> (r: Self)
        ensures
            r == category_of(uppercase_of(input@)),
    {
        let upper = to_uppercase(input);
        TransactionType::from_uppercase(upper.as_str())
    }

    /// Reads a category from a name in upper case.
    pub fn from_uppercase(upper: &str) -> (r: Self)
        ensures
            r == category_of(upper@),
    {
        if same_text(upper, "A") || same_text(upper, "CAR") || same_text(upper, "AUTO") {
            TransactionType::Car
        } else if same_text(upper, "B") || same_text(upper, "BODY") || same_text(upper, "COSMETICS") {
            TransactionType::Body
        } else if same_text(upper, "C") || same_text(upper, "K") || same_text(upper, "CLOTHES") || same_text(upper, "KLEIDUNG") {
            TransactionType::Clothes
        } else if same_text(upper, "E") || same_text(upper, "EAT") || same_text(upper, "ESSEN") {
            TransactionType::Eat
        } else if same_text(upper, "N") || same_text(upper, "EDUCATION") || same_text(upper, "AUSBILDUNG") {
            TransactionType::Education
        } else if same_text(upper, "F") || same_text(upper, "FUN") || same_text(upper, "HOBBY") {
            TransactionType::Fun
        } else if same_text(upper, "T") || same_text(upper, "GAS") || same_text(upper, "TANKEN") {
            TransactionType::Gas
        } else if same_text(upper, "G") || same_text(upper, "HEALTH") || same_text(upper, "GESUNDHEIT") {
            TransactionType::Health
        } else if same_text(upper, "D") || same_text(upper, "DONATION") || same_text(upper, "SPENDE") {
            TransactionType::Donation
        } else if same_text(upper, "I") || same_text(upper, "TELECOMMUNICATION") || same_text(upper, "INTERNET") || same_text(upper, "HANDY") || same_text(upper, "TV") {
            TransactionType::Telecommunication
        } else if same_text(upper, "S") || same_text(upper, "INSURANCE") || same_text(upper, "VERSICHERUNG") {
            TransactionType::Insurance
        } else if same_text(upper, "X") || same_text(upper, "TAX") || same_text(upper, "TAXES") || same_text(upper, "STEUERN") || same_text(upper, "STEUER") {
            TransactionType::Tax
        } else if same_text(upper, "H") || same_text(upper, "HOUSE") || same_text(upper, "HOME") {
            TransactionType::Home
        } else if same_text(upper, "J") || same_text(upper, "BANK") || same_text(upper, "BANKING") {
            TransactionType::Banking
        } else {
            TransactionType::Unknown
        }
    }

    pub fn identifier(&self) -> (r: char)
        ensures
            r == self.identifier_char(),
    {
        match self {
            TransactionType::Body => 'B',
            TransactionType::Car => 'A',
            TransactionType::Clothes => 'C',
            TransactionType::Eat => 'E',
            TransactionType::Education => 'N',
            TransactionType::Gas => 'T',
            TransactionType::Fun => 'F',
            TransactionType::Health => 'G',
            TransactionType::Home => 'H',
            TransactionType::Telecommunication => 'I',
            TransactionType::Insurance => 'S',
            TransactionType::Donation => 'D',
            TransactionType::Tax => 'X',
            TransactionType::Banking => 'J',
            TransactionType::Unknown => 'U',
        }
    }

    /// The category with the given identifier, where there is one.
    pub fn from_identifier(c: char) -> (r: Option<Self>)
        ensures
            match r {
                Some(t) => t.identifier_char() == c,
                None => forall|t: TransactionType| t.identifier_char() != c,
            },
    {
        if c == 'B' {
            Some(TransactionType::Body)
        } else if c == 'A' {
            Some(TransactionType::Car)
        } else if c == 'C' {
            Some(TransactionType::Clothes)
        } else if c == 'E' {
            Some(TransactionType::Eat)
        } else if c == 'N' {
            Some(TransactionType::Education)
        } else if c == 'T' {
            Some(TransactionType::Gas)
        } else if c == 'F' {
            Some(TransactionType::Fun)
        } else if c == 'G' {
            Some(TransactionType::Health)
        } else if c == 'H' {
            Some(TransactionType::Home)
        } else if c == 'I' {
            Some(TransactionType::Telecommunication)
        } else if c == 'S' {
            Some(TransactionType::Insurance)
        } else if c == 'D' {
            Some(TransactionType::Donation)
        } else if c == 'X' {
            Some(TransactionType::Tax)
        } else if c == 'J' {
            Some(TransactionType::Banking)
        } else if c == 'U' {
            Some(TransactionType::Unknown)
        } else {
            None
        }
    }

    /// The place of the category in the fixed order of `all`.
    pub fn index(&self) -> (r: usize)
        ensures
            r == self.position(),
            r < NUMBER_OF_TYPES,
            all_types()[r as int] == *self,
    {
        match self {
            TransactionType::Body => 0,
            TransactionType::Car => 1,
            TransactionType::Clothes => 2,
            TransactionType::Eat => 3,
            TransactionType::Education => 4,
            TransactionType::Gas => 5,
            TransactionType::Fun => 6,
            TransactionType::Health => 7,
            TransactionType::Home => 8,
            TransactionType::Telecommunication => 9,
            TransactionType::Insurance => 10,
            TransactionType::Donation => 11,
            TransactionType::Tax => 12,
            TransactionType::Banking => 13,
            TransactionType::Unknown => 14,
        }
    }

    /// Every category except the unknown one.
    pub fn all_known() -> (r: [TransactionType; 14])
        ensures
            r@ == known_types(),
    {
        let r = [
            TransactionType::Body,
            TransactionType::Car,
            TransactionType::Clothes,
            TransactionType::Eat,
            TransactionType::Education,
            TransactionType::Gas,
            TransactionType::Fun,
            TransactionType::Health,
            TransactionType::Home,
            TransactionType::Insurance,
            TransactionType::Telecommunication,
            TransactionType::Donation,
            TransactionType::Tax,
            TransactionType::Banking,
        ];
        assert(r@ =~= known_types());
        r
    }

    /// Every category, the unknown one included.
    pub fn all() -> (r: [TransactionType; 15])
        ensures
            r@ == all_types(),
    {
        let r = [
            TransactionType::Body,
            TransactionType::Car,
            TransactionType::Clothes,
            TransactionType::Eat,
            TransactionType::Education,
            TransactionType::Gas,
            TransactionType::Fun,
            TransactionType::Health,
            TransactionType::Home,
            TransactionType::Telecommunication,
            TransactionType::Insurance,
            TransactionType::Donation,
            TransactionType::Tax,
            TransactionType::Banking,
            TransactionType::Unknown,
        ];
        assert(r@ =~= all_types());
        r
    }

    pub fn to_str(self) -> (r: &'static str)
        ensures
            r@ == self.label(),
    {
        match self {
            TransactionType::Body => "Body / Cosmetics",
            TransactionType::Car => "Car / Auto",
            TransactionType::Clothes => "Clothes / Kleidung",
            TransactionType::Eat => "Food / Essen",
            TransactionType::Education => "Education / Ausbildung",
            TransactionType::Gas => "Gas / Tanken",
            TransactionType::Fun => "Fun / Freunde / Hobby",
            TransactionType::Health => "Health / Gesundheit",
            TransactionType::Home => "Home / Haus",
            TransactionType::Telecommunication => "Internet / Handy / TV",
            TransactionType::Insurance => "Insurance / Versicherung",
            TransactionType::Donation => "Donation / Spende",
            TransactionType::Tax => "Tax / Steuer",
            TransactionType::Banking => "Bank / Banking",
            TransactionType::Unknown => "Diverse",
        }
    }
}

impl std::str::FromStr for TransactionType {
    type Err = Error;

    fn from_str(s: &str) -> (r: Result<Self, Error>) {
        Ok(TransactionType::from_str(s))
    }
}

/// Every category stands in `all_types` once, at its position.
pub proof fn all_types_is_complete(t: TransactionType)
    ensures
        0 <= t.position() < all_types().len(),
        all_types()[t.position()] == t,
        all_types().len() == NUMBER_OF_TYPES,
        forall|i: int| 0 <= i < all_types().len() ==> (#[trigger] all_types()[i]).position() == i,
{
}

/// The unknown category is no member of `known_types`, and every other one is.
pub proof fn known_types_leaves_unknown_out(t: TransactionType)
    ensures
        known_types().contains(t) <==> t != TransactionType::Unknown,
{
    let k = known_types();
    if t != TransactionType::Unknown {
        let i: int = match t {
            TransactionType::Body => 0,
            TransactionType::Car => 1,
            TransactionType::Clothes => 2,
            TransactionType::Eat => 3,
            TransactionType::Education => 4,
            TransactionType::Gas => 5,
            TransactionType::Fun => 6,
            TransactionType::Health => 7,
            TransactionType::Home => 8,
            TransactionType::Insurance => 9,
            TransactionType::Telecommunication => 10,
            TransactionType::Donation => 11,
            TransactionType::Tax => 12,
            TransactionType::Banking => 13,
            TransactionType::Unknown => 0,
        };
        assert(k[i] == t);
    }
}

} // verus!
