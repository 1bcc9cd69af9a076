//! The errors that the library reports.

use vstd::prelude::*;
use vstd::string::StringExecFns;

verus! {

/// What went wrong, with the detail as text where there is one.
#[derive(Debug, Clone, PartialEq)]
pub enum Error {
    FileIO(String),
    Parse(String),
    Rate(String),
    General(String),
    LineEmpty,
    LineSeparator,
    LineComment,
    Persistence(String),
    Argument(String),
    Import(String),
}

pub type Res<T> = Result<T, Error>;

impl Error {
    /// The fixed name of the error's kind.
    pub fn description(&self) -> (r: &'static str)
        ensures
            r@ == self.description_text(),
    {
        match self {
            Error::FileIO(_) => "File IO error",
            Error::Parse(_) => "Parse Error",
            Error::General(_) => "General Error",
            Error::LineComment => "Line comment",
            Error::LineEmpty => "Line empty",
            Error::LineSeparator => "Line separator",
            Error::Rate(_) => "Rate Error",
            Error::Persistence(_) => "Persistence Error",
            Error::Argument(_) => "Argument Error",
            Error::Import(_) => "Import Error",
        }
    }

    pub open spec fn description_text(&self) -> Seq<char> {
        match self {
            Error::FileIO(_) => "File IO error"@,
            Error::Parse(_) => "Parse Error"@,
            Error::General(_) => "General Error"@,
            Error::LineComment => "Line comment"@,
            Error::LineEmpty => "Line empty"@,
            Error::LineSeparator => "Line separator"@,
            Error::Rate(_) => "Rate Error"@,
            Error::Persistence(_) => "Persistence Error"@,
            Error::Argument(_) => "Argument Error"@,
            Error::Import(_) => "Import Error"@,
        }
    }

    /// The detail of the error, where it has one.
    pub open spec fn detail(&self) -> Option<Seq<char>> {
        match self {
            Error::FileIO(s) => Some(s@),
            Error::Parse(s) => Some(s@),
            Error::Rate(s) => Some(s@),
            Error::General(s) => Some(s@),
            Error::Persistence(s) => Some(s@),
            Error::Argument(s) => Some(s@),
            Error::Import(s) => Some(s@),
            Error::LineEmpty => None,
            Error::LineSeparator => None,
            Error::LineComment => None,
        }
    }

    /// The error as it is shown: the name of its kind, and behind a colon
    /// its detail where it has one.
    pub open spec fn message_text(&self) -> Seq<char> {
        match self.detail() {
            Some(detail) => self.description_text() + ": "@ + detail,
            None => self.description_text(),
        }
    }

    /// The error as it is shown.
    pub fn message(&self) -> (r: String)
        ensures
            r@ == self.message_text(),
    {
        let name = String::from_str(self.description());
        match self {
            Error::FileIO(s) => name.concat(": ").concat(s.as_str()),
            Error::Parse(s) => name.concat(": ").concat(s.as_str()),
            Error::Rate(s) => name.concat(": ").concat(s.as_str()),
            Error::General(s) => name.concat(": ").concat(s.as_str()),
            Error::Persistence(s) => name.concat(": ").concat(s.as_str()),
            Error::Argument(s) => name.concat(": ").concat(s.as_str()),
            Error::Import(s) => name.concat(": ").concat(s.as_str()),
            Error::LineEmpty => name,
            Error::LineSeparator => name,
            Error::LineComment => name,
        }
    }

    /// An error of the file kind with the given detail.
    pub fn file_io(error: &str) -> (r: Self)
        ensures
            r matches Error::FileIO(s) && s@ == error@,
    {
        Error::FileIO(error.to_owned())
    }
}

} // verus!
