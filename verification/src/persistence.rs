//! What the store decides that needs no database.

use crate::error::Error;
use crate::text::same_text;
use vstd::prelude::*;
use vstd::string::StringExecFns;

verus! {

/// The text of the error for a database that cannot be written.
pub open spec fn readonly_text(path: Seq<char>) -> Seq<char> {
    "Attempt to write a readonly database "@ + path
}

/// The text of the error for a table that could not be created.
pub open spec fn create_tables_text(detail: Seq<char>) -> Seq<char> {
    "Error during database migration #create-tables: "@ + detail
}

/// The text of the error for a table that could not be filled.
pub open spec fn prefill_text(detail: Seq<char>) -> Seq<char> {
    "Error during database migration #prefill: "@ + detail
}

/// The error for tables that could not be created: one of the file where
/// the database reports the code 8, which it gives for a database that
/// cannot be written, and one of the store otherwise.
pub fn create_tables_error(code: Option<&str>, path: &str, detail: &str) -> (r: Error)
    ensures
        if code matches Some(c) && c@ == "8"@ {
            r matches Error::FileIO(m) && m@ == readonly_text(path@)
        } else {
            r matches Error::Persistence(m) && m@ == create_tables_text(detail@)
        },
{
    if let Some(c) = code {
        if same_text(c, "8") {
            return Error::FileIO(
                String::from_str("Attempt to write a readonly database ").concat(path),
            );
        }
    }
    Error::Persistence(
        String::from_str("Error during database migration #create-tables: ").concat(detail),
    )
}

/// The error for tables that could not be filled.
pub fn prefill_error(detail: &str) -> (r: Error)
    ensures
        r matches Error::Persistence(m) && m@ == prefill_text(detail@),
{
    Error::Persistence(
        String::from_str("Error during database migration #prefill: ").concat(detail),
    )
}

} // verus!
