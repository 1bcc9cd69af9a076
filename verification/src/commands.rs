//! What the commands decide before and after they read and write.

use crate::error::Error;
use crate::text::same_text;
use crate::transaction::Transaction;
use crate::transaction_type::{known_types, TransactionType};
use vstd::prelude::*;
use vstd::string::StringExecFns;

verus! {

/// From what an import reads.
#[derive(Clone, Copy, Debug, PartialEq, Eq, Structural)]
pub enum ImportKind {
    Json,
    Markdown,
}

/// The line that tells of a category: a hyphen, the identifier, a colon
/// and the label.
pub open spec fn type_line(transaction_type: TransactionType) -> Seq<char> {
    "- "@ + seq![transaction_type.identifier_char()] + ": "@ + transaction_type.label()
}

/// The lines that tell of the categories to choose from, one for each.
pub fn show_types() -> (r: Vec<String>)
    ensures
        r.len() == known_types().len(),
        forall|i: int| 0 <= i < r.len() ==> (#[trigger] r@[i])@ == type_line(known_types()[i]),
{
    let all = TransactionType::all_known();
    let mut lines: Vec<String> = Vec::new();
    let mut i: usize = 0;
    while i < all.len()
        invariant
            i <= all.len(),
            all@ == known_types(),
            lines.len() == i,
            forall|k: int| 0 <= k < i ==> (#[trigger] lines@[k])@ == type_line(known_types()[k]),
        decreases all.len() - i,
    {
        let mut line = String::from_str("- ");
        line.push(all[i].identifier());
        line.append(": ");
        line.append(all[i].to_str());
        proof {
            assert(line@ =~= type_line(known_types()[i as int]));
        }
        lines.push(line);
        i += 1;
    }
    lines
}

/// The text of the error for a file of a kind that no import reads.
pub open spec fn no_parser_text(extension: Seq<char>) -> Seq<char> {
    "No parser to import "@ + extension + " files"@
}

/// The text of the error for a file without an extension.
pub open spec fn no_extension_text(path: Seq<char>) -> Seq<char> {
    "Could not detect the extension of file path "@ + path
}

/// From what to import a file, by its extension.
pub fn import_kind(extension: Option<&str>, path: &str) -> (r: Result<ImportKind, Error>)
    ensures
        match extension {
            Some(e) => if e@ == "json"@ {
                r == Ok::<ImportKind, Error>(ImportKind::Json)
            } else if e@ == "md"@ {
                r == Ok::<ImportKind, Error>(ImportKind::Markdown)
            } else {
                r matches Err(Error::Import(m)) && m@ == no_parser_text(e@)
            },
            None => r matches Err(Error::Import(m)) && m@ == no_extension_text(path@),
        },
{
    match extension {
        Some(e) => {
            if same_text(e, "json") {
                Ok(ImportKind::Json)
            } else if same_text(e, "md") {
                Ok(ImportKind::Markdown)
            } else {
                Err(
                    Error::Import(
                        String::from_str("No parser to import ").concat(e).concat(" files"),
                    ),
                )
            }
        },
        None => Err(
            Error::Import(
                String::from_str("Could not detect the extension of file path ").concat(path),
            ),
        ),
    }
}

/// Whether a transaction is of the month with the given number.
pub open spec fn of_month(month: u32) -> spec_fn(Transaction) -> bool {
    |t: Transaction| t.date.month == month
}

/// The transactions of one month of the year, in their order.
pub fn transactions_of_month(all_transactions: &[Transaction], month: u32) -> (r: Vec<
    Transaction,
>)
    ensures
        r@ == all_transactions@.filter(of_month(month)),
{
    let ghost keep = of_month(month);
    let mut kept: Vec<Transaction> = Vec::new();
    let mut i: usize = 0;
    proof {
        assert(all_transactions@.take(0) =~= Seq::<Transaction>::empty());
        Seq::<Transaction>::empty().lemma_filter_len(keep);
    }
    while i < all_transactions.len()
        invariant
            i <= all_transactions.len(),
            keep == of_month(month),
            kept@ == all_transactions@.take(i as int).filter(keep),
        decreases all_transactions.len() - i,
    {
        proof {
            all_transactions@.lemma_take_succ_push(i as int);
            all_transactions@.take(i as int).lemma_filter_push(all_transactions@[i as int], keep);
        }
        if all_transactions[i].date.month == month {
            kept.push(all_transactions[i].duplicate());
        }
        i += 1;
    }
    proof {
        assert(all_transactions@.take(i as int) =~= all_transactions@);
    }
    kept
}

/// How many records of an import were stored and how many were not.
#[derive(Clone, Copy, Debug, PartialEq, Eq, Structural)]
pub struct ImportCount {
    pub successful: usize,
    pub failed: usize,
}

/// How many of the outcomes are true.
pub open spec fn count_stored(outcomes: Seq<bool>) -> nat
    decreases outcomes.len(),
{
    if outcomes.len() == 0 {
        0
    } else {
        count_stored(outcomes.drop_last()) + if outcomes.last() {
            1nat
        } else {
            0nat
        }
    }
}

/// The count of an import from the outcome of each record: whether it was
/// stored.
pub fn count_imports(outcomes: &Vec<bool>) -> (r: ImportCount)
    ensures
        r.successful == count_stored(outcomes@),
        r.successful + r.failed == outcomes.len(),
{
    let mut count = ImportCount { successful: 0, failed: 0 };
    let mut i: usize = 0;
    proof {
        assert(outcomes@.take(0) =~= Seq::<bool>::empty());
    }
    while i < outcomes.len()
        invariant
            i <= outcomes.len(),
            count.successful == count_stored(outcomes@.take(i as int)),
            count.successful + count.failed == i,
        decreases outcomes.len() - i,
    {
        proof {
            assert(outcomes@.take(i + 1).drop_last() =~= outcomes@.take(i as int));
        }
        if outcomes[i] {
            count.successful = count.successful + 1;
        } else {
            count.failed = count.failed + 1;
        }
        i += 1;
    }
    proof {
        assert(outcomes@.take(i as int) =~= outcomes@);
    }
    count
}

} // verus!
