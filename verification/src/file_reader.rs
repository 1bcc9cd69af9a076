//! Reading the rows of a table that is written with `|` between its cells.

use crate::error::Error;
use crate::import::{failures, successes};
use crate::text::{
    begins_with, chars_of, split, split_by, starts_with, strip, stripped, text_of, trimmed, Strip,
};
use vstd::prelude::*;

verus! {

/// The cells of one row.
pub type LineParts = Vec<String>;

/// The rows that were read, without the header, and the errors of the lines
/// that are no rows.
pub struct ReadFileResult {
    pub lines: Vec<LineParts>,
    pub errors: Vec<Error>,
}

pub struct FileReader {}

/// The error of the operating system for a line that could not be read.
#[verifier::external_type_specification]
#[verifier::external_body]
pub struct ExIoError(std::io::Error);

/// Calls the `Display` impl of `std::io::Error`. Nothing is claimed of the
/// text.
#[verifier::external_body]
pub(crate) fn io_error_text(error: &std::io::Error) -> (r: String) {
    error.to_string()
}

/// What a line of the file is.
pub enum LineKind {
    /// A quotation or the start of a comment.
    Comment,
    /// The rule below the header, or any other line of hyphens.
    Separator,
    /// Nothing but white space and bars.
    Empty,
    /// A row, with its cells.
    Parts(Seq<Seq<char>>),
}

/// The line without white space at its ends and then without bars at its
/// ends.
pub open spec fn line_body(line: Seq<char>) -> Seq<char> {
    stripped(trimmed(line), Strip::Character('|'))
}

/// The cells of a row: what stands between the bars, without white space at
/// the ends.
pub open spec fn cells_of(body: Seq<char>) -> Seq<Seq<char>> {
    split_by(body, '|').map_values(|cell: Seq<char>| trimmed(cell))
}

/// Whether one of the cells begins with two hyphens.
pub open spec fn has_rule(cells: Seq<Seq<char>>) -> bool {
    exists|i: int| 0 <= i < cells.len() && begins_with(#[trigger] cells[i], "--"@)
}

/// What the body of a line is, once it is known to be no comment, no rule
/// and not empty.
pub open spec fn row_kind(body: Seq<char>) -> LineKind {
    if has_rule(cells_of(body)) {
        LineKind::Separator
    } else {
        LineKind::Parts(cells_of(body))
    }
}

/// What a line is.
pub open spec fn line_kind(line: Seq<char>) -> LineKind {
    let body = line_body(line);
    if begins_with(body, ">"@) || begins_with(body, "<!--"@) {
        LineKind::Comment
    } else if begins_with(body, "--"@) {
        LineKind::Separator
    } else if body.len() == 0 {
        LineKind::Empty
    } else {
        row_kind(body)
    }
}

/// The texts of the cells.
pub open spec fn cells_view(cells: Seq<String>) -> Seq<Seq<char>> {
    cells.map_values(|cell: String| cell@)
}

/// Whether the result is what the kind of a line asks for.
pub open spec fn reports(r: Result<LineParts, Error>, kind: LineKind) -> bool {
    match kind {
        LineKind::Comment => r == Err::<LineParts, Error>(Error::LineComment),
        LineKind::Separator => r == Err::<LineParts, Error>(Error::LineSeparator),
        LineKind::Empty => r == Err::<LineParts, Error>(Error::LineEmpty),
        LineKind::Parts(cells) => r matches Ok(parts) && cells_view(parts@) == cells,
    }
}

impl FileReader {
    /// The cells of a line, or what the line is instead of a row. A line
    /// that could not be read is an error of the file.
    pub fn read_line(line: Result<String, std::io::Error>) -> (r: Result<LineParts, Error>)
        ensures
            match line {
                Ok(text) => reports(r, line_kind(text@)),
                Err(_) => r matches Err(Error::FileIO(_)),
            },
    {
        match line {
            Ok(ref l) => {
                let outer = strip(&chars_of(l.as_str()), Strip::Whitespace);
                let body = strip(&outer, Strip::Character('|'));
                if starts_with(&body, &chars_of(">")) || starts_with(&body, &chars_of("<!--")) {
                    Err(Error::LineComment)
                } else if starts_with(&body, &chars_of("--")) {
                    Err(Error::LineSeparator)
                } else if body.len() == 0 {
                    Err(Error::LineEmpty)
                } else {
                    FileReader::check_line_parts(text_of(&body))
                }
            },
            Err(ref e) => Err(Error::FileIO(io_error_text(e))),
        }
    }

    /// The cells of the body of a line; a rule where one of them begins with
    /// two hyphens.
    pub fn check_line_parts(body: String) -> (r: Result<LineParts, Error>)
        ensures
            reports(r, row_kind(body@)),
    {
        let pieces = split(&chars_of(body.as_str()), '|');
        let rule = chars_of("--");
        let ghost cells = cells_of(body@);
        proof {
            assert(cells.len() == pieces.len()) by {
                assert(crate::text::parts_view(pieces@).len() == pieces.len());
            }
            assert forall|k: int| 0 <= k < pieces.len() implies #[trigger] cells[k] == stripped(
                pieces@[k]@,
                Strip::Whitespace,
            ) by {
                assert(crate::text::parts_view(pieces@)[k] == pieces@[k]@);
            }
        }
        let mut parts: Vec<String> = Vec::new();
        let mut ruled: bool = false;
        let mut i: usize = 0;
        while i < pieces.len()
            invariant
                i <= pieces.len(),
                rule@ == "--"@,
                cells == cells_of(body@),
                cells.len() == pieces.len(),
                forall|k: int|
                    0 <= k < pieces.len() ==> #[trigger] cells[k] == stripped(
                        pieces@[k]@,
                        Strip::Whitespace,
                    ),
                parts.len() == i,
                forall|k: int| 0 <= k < i ==> (#[trigger] parts@[k])@ == cells[k],
                ruled ==> has_rule(cells),
                !ruled ==> forall|k: int| 0 <= k < i ==> !begins_with(#[trigger] cells[k], "--"@),
            decreases pieces.len() - i,
        {
            let cell = strip(&pieces[i], Strip::Whitespace);
            if starts_with(&cell, &rule) {
                ruled = true;
                proof {
                    assert(begins_with(cells[i as int], "--"@));
                }
            }
            parts.push(text_of(&cell));
            i += 1;
        }
        if ruled {
            Err(Error::LineSeparator)
        } else {
            proof {
                assert(cells_view(parts@) =~= cells);
            }
            Ok(parts)
        }
    }

    /// What `read_line` makes of every line, in the order of the lines.
    pub fn read_lines(lines: Vec<Result<String, std::io::Error>>) -> (r: Vec<
        Result<LineParts, Error>,
    >)
        ensures
            r.len() == lines.len(),
            forall|i: int|
                0 <= i < r.len() ==> match lines@[i] {
                    Ok(text) => reports(#[trigger] r@[i], line_kind(text@)),
                    Err(_) => r@[i] matches Err(Error::FileIO(_)),
                },
    {
        let mut results: Vec<Result<LineParts, Error>> = Vec::new();
        for line in it: lines.into_iter()
            invariant
                it.seq() == lines@,
                results.len() == it.index(),
                forall|i: int|
                    0 <= i < results.len() ==> match lines@[i] {
                        Ok(text) => reports(#[trigger] results@[i], line_kind(text@)),
                        Err(_) => results@[i] matches Err(Error::FileIO(_)),
                    },
        {
            results.push(FileReader::read_line(line));
        }
        results
    }

    /// The rows among the results, without the first one, which is the
    /// header; and the errors, in their order.
    pub fn gather(results: Vec<Result<LineParts, Error>>) -> (r: ReadFileResult)
        ensures
            r.lines@ == without_header(successes(results@)),
            r.errors@ == failures(results@),
    {
        let mut rows: Vec<LineParts> = Vec::new();
        let mut errors: Vec<Error> = Vec::new();
        let mut header_seen: bool = false;
        for result in it: results.into_iter()
            invariant
                it.seq() == results@,
                header_seen == (successes(results@.take(it.index())).len() > 0),
                rows@ == without_header(successes(results@.take(it.index()))),
                errors@ == failures(results@.take(it.index())),
        {
            proof {
                let n = it.index();
                assert(results@.take(n + 1).drop_last() =~= results@.take(n));
                assert(results@.take(n + 1).last() == results@[n]);
                let before = successes(results@.take(n));
                if results@[n] is Ok {
                    let row = results@[n]->Ok_0;
                    if before.len() > 0 {
                        assert(before.push(row).drop_first() =~= before.drop_first().push(row));
                    } else {
                        assert(before.push(row).drop_first() =~= Seq::<LineParts>::empty());
                    }
                }
            }
            match result {
                Ok(parts) => {
                    if header_seen {
                        rows.push(parts);
                    }
                    header_seen = true;
                },
                Err(e) => errors.push(e),
            }
        }
        proof {
            assert(results@.take(results@.len() as int) =~= results@);
        }
        ReadFileResult { lines: rows, errors }
    }

    /// The rows of a file, without its header, and the errors of the lines
    /// that are no rows.
    pub fn collect(lines: Vec<Result<String, std::io::Error>>) -> (r: ReadFileResult)
        ensures
            exists|results: Seq<Result<LineParts, Error>>|
                {
                    &&& results.len() == lines.len()
                    &&& forall|i: int|
                        0 <= i < results.len() ==> match lines@[i] {
                            Ok(text) => reports(#[trigger] results[i], line_kind(text@)),
                            Err(_) => results[i] matches Err(Error::FileIO(_)),
                        }
                    &&& r.lines@ == without_header(successes(results))
                    &&& r.errors@ == failures(results)
                },
    {
        let results = FileReader::read_lines(lines);
        let ghost seen = results@;
        let r = FileReader::gather(results);
        proof {
            assert(seen.len() == lines.len());
        }
        r
    }
}

/// The rows without the first one.
pub open spec fn without_header(rows: Seq<LineParts>) -> Seq<LineParts> {
    if rows.len() == 0 {
        rows
    } else {
        rows.drop_first()
    }
}

} // verus!
