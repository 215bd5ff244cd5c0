//! Enum tables: a request such as
//! `-e=order_flow -f=Order flow:draft-1-Draft,sent-2-Sent` names a module, a
//! title and the rows of the table.

use vstd::prelude::*;
use vstd::string::*;
use crate::item::texts;
use crate::text::{
    find, first_match, is_match, lines, lines_of, parse_i32, parsed_i32, pattern_matches,
    replace, replaced, split, split_by, to_uppercase, trim, trimmed, uppercased,
};

verus! {

/// One row of an enum table.
#[derive(Debug, PartialEq, Eq)]
pub struct EnumRow {
    pub name: String,
    pub code: i32,
    pub message: String,
}

/// What an `EnumRow` stands for.
pub struct EnumRowView {
    pub name: Seq<char>,
    pub code: i32,
    pub message: Seq<char>,
}

/// A request for an enum table.
#[derive(Debug, PartialEq, Eq)]
pub struct EnumRequest {
    /// The module that the table goes to.
    pub module: String,
    /// The title of the table.
    pub doc: String,
    pub rows: Vec<EnumRow>,
}

/// What an `EnumRequest` stands for.
pub struct EnumRequestView {
    pub module: Seq<char>,
    pub doc: Seq<char>,
    pub rows: Seq<EnumRowView>,
}

/// Why a text is no request.
#[derive(Clone, Copy, Debug, PartialEq, Eq, Structural)]
pub enum EnumRequestError {
    /// The text has not the shape `-e=module -f=...`.
    Pattern,
    /// The text holds `-f=` more than once.
    Name,
    /// No `:` parts the title from the rows.
    Rows,
    /// A row has fewer than three parts.
    Row,
    /// The code of a row is no number that fits.
    Code,
}

impl View for EnumRow {
    type V = EnumRowView;

    open spec fn view(&self) -> EnumRowView {
        EnumRowView { name: self.name@, code: self.code, message: self.message@ }
    }
}

/// The views of a sequence of rows, in order.
pub open spec fn row_views(rows: Seq<EnumRow>) -> Seq<EnumRowView> {
    Seq::new(rows.len(), |i: int| rows[i]@)
}

impl View for EnumRequest {
    type V = EnumRequestView;

    open spec fn view(&self) -> EnumRequestView {
        EnumRequestView { module: self.module@, doc: self.doc@, rows: row_views(self.rows@) }
    }
}

/// A text without its line breaks and without the whitespace around it.
pub open spec fn single_line(text: Seq<char>) -> Seq<char> {
    trimmed(replaced(replaced(text, "\n"@, ""@), "\r"@, ""@))
}

/// A request as it is read: without backslashes and line breaks, trimmed.
pub open spec fn cleaned(request: Seq<char>) -> Seq<char> {
    single_line(replaced(request, "\\"@, ""@))
}

/// The row that `name-code-message` spells.
pub open spec fn row_of(text: Seq<char>) -> Result<EnumRowView, EnumRequestError> {
    let parts = split_by(text, "-"@);
    if parts.len() < 3 {
        Err(EnumRequestError::Row)
    } else {
        match parsed_i32(trimmed(parts[1])) {
            None => Err(EnumRequestError::Code),
            Some(code) => Ok(
                EnumRowView {
                    name: uppercased(trimmed(parts[0])),
                    code,
                    message: single_line(parts[2]),
                },
            ),
        }
    }
}

/// The rows that the first `n` pieces spell, or the first error among them.
pub open spec fn rows_prefix(pieces: Seq<Seq<char>>, n: nat) -> Result<
    Seq<EnumRowView>,
    EnumRequestError,
>
    decreases n,
{
    if n == 0 {
        Ok(Seq::empty())
    } else {
        match rows_prefix(pieces, (n - 1) as nat) {
            Err(error) => Err(error),
            Ok(rows) => match row_of(pieces[n - 1]) {
                Err(error) => Err(error),
                Ok(row) => Ok(rows.push(row)),
            },
        }
    }
}

/// The request that a text spells, or why it spells none.
pub open spec fn request_of(request: Seq<char>) -> Result<EnumRequestView, EnumRequestError> {
    let text = cleaned(request);
    if pattern_matches("(-e=[a-zA-Z_]+\\s*-f=).*"@, text) != Some(true) {
        Err(EnumRequestError::Pattern)
    } else {
        let halves = split_by(replaced(text, "-e="@, ""@), "-f="@);
        if halves.len() != 2 {
            Err(EnumRequestError::Name)
        } else {
            let described = split_by(halves[1], ":"@);
            if described.len() < 2 {
                Err(EnumRequestError::Rows)
            } else {
                let pieces = split_by(described[1], ","@);
                match rows_prefix(pieces, pieces.len()) {
                    Err(error) => Err(error),
                    Ok(rows) => Ok(
                        EnumRequestView {
                            module: trimmed(halves[0]),
                            doc: trimmed(described[0]),
                            rows,
                        },
                    ),
                }
            }
        }
    }
}

/// Removes the line breaks of a text and the whitespace around it.
fn to_single_line(text: &str) -> (r: String)
    ensures
        r@ == single_line(text@),
{
    let without_feeds = replace(text, "\n", "");
    let without_returns = replace(without_feeds.as_str(), "\r", "");
    trim(without_returns.as_str())
}

/// Reads one row, written `name-code-message`.
///
/// The name is put in upper case. A row of fewer than three parts is
/// refused, and so is a code that is no number.
pub fn parse_row(text: &str) -> (r: Result<EnumRow, EnumRequestError>)
    ensures
        match r {
            Ok(row) => row_of(text@) == Ok::<EnumRowView, EnumRequestError>(row@),
            Err(error) => row_of(text@) == Err::<EnumRowView, EnumRequestError>(error),
        },
{
    let parts = split(text, "-");
    if parts.len() < 3 {
        return Err(EnumRequestError::Row);
    }
    assert(texts(parts@)[0] == parts@[0]@);
    assert(texts(parts@)[1] == parts@[1]@);
    assert(texts(parts@)[2] == parts@[2]@);
    match parse_i32(trim(parts[1].as_str()).as_str()) {
        None => Err(EnumRequestError::Code),
        Some(code) => Ok(
            EnumRow {
                name: to_uppercase(trim(parts[0].as_str()).as_str()),
                code,
                message: to_single_line(parts[2].as_str()),
            },
        ),
    }
}

/// Reads a request for an enum table.
///
/// Backslashes and line breaks are dropped first. The text must then hold
/// `-e=`, a module name of letters and underscores, and `-f=`; after that the
/// title, a `:`, and the rows parted by `,`. The first fault found is the
/// error returned.
#[verifier::loop_isolation(false)]
pub fn parse_request(request: &str) -> (r: Result<EnumRequest, EnumRequestError>)
    ensures
        match r {
            Ok(parsed) => request_of(request@) == Ok::<EnumRequestView, EnumRequestError>(
                parsed@,
            ),
            Err(error) => request_of(request@) == Err::<EnumRequestView, EnumRequestError>(
                error,
            ),
        },
{
    let text = to_single_line(replace(request, "\\", "").as_str());
    match is_match("(-e=[a-zA-Z_]+\\s*-f=).*", text.as_str()) {
        Some(true) => {},
        _ => {
            return Err(EnumRequestError::Pattern);
        },
    }
    let halves = split(replace(text.as_str(), "-e=", "").as_str(), "-f=");
    if halves.len() != 2 {
        return Err(EnumRequestError::Name);
    }
    assert(texts(halves@)[0] == halves@[0]@);
    assert(texts(halves@)[1] == halves@[1]@);
    let described = split(halves[1].as_str(), ":");
    if described.len() < 2 {
        return Err(EnumRequestError::Rows);
    }
    assert(texts(described@)[0] == described@[0]@);
    assert(texts(described@)[1] == described@[1]@);
    let pieces = split(described[1].as_str(), ",");
    let mut rows: Vec<EnumRow> = Vec::new();
    let mut i: usize = 0;
    assert(row_views(rows@) =~= Seq::empty());
    while i < pieces.len()
        invariant
            i <= pieces.len(),
            rows_prefix(texts(pieces@), i as nat) == Ok::<Seq<EnumRowView>, EnumRequestError>(
                row_views(rows@),
            ),
        decreases pieces.len() - i,
    {
        assert(texts(pieces@)[i as int] == pieces@[i as int]@);
        match parse_row(pieces[i].as_str()) {
            Err(error) => {
                proof {
                    lemma_error_stays(texts(pieces@), (i + 1) as nat, pieces@.len() as nat, error);
                }
                return Err(error);
            },
            Ok(row) => {
                let ghost before = row_views(rows@);
                rows.push(row);
                assert(row_views(rows@) =~= before.push(row@));
            },
        }
        i += 1;
    }
    Ok(EnumRequest { module: trim(halves[0].as_str()), doc: trim(described[0].as_str()), rows })
}

/// Once a row is refused, reading further rows does not change the error.
pub proof fn lemma_error_stays(
    pieces: Seq<Seq<char>>,
    n: nat,
    m: nat,
    error: EnumRequestError,
)
    requires
        n <= m,
        rows_prefix(pieces, n) == Err::<Seq<EnumRowView>, EnumRequestError>(error),
    ensures
        rows_prefix(pieces, m) == Err::<Seq<EnumRowView>, EnumRequestError>(error),
    decreases m,
{
    if n < m {
        lemma_error_stays(pieces, n, (m - 1) as nat, error);
    }
}

/// The request that a line of a file holds, if it holds one: what stands
/// between the quotes of `--name="-e=... -f=..."`.
pub open spec fn request_in(line: Seq<char>) -> Option<Seq<char>> {
    match first_match("--name=\"-e=(.*)+-f=(.*)\""@, line) {
        Some(found) => Some(replaced(replaced(found, "--name=\""@, ""@), "\""@, ""@)),
        None => None,
    }
}

/// Picks the request out of a line of a file.
///
/// Returns `None` exactly where the line holds no `--name="-e=... -f=..."`.
pub fn request_in_line(line: &str) -> (r: Option<String>)
    ensures
        match r {
            Some(request) => request_in(line@) == Some(request@),
            None => request_in(line@) is None,
        },
{
    match find("--name=\"-e=(.*)+-f=(.*)\"", line) {
        Some(found) => Some(replace(replace(found.as_str(), "--name=\"", "").as_str(), "\"", "")),
        None => None,
    }
}

/// The requests among the first `n` lines, in order.
pub open spec fn requests_prefix(lines: Seq<Seq<char>>, n: nat) -> Seq<Seq<char>>
    decreases n,
{
    if n == 0 {
        Seq::empty()
    } else {
        match request_in(lines[n - 1]) {
            Some(request) => requests_prefix(lines, (n - 1) as nat).push(request),
            None => requests_prefix(lines, (n - 1) as nat),
        }
    }
}

/// Picks the requests out of a file, one to a line at most, in order.
pub fn requests_in_file(content: &str) -> (r: Vec<String>)
    ensures
        texts(r@) == requests_prefix(lines_of(content@), lines_of(content@).len()),
{
    let all = lines(content);
    let mut requests: Vec<String> = Vec::new();
    let mut i: usize = 0;
    assert(texts(requests@) =~= Seq::empty());
    while i < all.len()
        invariant
            i <= all.len(),
            texts(all@) == lines_of(content@),
            texts(requests@) == requests_prefix(lines_of(content@), i as nat),
        decreases all.len() - i,
    {
        assert(texts(all@)[i as int] == all@[i as int]@);
        match request_in_line(all[i].as_str()) {
            Some(request) => {
                let ghost before = texts(requests@);
                requests.push(request);
                assert(texts(requests@) =~= before.push(request@));
            },
            None => {},
        }
        i += 1;
    }
    requests
}

} // verus!
