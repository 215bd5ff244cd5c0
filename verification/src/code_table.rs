//! Error-code tables: the rows of a table are numbered from the number in
//! the name of the file that lists them, in the order in which the file
//! lists them.

use vstd::prelude::*;
use vstd::string::*;
use crate::item::texts;
use crate::text::{
    find, first_match, is_match, lines, lines_of, parse_i64, parsed_i64,
    pattern_matches, replace, replaced, to_uppercase, trim, trimmed, uppercased,
};

verus! {

/// One entry of a listing: a key, and what the listing says of it.
#[derive(Debug, PartialEq, Eq)]
pub struct CodeEntry {
    pub key: String,
    /// The message that the listing gives, if it gives one.
    pub message: Option<String>,
    /// The code that the listing gives, if it gives one.
    pub code: Option<i64>,
}

/// One row of an error-code table.
#[derive(Debug, PartialEq, Eq)]
pub struct Code {
    pub name: String,
    pub code: i64,
    pub message: String,
}

/// What a `Code` stands for.
pub struct CodeView {
    pub name: Seq<char>,
    pub code: i64,
    pub message: Seq<char>,
}

/// What a `CodeEntry` stands for.
pub struct CodeEntryView {
    pub key: Seq<char>,
    pub message: Option<Seq<char>>,
    pub code: Option<i64>,
}

impl View for Code {
    type V = CodeView;

    open spec fn view(&self) -> CodeView {
        CodeView { name: self.name@, code: self.code, message: self.message@ }
    }
}

impl View for CodeEntry {
    type V = CodeEntryView;

    open spec fn view(&self) -> CodeEntryView {
        CodeEntryView {
            key: self.key@,
            message: match self.message {
                Some(m) => Some(m@),
                None => None,
            },
            code: self.code,
        }
    }
}

/// The views of a sequence of rows, in order.
pub open spec fn code_views(rows: Seq<Code>) -> Seq<CodeView> {
    Seq::new(rows.len(), |i: int| rows[i]@)
}

/// The views of a sequence of entries, in order.
pub open spec fn entry_views(entries: Seq<CodeEntry>) -> Seq<CodeEntryView> {
    Seq::new(entries.len(), |i: int| entries[i]@)
}

/// The number in a file's name: its first run of digits, read as a number.
pub open spec fn file_number_of(file_name: Seq<char>) -> Option<i64> {
    match first_match("\\d+"@, file_name) {
        Some(digits) => parsed_i64(digits),
        None => None,
    }
}

/// Reads the number from which a file's rows are counted out of its name.
///
/// Returns `None` where the name holds no digit, or its first run of digits
/// is no number that fits.
pub fn file_number(file_name: &str) -> (r: Option<i64>)
    ensures
        r == file_number_of(file_name@),
{
    match find("\\d+", file_name) {
        Some(digits) => parse_i64(digits.as_str()),
        None => None,
    }
}

/// Whether a line of a listing opens an entry: it starts with a letter.
pub open spec fn opens_entry(line: Seq<char>) -> bool {
    pattern_matches("^[a-zA-Z]"@, line) == Some(true)
}

/// The key that a line of a listing names.
pub open spec fn key_of(line: Seq<char>) -> Seq<char> {
    replaced(trimmed(line), ":"@, ""@)
}

/// The keys among the first `n` lines, in order.
pub open spec fn keys_prefix(lines: Seq<Seq<char>>, n: nat) -> Seq<Seq<char>>
    decreases n,
{
    if n == 0 {
        Seq::empty()
    } else if opens_entry(lines[n - 1]) {
        keys_prefix(lines, (n - 1) as nat).push(key_of(lines[n - 1]))
    } else {
        keys_prefix(lines, (n - 1) as nat)
    }
}

/// The keys of a listing, in the order in which the listing names them.
pub open spec fn keys_of(listing: Seq<char>) -> Seq<Seq<char>> {
    keys_prefix(lines_of(listing), lines_of(listing).len())
}

/// Picks the keys out of a listing, in the order in which it names them.
/// A line that starts with a letter names a key: the line without the
/// whitespace around it and without its colons.
pub fn key_order(listing: &str) -> (r: Vec<String>)
    ensures
        texts(r@) == keys_of(listing@),
{
    let all = lines(listing);
    let mut keys: Vec<String> = Vec::new();
    let mut i: usize = 0;
    assert(texts(keys@) =~= Seq::empty());
    while i < all.len()
        invariant
            i <= all.len(),
            texts(all@) == lines_of(listing@),
            texts(keys@) == keys_prefix(lines_of(listing@), i as nat),
        decreases all.len() - i,
    {
        assert(texts(all@)[i as int] == all@[i as int]@);
        if let Some(true) = is_match("^[a-zA-Z]", all[i].as_str()) {
            let ghost before = texts(keys@);
            let key = replace(trim(all[i].as_str()).as_str(), ":", "");
            keys.push(key);
            assert(texts(keys@) =~= before.push(key@));
        }
        i += 1;
    }
    keys
}

/// The message of an entry: its own, or the key followed by the word for
/// "error".
pub open spec fn message_of(entry: CodeEntryView) -> Seq<char> {
    match entry.message {
        Some(message) => message,
        None => entry.key + "错误"@,
    }
}

/// The code that the `n`th entry gets when counting starts at `start`: its
/// own where it names one, else one more than the entry before it.
pub open spec fn code_at(start: int, entries: Seq<CodeEntryView>, n: nat) -> int
    decreases n,
{
    match entries[n as int].code {
        Some(code) => code as int,
        None => if n == 0 {
            start
        } else {
            code_at(start, entries, (n - 1) as nat) + 1
        },
    }
}

/// Whether the codes of the first `n` entries, and the number after each of
/// them, fit.
pub open spec fn codes_fit(start: int, entries: Seq<CodeEntryView>, n: nat) -> bool {
    forall|k: int| 0 <= k < n ==> #[trigger] code_at(start, entries, k as nat) < i64::MAX
}

/// The row of the `n`th entry.
pub open spec fn row_at(start: int, entries: Seq<CodeEntryView>, n: nat) -> CodeView {
    CodeView {
        name: uppercased(entries[n as int].key),
        code: code_at(start, entries, n) as i64,
        message: message_of(entries[n as int]),
    }
}

/// The rows of a table.
pub open spec fn rows_of(start: int, entries: Seq<CodeEntryView>) -> Seq<CodeView> {
    Seq::new(entries.len(), |n: int| row_at(start, entries, n as nat))
}

/// Numbers the entries of a listing into the rows of a table.
///
/// A row's name is its key in upper case. Its code is the one its entry
/// names, else one more than the row before it, and `start` for the first.
/// Returns `None` exactly where a code has no successor that fits.
pub fn number_rows(start: i64, entries: &Vec<CodeEntry>) -> (r: Option<Vec<Code>>)
    ensures
        r is Some <==> codes_fit(start as int, entry_views(entries@), entries@.len()),
        r matches Some(rows) ==> code_views(rows@) == rows_of(start as int, entry_views(entries@)),
{
    let ghost views = entry_views(entries@);
    let mut rows: Vec<Code> = Vec::new();
    let mut next: i64 = start;
    let mut i: usize = 0;
    while i < entries.len()
        invariant
            i <= entries.len(),
            views == entry_views(entries@),
            rows@.len() == i,
            codes_fit(start as int, views, i as nat),
            i == 0 ==> next == start,
            i > 0 ==> next == code_at(start as int, views, (i - 1) as nat) + 1,
            forall|k: int| 0 <= k < i ==> (#[trigger] rows@[k])@ == row_at(start as int, views, k as nat),
        decreases entries.len() - i,
    {
        let entry = &entries[i];
        assert(views[i as int] == entry@);
        let code = match entry.code {
            Some(code) => code,
            None => next,
        };
        assert(code == code_at(start as int, views, i as nat));
        if code == i64::MAX {
            proof {
                let k = i as int;
                assert(!(code_at(start as int, views, k as nat) < i64::MAX));
            }
            return None;
        }
        let message = match &entry.message {
            Some(message) => message.clone(),
            None => {
                let mut message = entry.key.clone();
                message.append("错误");
                message
            },
        };
        rows.push(Code { name: to_uppercase(entry.key.as_str()), code, message });
        next = code + 1;
        i += 1;
    }
    assert(code_views(rows@) =~= rows_of(start as int, views));
    Some(rows)
}

} // verus!
