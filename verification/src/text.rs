//! Text operations that the table builders lean on. Each stands for one
//! function of the standard library or of the `regex` crate; what that
//! function returns is given a name, and nothing more is claimed of it.

use vstd::prelude::*;
use crate::item::texts;

verus! {

/// `text` with every match of `from` replaced by `to`, as `str::replace`
/// returns it.
pub uninterp spec fn replaced(text: Seq<char>, from: Seq<char>, to: Seq<char>) -> Seq<char>;

/// `text` without leading and trailing whitespace, as `str::trim` returns it.
pub uninterp spec fn trimmed(text: Seq<char>) -> Seq<char>;

/// The pieces of `text` between the matches of `separator`, as `str::split`
/// yields them.
pub uninterp spec fn split_by(text: Seq<char>, separator: Seq<char>) -> Seq<Seq<char>>;

/// The lines of `text`, as `str::lines` yields them.
pub uninterp spec fn lines_of(text: Seq<char>) -> Seq<Seq<char>>;

/// `text` in upper case, as `str::to_uppercase` returns it.
pub uninterp spec fn uppercased(text: Seq<char>) -> Seq<char>;

/// The number that `text` spells, as `str::parse::<i64>` reads it.
pub uninterp spec fn parsed_i64(text: Seq<char>) -> Option<i64>;

/// The number that `text` spells, as `str::parse::<i32>` reads it.
pub uninterp spec fn parsed_i32(text: Seq<char>) -> Option<i32>;

/// Whether the regular expression `pattern` matches somewhere in `text`;
/// `None` where `pattern` is no regular expression.
pub uninterp spec fn pattern_matches(pattern: Seq<char>, text: Seq<char>) -> Option<bool>;

/// The first match of the regular expression `pattern` in `text`; `None`
/// where there is no match or `pattern` is no regular expression.
pub uninterp spec fn first_match(pattern: Seq<char>, text: Seq<char>) -> Option<Seq<char>>;

/// `str::replace`.
#[verifier::external_body]
pub(crate) fn replace(text: &str, from: &str, to: &str) -> (r: String)
    ensures
        r@ == replaced(text@, from@, to@),
{
    text.replace(from, to)
}

/// `str::trim`.
#[verifier::external_body]
pub(crate) fn trim(text: &str) -> (r: String)
    ensures
        r@ == trimmed(text@),
{
    text.trim().to_string()
}

/// `str::split`, with the pieces collected in order.
#[verifier::external_body]
pub(crate) fn split(text: &str, separator: &str) -> (r: Vec<String>)
    ensures
        texts(r@) == split_by(text@, separator@),
{
    text.split(separator).map(|piece| piece.to_string()).collect()
}

/// `str::lines`, with the lines collected in order.
#[verifier::external_body]
pub(crate) fn lines(text: &str) -> (r: Vec<String>)
    ensures
        texts(r@) == lines_of(text@),
{
    text.lines().map(|line| line.to_string()).collect()
}

/// `str::to_uppercase`.
#[verifier::external_body]
pub(crate) fn to_uppercase(text: &str) -> (r: String)
    ensures
        r@ == uppercased(text@),
{
    text.to_uppercase()
}

/// `str::parse::<i64>`; `None` stands for its error.
#[verifier::external_body]
pub(crate) fn parse_i64(text: &str) -> (r: Option<i64>)
    ensures
        r == parsed_i64(text@),
{
    match text.parse::<i64>() {
        Ok(number) => Some(number),
        Err(_) => None,
    }
}

/// `str::parse::<i32>`; `None` stands for its error.
#[verifier::external_body]
pub(crate) fn parse_i32(text: &str) -> (r: Option<i32>)
    ensures
        r == parsed_i32(text@),
{
    match text.parse::<i32>() {
        Ok(number) => Some(number),
        Err(_) => None,
    }
}

/// `regex::Regex::is_match` on the expression that `regex::Regex::new`
/// compiles from `pattern`; `None` stands for the error of `new`.
#[verifier::external_body]
pub(crate) fn is_match(pattern: &str, text: &str) -> (r: Option<bool>)
    ensures
        r == pattern_matches(pattern@, text@),
{
    match regex::Regex::new(pattern) {
        Ok(expression) => Some(expression.is_match(text)),
        Err(_) => None,
    }
}

/// `regex::Regex::find` on the expression that `regex::Regex::new` compiles
/// from `pattern`, with the matched text copied out.
#[verifier::external_body]
pub(crate) fn find(pattern: &str, text: &str) -> (r: Option<String>)
    ensures
        match r {
            Some(found) => first_match(pattern@, text@) == Some(found@),
            None => first_match(pattern@, text@) is None,
        },
{
    match regex::Regex::new(pattern) {
        Ok(expression) => expression.find(text).map(|found| found.as_str().to_string()),
        Err(_) => None,
    }
}

} // verus!
