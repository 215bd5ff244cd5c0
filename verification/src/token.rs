//! Lexical tokens of a declaration, as far as the signature scan reads them.

use vstd::prelude::*;

verus! {

/// One token tree: a leaf, or a delimited group of further token trees.
#[derive(Debug, PartialEq, Eq)]
pub enum Token {
    /// An identifier or keyword.
    Ident(String),
    /// A single punctuation character; `::` is two of them.
    Punct(char),
    /// A literal, kept as written.
    Literal(String),
    /// The token trees between a pair of delimiters.
    Group(Vec<Token>),
}

} // verus!
