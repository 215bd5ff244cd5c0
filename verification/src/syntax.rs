//! Reading source text: the `syn` parser turns text into a syntax tree, and
//! the items of that tree are copied out into values of this library.
//!
//! What the parser makes of a text is not proved here. It is given a name,
//! `parsed_source`, and `parse_items` is shown to hand out exactly that.

use vstd::prelude::*;
use crate::item::{Function, Item, ItemView, item_views, texts};
use crate::signature::{parameter_views, parameters_of, parse_extract_args, Parameter};
use crate::token::Token;

verus! {

/// `syn::File`: a parsed source file, carried as it is.
#[verifier::external_type_specification]
#[verifier::external_body]
pub struct ExSynFile(syn::File);

/// `syn::Error`: the parser's error, carried as it is.
#[verifier::external_type_specification]
#[verifier::external_body]
pub struct ExSynError(syn::Error);

/// `proc_macro2::TokenStream`: a run of token trees, carried as it is.
#[verifier::external_type_specification]
#[verifier::external_body]
pub struct ExTokenStream(proc_macro2::TokenStream);

/// The items that `syn::parse_file` finds in a text, or `None` where it
/// refuses the text.
pub uninterp spec fn parsed_source(text: Seq<char>) -> Option<Seq<ItemView>>;

/// The items that a parsed file holds, in order: of each its kind and its
/// text as written; of a module and a function its identifier; of a function
/// also its header, the token trees of its signature, and its statements.
pub uninterp spec fn file_items(file: syn::File) -> Seq<ItemView>;

/// The token trees that `proc_macro2` lexes out of a text, or `None` where
/// it refuses the text.
pub uninterp spec fn lexed_source(text: Seq<char>) -> Option<Seq<Token>>;

/// The three kinds of item that the engine tells apart.
#[derive(Clone, Copy, Debug, PartialEq, Eq, Structural)]
pub enum ItemKind {
    ModuleDeclaration,
    Function,
    Other,
}

/// The kind of an item.
pub open spec fn kind_of(item: ItemView) -> ItemKind {
    match item {
        ItemView::ModuleDeclaration { .. } => ItemKind::ModuleDeclaration,
        ItemView::Function(_) => ItemKind::Function,
        ItemView::Other { .. } => ItemKind::Other,
    }
}

/// The identifier of a module or function item; empty for any other item.
pub open spec fn name_of(item: ItemView) -> Seq<char> {
    match item {
        ItemView::ModuleDeclaration { name, .. } => name,
        ItemView::Function(f) => f.name,
        ItemView::Other { .. } => Seq::empty(),
    }
}

/// A text that the parser refused, with the parser's message.
#[derive(Debug, PartialEq, Eq)]
pub struct ParseError {
    pub message: String,
}

/// `syn::parse_file`: parses a whole source file. The contract only names
/// the outcome: the file's items are those of `parsed_source`, and an error
/// comes exactly where `parsed_source` has none.
#[verifier::external_body]
fn parse_file(text: &str) -> (r: Result<syn::File, syn::Error>)
    ensures
        match r {
            Ok(file) => parsed_source(text@) == Some(file_items(file)),
            Err(_) => parsed_source(text@) is None,
        },
{
    syn::parse_file(text)
}

/// `syn::Error`'s `Display`: the message of a parse error. Nothing is
/// claimed of its wording.
#[verifier::external_body]
fn error_message(error: &syn::Error) -> (r: String) {
    error.to_string()
}

/// `Vec::len` on `syn::File::items`: the number of items of the file.
#[verifier::external_body]
fn item_count(file: &syn::File) -> (n: usize)
    ensures
        n == file_items(*file).len(),
{
    file.items.len()
}

/// Tells the variants of `syn::Item` apart: `Mod`, `Fn`, and all others.
#[verifier::external_body]
fn item_kind(file: &syn::File, i: usize) -> (r: ItemKind)
    requires
        i < file_items(*file).len(),
    ensures
        r == kind_of(file_items(*file)[i as int]),
{
    match &file.items[i] {
        syn::Item::Mod(_) => ItemKind::ModuleDeclaration,
        syn::Item::Fn(_) => ItemKind::Function,
        _ => ItemKind::Other,
    }
}

/// `Ident::to_string` on the identifier of a `syn::ItemMod` or of a
/// `syn::ItemFn`'s signature.
#[verifier::external_body]
fn item_name(file: &syn::File, i: usize) -> (r: String)
    requires
        i < file_items(*file).len(),
    ensures
        r@ == name_of(file_items(*file)[i as int]),
{
    match &file.items[i] {
        syn::Item::Mod(module) => module.ident.to_string(),
        syn::Item::Fn(function) => function.sig.ident.to_string(),
        _ => String::new(),
    }
}

/// `Span::source_text` on the span of an item: the item as it was written.
/// Where the span has no text, the item's tokens are printed instead.
#[verifier::external_body]
fn item_text(file: &syn::File, i: usize) -> (r: String)
    requires
        i < file_items(*file).len(),
    ensures
        r@ == file_items(*file)[i as int].text(),
{
    let item = &file.items[i];
    match syn::spanned::Spanned::span(item).source_text() {
        Some(text) => text,
        None => quote::ToTokens::to_token_stream(item).to_string(),
    }
}

/// `Span::source_text` on the span of the attributes, the visibility and the
/// signature of a `syn::ItemFn`, gathered with `TokenStreamExt::append_all`
/// and `ToTokens::to_tokens`: the function up to its body, as it was written.
/// Where the span has no text, the tokens are printed instead.
#[verifier::external_body]
fn function_header(file: &syn::File, i: usize) -> (r: String)
    requires
        i < file_items(*file).len(),
        file_items(*file)[i as int] is Function,
    ensures
        r@ == file_items(*file)[i as int]->Function_0.header,
{
    let mut stream = proc_macro2::TokenStream::new();
    if let syn::Item::Fn(function) = &file.items[i] {
        quote::TokenStreamExt::append_all(&mut stream, &function.attrs);
        quote::ToTokens::to_tokens(&function.vis, &mut stream);
        quote::ToTokens::to_tokens(&function.sig, &mut stream);
    }
    match syn::spanned::Spanned::span(&stream).source_text() {
        Some(text) => text,
        None => stream.to_string(),
    }
}

/// `TokenStream::into_iter`: the token trees of a stream, each copied into a
/// `Token`, groups with their own trees.
#[verifier::external_body]
fn tokens_of(stream: proc_macro2::TokenStream) -> (r: Vec<Token>) {
    stream.into_iter().map(|tree| match tree {
        proc_macro2::TokenTree::Ident(ident) => Token::Ident(ident.to_string()),
        proc_macro2::TokenTree::Punct(punct) => Token::Punct(punct.as_char()),
        proc_macro2::TokenTree::Literal(literal) => Token::Literal(literal.to_string()),
        proc_macro2::TokenTree::Group(group) => Token::Group(tokens_of(group.stream())),
    }).collect()
}

/// `ToTokens::to_token_stream` on the signature of a `syn::ItemFn`: its token
/// trees.
#[verifier::external_body]
fn function_signature(file: &syn::File, i: usize) -> (r: Vec<Token>)
    requires
        i < file_items(*file).len(),
        file_items(*file)[i as int] is Function,
    ensures
        r@ == file_items(*file)[i as int]->Function_0.signature,
{
    match &file.items[i] {
        syn::Item::Fn(function) => tokens_of(quote::ToTokens::to_token_stream(&function.sig)),
        _ => Vec::new(),
    }
}

/// `Vec::len` on the statements of a `syn::ItemFn`'s block.
#[verifier::external_body]
fn statement_count(file: &syn::File, i: usize) -> (n: usize)
    requires
        i < file_items(*file).len(),
        file_items(*file)[i as int] is Function,
    ensures
        n == file_items(*file)[i as int]->Function_0.body.len(),
{
    match &file.items[i] {
        syn::Item::Fn(function) => function.block.stmts.len(),
        _ => 0,
    }
}

/// `Span::source_text` on the span of one statement of a `syn::ItemFn`'s
/// block: the statement as it was written. Where the span has no text, the
/// statement's tokens are printed instead.
#[verifier::external_body]
fn statement_text(file: &syn::File, i: usize, j: usize) -> (r: String)
    requires
        i < file_items(*file).len(),
        file_items(*file)[i as int] is Function,
        j < file_items(*file)[i as int]->Function_0.body.len(),
    ensures
        r@ == file_items(*file)[i as int]->Function_0.body[j as int],
{
    match &file.items[i] {
        syn::Item::Fn(function) => {
            let statement = &function.block.stmts[j];
            match syn::spanned::Spanned::span(statement).source_text() {
                Some(text) => text,
                None => quote::ToTokens::to_token_stream(statement).to_string(),
            }
        },
        _ => String::new(),
    }
}

/// `TokenStream::from_str`: lexes a text into token trees. The contract only
/// names the outcome.
#[verifier::external_body]
fn lex(text: &str) -> (r: Option<Vec<Token>>)
    ensures
        match r {
            Some(tokens) => lexed_source(text@) == Some(tokens@),
            None => lexed_source(text@) is None,
        },
{
    match <proc_macro2::TokenStream as std::str::FromStr>::from_str(text) {
        Ok(stream) => Some(tokens_of(stream)),
        Err(_) => None,
    }
}

/// Extracts the parameters that a declaration spells out, given as text.
///
/// Returns `None` exactly where the lexer refuses the text, as on an
/// unbalanced delimiter; otherwise the parameters of the text's token trees.
pub fn parameters_in(text: &str) -> (r: Option<Vec<Parameter>>)
    ensures
        match r {
            Some(parameters) => lexed_source(text@) is Some && parameter_views(parameters@)
                == parameters_of(lexed_source(text@)->0),
            None => lexed_source(text@) is None,
        },
{
    match lex(text) {
        Some(tokens) => Some(parse_extract_args(&tokens)),
        None => None,
    }
}

/// Copies one function item out of a parsed file.
fn function_at(file: &syn::File, i: usize) -> (r: Function)
    requires
        i < file_items(*file).len(),
        file_items(*file)[i as int] is Function,
    ensures
        r@ == file_items(*file)[i as int]->Function_0,
{
    let ghost model = file_items(*file)[i as int]->Function_0;
    let count = statement_count(file, i);
    let mut body: Vec<String> = Vec::new();
    let mut j: usize = 0;
    while j < count
        invariant
            j <= count,
            count == model.body.len(),
            i < file_items(*file).len(),
            file_items(*file)[i as int] is Function,
            model == file_items(*file)[i as int]->Function_0,
            body@.len() == j,
            forall|k: int| 0 <= k < j ==> (#[trigger] body@[k])@ == model.body[k],
        decreases count - j,
    {
        let statement = statement_text(file, i, j);
        body.push(statement);
        j += 1;
    }
    assert(texts(body@) =~= model.body);
    Function {
        name: item_name(file, i),
        header: function_header(file, i),
        signature: function_signature(file, i),
        body,
        text: item_text(file, i),
    }
}

/// Copies one item out of a parsed file.
fn item_at(file: &syn::File, i: usize) -> (r: Item)
    requires
        i < file_items(*file).len(),
    ensures
        r@ == file_items(*file)[i as int],
{
    match item_kind(file, i) {
        ItemKind::ModuleDeclaration => Item::ModuleDeclaration {
            name: item_name(file, i),
            text: item_text(file, i),
        },
        ItemKind::Function => Item::Function(function_at(file, i)),
        ItemKind::Other => Item::Other { text: item_text(file, i) },
    }
}

/// Parses a source text into its top-level items.
///
/// Returns the items that the parser finds, in order, and an error exactly
/// where the parser refuses the text.
pub fn parse_items(source: &str) -> (r: Result<Vec<Item>, ParseError>)
    ensures
        match r {
            Ok(items) => parsed_source(source@) == Some(item_views(items@)),
            Err(_) => parsed_source(source@) is None,
        },
{
    match parse_file(source) {
        Err(error) => Err(ParseError { message: error_message(&error) }),
        Ok(file) => {
            let count = item_count(&file);
            let mut items: Vec<Item> = Vec::new();
            let mut i: usize = 0;
            while i < count
                invariant
                    i <= count,
                    count == file_items(file).len(),
                    items@.len() == i,
                    forall|k: int| 0 <= k < i ==> (#[trigger] items@[k])@ == file_items(file)[k],
                decreases count - i,
            {
                let item = item_at(&file, i);
                items.push(item);
                i += 1;
            }
            assert(item_views(items@) =~= file_items(file));
            Ok(items)
        },
    }
}

} // verus!
