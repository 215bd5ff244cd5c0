//! The items of a source file, as far as the engine tells them apart.

use vstd::prelude::*;
use crate::token::Token;

verus! {

/// A function item, taken apart so that its body can be extended.
#[derive(Debug, PartialEq, Eq)]
pub struct Function {
    /// The function's identifier.
    pub name: String,
    /// Attributes, visibility and signature: everything before the body.
    pub header: String,
    /// The token trees of the signature.
    pub signature: Vec<Token>,
    /// The statements of the body, in order.
    pub body: Vec<String>,
    /// The whole item as text.
    pub text: String,
}

/// What a `Function` stands for.
pub struct FunctionView {
    pub name: Seq<char>,
    pub header: Seq<char>,
    pub signature: Seq<Token>,
    pub body: Seq<Seq<char>>,
    pub text: Seq<char>,
}

/// A top-level item of a source file.
#[derive(Debug, PartialEq, Eq)]
pub enum Item {
    /// A module item, with the module's identifier.
    ModuleDeclaration { name: String, text: String },
    /// A function item.
    Function(Function),
    /// Any other item: its text is carried through untouched.
    Other { text: String },
}

/// What an `Item` stands for.
pub enum ItemView {
    ModuleDeclaration { name: Seq<char>, text: Seq<char> },
    Function(FunctionView),
    Other { text: Seq<char> },
}

/// The views of a sequence of strings, in order.
pub open spec fn texts(strings: Seq<String>) -> Seq<Seq<char>> {
    Seq::new(strings.len(), |i: int| strings[i]@)
}

/// The views of a sequence of items, in order.
pub open spec fn item_views(items: Seq<Item>) -> Seq<ItemView> {
    Seq::new(items.len(), |i: int| items[i]@)
}

impl View for Function {
    type V = FunctionView;

    open spec fn view(&self) -> FunctionView {
        FunctionView {
            name: self.name@,
            header: self.header@,
            signature: self.signature@,
            body: texts(self.body@),
            text: self.text@,
        }
    }
}

impl View for Item {
    type V = ItemView;

    open spec fn view(&self) -> ItemView {
        match *self {
            Item::ModuleDeclaration { name, text } => ItemView::ModuleDeclaration {
                name: name@,
                text: text@,
            },
            Item::Function(f) => ItemView::Function(f@),
            Item::Other { text } => ItemView::Other { text: text@ },
        }
    }
}

impl ItemView {
    /// The item as text.
    pub open spec fn text(self) -> Seq<char> {
        match self {
            ItemView::ModuleDeclaration { name, text } => text,
            ItemView::Function(f) => f.text,
            ItemView::Other { text } => text,
        }
    }

    /// Whether this item declares the module `name`.
    pub open spec fn declares(self, name: Seq<char>) -> bool {
        self is ModuleDeclaration && self->name == name
    }

    /// Whether this item is a function called `name`.
    pub open spec fn is_function_named(self, name: Seq<char>) -> bool {
        self is Function && self->Function_0.name == name
    }
}

impl Item {
    /// The item as text.
    pub fn text(&self) -> (r: &String)
        ensures
            r@ == self@.text(),
    {
        match self {
            Item::ModuleDeclaration { name: _, text } => text,
            Item::Function(f) => &f.text,
            Item::Other { text } => text,
        }
    }
}

} // verus!
