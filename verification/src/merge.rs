//! Module merging: a file is made to declare a module, once.

use vstd::prelude::*;
use vstd::string::*;
use crate::item::{Item, ItemView, item_views};
use crate::locate::{
    first_module_declaration, first_module_declaration_of, is_first_module_declaration,
};

verus! {

/// Whether some item among `items` declares the module `name`.
pub open spec fn declares(items: Seq<ItemView>, name: Seq<char>) -> bool {
    exists|i: int| 0 <= i < items.len() && (#[trigger] items[i]).declares(name)
}

/// The public declaration of the module `name`.
pub open spec fn declaration_of(name: Seq<char>) -> ItemView {
    ItemView::ModuleDeclaration { name, text: "pub mod "@ + name + ";"@ }
}

/// The items after merging a declaration of `name` into them.
///
/// A file that declares `name` anywhere stays as it is. Otherwise the new
/// declaration goes just before the first module declaration, or to the end
/// of a file that has none.
pub open spec fn merged(items: Seq<ItemView>, name: Seq<char>) -> Seq<ItemView> {
    if declares(items, name) {
        items
    } else {
        match first_module_declaration_of(items) {
            Some(i) => items.insert(i, declaration_of(name)),
            None => items.push(declaration_of(name)),
        }
    }
}

/// Merging leaves a file that declares the module, and merging again
/// changes nothing.
pub proof fn lemma_merge_idempotent(items: Seq<ItemView>, name: Seq<char>)
    ensures
        declares(merged(items, name), name),
        merged(merged(items, name), name) == merged(items, name),
{
    if !declares(items, name) {
        let d = declaration_of(name);
        match first_module_declaration_of(items) {
            Some(i) => {
                assert(is_first_module_declaration(items, i));
                assert(items.insert(i, d)[i].declares(name));
            },
            None => {
                assert(items.push(d)[items.len() as int].declares(name));
            },
        }
    }
}

/// Merging keeps every item there was, in the order there was, and adds at
/// most the one declaration.
pub proof fn lemma_merge_keeps_items(items: Seq<ItemView>, name: Seq<char>)
    ensures
        declares(items, name) ==> merged(items, name) == items,
        !declares(items, name) ==> exists|i: int|
            0 <= i <= items.len() && #[trigger] merged(items, name).remove(i) == items && merged(
                items,
                name,
            )[i] == declaration_of(name),
{
    if !declares(items, name) {
        let d = declaration_of(name);
        match first_module_declaration_of(items) {
            Some(i) => {
                assert(is_first_module_declaration(items, i));
                assert(merged(items, name).remove(i) =~= items);
                assert(merged(items, name)[i] == d);
            },
            None => {
                assert(merged(items, name).remove(items.len() as int) =~= items);
                assert(merged(items, name)[items.len() as int] == d);
            },
        }
    }
}

/// Whether the file declares the module `name`.
pub fn declares_module(items: &Vec<Item>, name: &str) -> (r: bool)
    ensures
        r == declares(item_views(items@), name@),
{
    let ghost views = item_views(items@);
    let wanted = String::from_str(name);
    let mut i: usize = 0;
    while i < items.len()
        invariant
            i <= items.len(),
            views == item_views(items@),
            wanted@ == name@,
            forall|j: int| 0 <= j < i ==> !(#[trigger] views[j]).declares(name@),
        decreases items.len() - i,
    {
        if let Item::ModuleDeclaration { name: declared, text: _ } = &items[i] {
            if *declared == wanted {
                assert(views[i as int].declares(name@));
                return true;
            }
        }
        i += 1;
    }
    false
}

/// Builds the public declaration of the module `name`.
pub fn module_declaration(name: &str) -> (r: Item)
    ensures
        r@ == declaration_of(name@),
{
    let mut text = String::from_str("pub mod ");
    text.append(name);
    text.append(";");
    Item::ModuleDeclaration { name: String::from_str(name), text }
}

/// Makes the file declare the module `name`.
///
/// Nothing changes where a declaration of `name` is already there. Otherwise
/// `pub mod name;` is put just before the first module declaration, or at the
/// end of a file that has none.
pub fn merge_module(items: Vec<Item>, name: &str) -> (r: Vec<Item>)
    ensures
        item_views(r@) == merged(item_views(items@), name@),
{
    let mut out = items;
    if declares_module(&out, name) {
        return out;
    }
    let declaration = module_declaration(name);
    match first_module_declaration(&out) {
        Some(i) => {
            out.insert(i, declaration);
            assert(item_views(out@) =~= item_views(items@).insert(i as int, declaration@));
        },
        None => {
            out.push(declaration);
            assert(item_views(out@) =~= item_views(items@).push(declaration@));
        },
    }
    out
}

} // verus!
