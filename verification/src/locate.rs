//! Declaration lookup: the first module declaration of a file, and the
//! first function of a given name.

use vstd::prelude::*;
use vstd::string::*;
use crate::item::{Item, ItemView, item_views};

verus! {

/// Whether `i` is the place of the first module declaration among `items`.
pub open spec fn is_first_module_declaration(items: Seq<ItemView>, i: int) -> bool {
    &&& 0 <= i < items.len()
    &&& items[i] is ModuleDeclaration
    &&& forall|j: int| 0 <= j < i ==> !(#[trigger] items[j] is ModuleDeclaration)
}

/// The place of the first module declaration among `items`, if there is one.
pub open spec fn first_module_declaration_of(items: Seq<ItemView>) -> Option<int> {
    if exists|i: int| is_first_module_declaration(items, i) {
        Some(choose|i: int| is_first_module_declaration(items, i))
    } else {
        None
    }
}

/// Whether `i` is the place of the first function called `name` among `items`.
pub open spec fn is_first_function_named(items: Seq<ItemView>, name: Seq<char>, i: int) -> bool {
    &&& 0 <= i < items.len()
    &&& items[i].is_function_named(name)
    &&& forall|j: int| 0 <= j < i ==> !(#[trigger] items[j]).is_function_named(name)
}

/// The place of the first function called `name` among `items`, if there is one.
pub open spec fn first_function_named(items: Seq<ItemView>, name: Seq<char>) -> Option<int> {
    if exists|i: int| is_first_function_named(items, name, i) {
        Some(choose|i: int| is_first_function_named(items, name, i))
    } else {
        None
    }
}

/// A file has at most one first module declaration.
pub proof fn lemma_first_module_declaration_unique(items: Seq<ItemView>, i: int, j: int)
    requires
        is_first_module_declaration(items, i),
        is_first_module_declaration(items, j),
    ensures
        i == j,
{
    if i < j {
        assert(items[i] is ModuleDeclaration);
    } else if j < i {
        assert(items[j] is ModuleDeclaration);
    }
}

/// A file has at most one first function of a given name.
pub proof fn lemma_first_function_unique(items: Seq<ItemView>, name: Seq<char>, i: int, j: int)
    requires
        is_first_function_named(items, name, i),
        is_first_function_named(items, name, j),
    ensures
        i == j,
{
    if i < j {
        assert(items[i].is_function_named(name));
    } else if j < i {
        assert(items[j].is_function_named(name));
    }
}

/// Finds the first module declaration of a file.
///
/// Returns its index, or `None` where the file declares no module.
pub fn first_module_declaration(items: &Vec<Item>) -> (r: Option<usize>)
    ensures
        match r {
            Some(i) => first_module_declaration_of(item_views(items@)) == Some(i as int),
            None => first_module_declaration_of(item_views(items@)) is None,
        },
        r matches Some(i) ==> is_first_module_declaration(item_views(items@), i as int),
        r is None ==> forall|j: int|
            0 <= j < items@.len() ==> !(#[trigger] item_views(items@)[j] is ModuleDeclaration),
{
    let ghost views = item_views(items@);
    let mut i: usize = 0;
    while i < items.len()
        invariant
            i <= items.len(),
            views == item_views(items@),
            forall|j: int| 0 <= j < i ==> !(#[trigger] views[j] is ModuleDeclaration),
        decreases items.len() - i,
    {
        if let Item::ModuleDeclaration { .. } = &items[i] {
            proof {
                assert(is_first_module_declaration(views, i as int));
                let k = choose|k: int| is_first_module_declaration(views, k);
                lemma_first_module_declaration_unique(views, i as int, k);
            }
            return Some(i);
        }
        i += 1;
    }
    None
}

/// Finds the first function called `name`.
///
/// Returns its index, or `None` where the file has no such function. Later
/// functions of the same name are not looked at.
pub fn find_function(items: &Vec<Item>, name: &str) -> (r: Option<usize>)
    ensures
        match r {
            Some(i) => first_function_named(item_views(items@), name@) == Some(i as int),
            None => first_function_named(item_views(items@), name@) is None,
        },
        r matches Some(i) ==> is_first_function_named(item_views(items@), name@, i as int),
        r is None ==> forall|j: int|
            0 <= j < items@.len() ==> !(#[trigger] item_views(items@)[j]).is_function_named(name@),
{
    let ghost views = item_views(items@);
    let wanted = String::from_str(name);
    let mut i: usize = 0;
    while i < items.len()
        invariant
            i <= items.len(),
            views == item_views(items@),
            wanted@ == name@,
            forall|j: int| 0 <= j < i ==> !(#[trigger] views[j]).is_function_named(name@),
        decreases items.len() - i,
    {
        if let Item::Function(f) = &items[i] {
            if f.name == wanted {
                proof {
                    assert(is_first_function_named(views, name@, i as int));
                    let k = choose|k: int| is_first_function_named(views, name@, k);
                    lemma_first_function_unique(views, name@, i as int, k);
                }
                return Some(i);
            }
        }
        i += 1;
    }
    None
}

} // verus!
