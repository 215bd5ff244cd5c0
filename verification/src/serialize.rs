//! Serialization: the items of a file written out as text, one after another.

use vstd::prelude::*;
use vstd::string::*;
use crate::item::{Item, ItemView, item_views};

verus! {

/// The first `n` items as text: each item's own text, a line break between
/// two items.
pub open spec fn rendered_prefix(items: Seq<ItemView>, n: nat) -> Seq<char>
    decreases n,
{
    if n == 0 {
        Seq::empty()
    } else if n == 1 {
        items[0].text()
    } else {
        rendered_prefix(items, (n - 1) as nat) + "\n"@ + items[n - 1].text()
    }
}

/// A file as text.
pub open spec fn rendered(items: Seq<ItemView>) -> Seq<char> {
    rendered_prefix(items, items.len())
}

/// Writes the items out in order, each as its own text, with a line break
/// between two items. The text of an item is not touched.
pub fn serialize(items: &Vec<Item>) -> (r: String)
    ensures
        r@ == rendered(item_views(items@)),
{
    let mut out = String::new();
    let mut i: usize = 0;
    while i < items.len()
        invariant
            i <= items.len(),
            out@ == rendered_prefix(item_views(items@), i as nat),
        decreases items.len() - i,
    {
        if i > 0 {
            out.append("\n");
        }
        out.append(items[i].text().as_str());
        assert(out@ =~= rendered_prefix(item_views(items@), (i + 1) as nat));
        i += 1;
    }
    out
}

} // verus!
