//! The tree walker: one pass over a whole file, renaming the parameters of
//! every function and erasing every import that the filter does not keep.

use vstd::prelude::*;
use crate::imports::{keeps, ImportFilter};
use crate::rename::{rename, renamed};
use crate::syntax::{item_view, items_view, FunctionView, Item, ItemView, SyntaxTree};

verus! {

/// `item` after the pass, with `allow` as the allow-list.
///
/// A function has its parameters renamed against its own statements, and
/// its nested items cleaned in turn. An import stays as it is if `allow`
/// keeps its path, and becomes the empty placeholder if not. Any other item
/// keeps its place, with its nested items cleaned.
pub open spec fn cleaned_item(allow: Seq<Seq<char>>, item: ItemView) -> ItemView
    decreases item,
{
    match item {
        ItemView::Function(f) => {
            let r = renamed(f);
            ItemView::Function(
                FunctionView {
                    params: r.params,
                    body: r.body,
                    nested: cleaned_items(allow, f.nested),
                },
            )
        },
        ItemView::Import(path) => if keeps(allow, path) {
            item
        } else {
            ItemView::Erased
        },
        ItemView::Other(nested) => ItemView::Other(cleaned_items(allow, nested)),
        ItemView::Erased => ItemView::Erased,
    }
}

/// A run of items after the pass: each item cleaned, in its place.
pub open spec fn cleaned_items(allow: Seq<Seq<char>>, items: Seq<ItemView>) -> Seq<ItemView>
    decreases items,
{
    Seq::new(
        items.len(),
        |i: int|
            if 0 <= i < items.len() {
                cleaned_item(allow, items[i])
            } else {
                ItemView::Erased
            },
    )
}

/// Cleans one item and everything nested in it.
///
/// An import whose path holds a marker of the allow-list comes out as it
/// went in; any other import comes out as the empty placeholder.
pub fn clean_item(item: &mut Item, filter: &ImportFilter)
    ensures
        final(item)@ == cleaned_item(filter@, old(item)@),
        old(item)@ matches ItemView::Import(path) ==> {
            &&& keeps(filter@, path) ==> final(item)@ == old(item)@
            &&& !keeps(filter@, path) ==> final(item)@ is Erased
        },
    decreases *old(item),
{
    match item {
        Item::Function(function) => {
            rename(function);
            clean_items(&mut function.nested, filter);
        },
        Item::Import(import) => {
            if !filter.should_keep(import.path.as_str()) {
                *item = Item::Erased;
            }
        },
        Item::Other(nested) => {
            clean_items(nested, filter);
        },
        Item::Erased => {},
    }
}

/// Cleans each item of a run, first to last, each before the items nested
/// in it. The run keeps its length, and each item its place.
pub fn clean_items(items: &mut Vec<Item>, filter: &ImportFilter)
    ensures
        items_view(*final(items)) == cleaned_items(filter@, items_view(*old(items))),
        final(items).len() == old(items).len(),
    decreases *old(items),
{
    let mut i: usize = 0;
    while i < items.len()
        invariant
            i <= items.len(),
            items.len() == old(items).len(),
            forall|j: int|
                0 <= j < i ==> item_view(#[trigger] items[j]) == cleaned_item(
                    filter@,
                    item_view(old(items)[j]),
                ),
            forall|j: int| i <= j < items.len() ==> #[trigger] items[j] == old(items)[j],
        decreases items.len() - i,
    {
        clean_item(&mut items[i], filter);
        i += 1;
    }
    assert(items_view(*items) =~= cleaned_items(filter@, items_view(*old(items))));
}

/// Runs the pass over a whole file.
///
/// Every item is visited once, at every level of nesting. Afterwards each
/// function has its unused parameters marked, and each import that the
/// filter does not keep has become the empty placeholder; nothing else has
/// changed, and no item has moved.
pub fn clean(tree: &mut SyntaxTree, filter: &ImportFilter)
    ensures
        final(tree)@ == cleaned_items(filter@, old(tree)@),
        final(tree)@.len() == old(tree)@.len(),
        forall|i: int|
            0 <= i < old(tree)@.len() ==> #[trigger] final(tree)@[i] == cleaned_item(
                filter@,
                old(tree)@[i],
            ),
{
    clean_items(&mut tree.items, filter);
}

} // verus!
