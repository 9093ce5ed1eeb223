//! Taking the placeholders out of a cleaned tree.
//!
//! The walk leaves an empty placeholder where it erases an import, so that
//! no item moves while it runs. Before a tree is rendered the placeholders
//! are taken out, and an erased import is then no part of the tree at all.

use vstd::prelude::*;
use crate::syntax::{item_view, items_view, FunctionView, Item, ItemView, SyntaxTree};

verus! {

/// `item` with the placeholders taken out of every run of items nested in
/// it. The item itself stays, whatever it is.
pub open spec fn pruned_item(item: ItemView) -> ItemView
    decreases item, 0nat,
{
    match item {
        ItemView::Function(f) => ItemView::Function(
            FunctionView {
                params: f.params,
                body: f.body,
                nested: pruned_upto(f.nested, f.nested.len()),
            },
        ),
        ItemView::Other(nested) => ItemView::Other(pruned_upto(nested, nested.len())),
        ItemView::Import(_) => item,
        ItemView::Erased => item,
    }
}

/// The first `n` items of a run without the placeholders among them, each
/// pruned in turn, in their order.
pub open spec fn pruned_upto(items: Seq<ItemView>, n: nat) -> Seq<ItemView>
    decreases items, n,
{
    if n == 0 || n > items.len() {
        Seq::empty()
    } else {
        let before = pruned_upto(items, (n - 1) as nat);
        if items[n - 1] is Erased {
            before
        } else {
            before.push(pruned_item(items[n - 1]))
        }
    }
}

/// A run of items without its placeholders, at every level of nesting.
pub open spec fn pruned(items: Seq<ItemView>) -> Seq<ItemView> {
    pruned_upto(items, items.len())
}

/// Takes the placeholders out of every run of items nested in `item`.
pub fn prune_item(item: &mut Item)
    ensures
        final(item)@ == pruned_item(old(item)@),
    decreases *old(item),
{
    match item {
        Item::Function(function) => {
            prune_items(&mut function.nested);
        },
        Item::Other(nested) => {
            prune_items(nested);
        },
        Item::Import(_) => {},
        Item::Erased => {},
    }
}

/// Takes the placeholders out of a run of items, at every level of nesting.
/// What stays keeps its order.
pub fn prune_items(items: &mut Vec<Item>)
    ensures
        items_view(*final(items)) == pruned(items_view(*old(items))),
    decreases *old(items),
{
    let ghost whole = items_view(*old(items));
    let ghost mut seen: int = 0;
    let mut i: usize = 0;
    while i < items.len()
        invariant
            0 <= i <= seen <= old(items).len(),
            items.len() - i == old(items).len() - seen,
            whole == items_view(*old(items)),
            forall|j: int| i <= j < items.len() ==> #[trigger] items[j] == old(items)[j - i + seen],
            items_view(*items).subrange(0, i as int) == pruned_upto(whole, seen as nat),
        decreases items.len() - i,
    {
        let ghost prefix = items_view(*items).subrange(0, i as int);
        assert(items[i as int] == old(items)[seen]);
        assert(whole[seen] == item_view(old(items)[seen]));
        let erased = match &items[i] {
            Item::Erased => true,
            _ => false,
        };
        if erased {
            items.remove(i);
            assert(items_view(*items).subrange(0, i as int) =~= prefix);
        } else {
            prune_item(&mut items[i]);
            assert(items_view(*items).subrange(0, i + 1) =~= prefix.push(
                pruned_item(whole[seen]),
            ));
            i += 1;
        }
        proof {
            seen = seen + 1;
        }
    }
    assert(items_view(*items).subrange(0, i as int) =~= items_view(*items));
}

/// Takes every placeholder out of a tree. An import that the walk erased is
/// then gone from the tree, and every other item stands where it stood
/// among those that stay.
pub fn prune(tree: &mut SyntaxTree)
    ensures
        final(tree)@ == pruned(old(tree)@),
{
    prune_items(&mut tree.items);
}

} // verus!
