//! What holds of the rewrites on every input, proved over the views.

use vstd::prelude::*;
use crate::imports::keeps;
use crate::prune::{pruned, pruned_item, pruned_upto};
use crate::rename::{is_renamed, renamed, renamed_param};
use crate::syntax::{FunctionView, ItemView};
use crate::text::{marked, occurs_at, occurs_in};
use crate::usage::used_in;
use crate::walker::{cleaned_item, cleaned_items};

verus! {

/// A text that holds a marked name holds the name itself.
pub proof fn marked_name_holds_name(text: Seq<char>, name: Seq<char>)
    requires
        occurs_in(text, marked(name)),
    ensures
        occurs_in(text, name),
{
    let at = choose|at: int| occurs_at(text, marked(name), at);
    let inner = text.subrange(at, at + marked(name).len());
    assert forall|j: int| 0 <= j < name.len() implies text[at + 1 + j] == name[j] by {
        assert(inner[j + 1] == marked(name)[j + 1]);
    }
    assert(text.subrange(at + 1, at + 1 + name.len()) =~= name);
    assert(occurs_at(text, name, at + 1));
}

/// A name that is used in no statement of a body is still unused there once
/// it carries the marker.
pub proof fn unused_name_stays_unused(name: Seq<char>, body: Seq<Seq<char>>)
    requires
        !used_in(name, body),
    ensures
        !used_in(marked(name), body),
{
    if used_in(marked(name), body) {
        let k = choose|k: int| 0 <= k < body.len() && occurs_in(#[trigger] body[k], marked(name));
        marked_name_holds_name(body[k], name);
        assert(occurs_in(body[k], name));
    }
}

/// Every parameter of `function` is left alone by the renamer: each is used
/// in the body, or binds no plain identifier.
pub open spec fn all_params_settled(function: FunctionView) -> bool {
    forall|i: int|
        0 <= i < function.params.len() ==> !is_renamed(
            #[trigger] function.params[i],
            function.body,
        )
}

/// Renaming changes nothing in a function whose parameters are all settled,
/// and so renaming twice gives what renaming once gives.
pub proof fn rename_twice_when_settled(function: FunctionView)
    requires
        all_params_settled(function),
    ensures
        renamed(function) == function,
        renamed(renamed(function)) == renamed(function),
{
    assert(renamed(function).params =~= function.params);
}

/// A parameter that the renamer marks is marked again by a second pass: its
/// marked name is no more used in the body than the bare name was. Renaming
/// twice therefore differs from renaming once on every function that has
/// such a parameter.
pub proof fn rename_marks_again(function: FunctionView, i: int)
    requires
        0 <= i < function.params.len(),
        is_renamed(function.params[i], function.body),
    ensures
        renamed(function).params[i].name == marked(function.params[i].name),
        is_renamed(renamed(function).params[i], renamed(function).body),
        renamed(renamed(function)).params[i].name == marked(marked(function.params[i].name)),
        renamed(renamed(function)) != renamed(function),
{
    let name = function.params[i].name;
    unused_name_stays_unused(name, function.body);
    let once = renamed(function);
    let twice = renamed(once);
    assert(once.params[i] == renamed_param(function.params[i], function.body));
    assert(twice.params[i] == renamed_param(once.params[i], once.body));
    assert(marked(marked(name)).len() != marked(name).len());
}

/// Renaming twice gives what renaming once gives exactly on the functions
/// whose parameters are all settled.
pub proof fn rename_twice_boundary(function: FunctionView)
    ensures
        renamed(renamed(function)) == renamed(function) <==> all_params_settled(function),
{
    if all_params_settled(function) {
        rename_twice_when_settled(function);
    } else {
        let i = choose|i: int|
            0 <= i < function.params.len() && is_renamed(
                #[trigger] function.params[i],
                function.body,
            );
        rename_marks_again(function, i);
    }
}

/// The pass would change nothing in `item`: at every level of nesting, each
/// import is kept by `allow` and each function has all its parameters
/// settled.
pub open spec fn item_settled(allow: Seq<Seq<char>>, item: ItemView) -> bool
    decreases item,
{
    match item {
        ItemView::Function(f) => all_params_settled(f) && items_settled(allow, f.nested),
        ItemView::Import(path) => keeps(allow, path),
        ItemView::Other(nested) => items_settled(allow, nested),
        ItemView::Erased => true,
    }
}

/// Every item of the run is settled.
pub open spec fn items_settled(allow: Seq<Seq<char>>, items: Seq<ItemView>) -> bool
    decreases items,
{
    forall|i: int| 0 <= i < items.len() ==> item_settled(allow, #[trigger] items[i])
}

/// The pass leaves a settled item as it is.
pub proof fn clean_keeps_settled_item(allow: Seq<Seq<char>>, item: ItemView)
    requires
        item_settled(allow, item),
    ensures
        cleaned_item(allow, item) == item,
    decreases item,
{
    match item {
        ItemView::Function(f) => {
            rename_twice_when_settled(f);
            clean_keeps_settled(allow, f.nested);
        },
        ItemView::Import(path) => {},
        ItemView::Other(nested) => {
            clean_keeps_settled(allow, nested);
        },
        ItemView::Erased => {},
    }
}

/// The pass leaves a file as it is when every import in it is kept by the
/// allow-list and every parameter of every function in it is used.
pub proof fn clean_keeps_settled(allow: Seq<Seq<char>>, items: Seq<ItemView>)
    requires
        items_settled(allow, items),
    ensures
        cleaned_items(allow, items) == items,
    decreases items,
{
    assert forall|i: int| 0 <= i < items.len() implies cleaned_items(allow, items)[i]
        == items[i] by {
        clean_keeps_settled_item(allow, items[i]);
    }
    assert(cleaned_items(allow, items) =~= items);
}

/// The paths of the imports that stand in `item`, at any depth, in order.
pub open spec fn imports_of_item(item: ItemView) -> Seq<Seq<char>>
    decreases item, 0nat,
{
    match item {
        ItemView::Function(f) => imports_upto(f.nested, f.nested.len()),
        ItemView::Import(path) => seq![path],
        ItemView::Other(nested) => imports_upto(nested, nested.len()),
        ItemView::Erased => Seq::empty(),
    }
}

/// The paths of the imports that stand in the first `n` items of a run, at
/// any depth, in order.
pub open spec fn imports_upto(items: Seq<ItemView>, n: nat) -> Seq<Seq<char>>
    decreases items, n,
{
    if n == 0 || n > items.len() {
        Seq::empty()
    } else {
        imports_upto(items, (n - 1) as nat) + imports_of_item(items[n - 1])
    }
}

/// The paths of all the imports of a file, at any depth, in order.
pub open spec fn imports_of(items: Seq<ItemView>) -> Seq<Seq<char>> {
    imports_upto(items, items.len())
}

/// The imports that stand in an item after the pass are those that stood
/// in it before and that `allow` keeps, in the same order.
pub proof fn clean_filters_imports_of_item(allow: Seq<Seq<char>>, item: ItemView)
    ensures
        imports_of_item(cleaned_item(allow, item)) == imports_of_item(item).filter(
            |path: Seq<char>| keeps(allow, path),
        ),
    decreases item, 0nat,
{
    let kept = |path: Seq<char>| keeps(allow, path);
    reveal(Seq::filter);
    match item {
        ItemView::Function(f) => {
            clean_filters_imports_upto(allow, f.nested, f.nested.len());
        },
        ItemView::Import(path) => {
            let one = seq![path];
            assert(one.drop_last() =~= Seq::<Seq<char>>::empty());
            assert(one.drop_last().filter(kept) =~= Seq::<Seq<char>>::empty());
            assert(one.last() == path);
            if keeps(allow, path) {
                assert(one.filter(kept) =~= one);
            } else {
                assert(one.filter(kept) =~= Seq::<Seq<char>>::empty());
            }
        },
        ItemView::Other(nested) => {
            clean_filters_imports_upto(allow, nested, nested.len());
        },
        ItemView::Erased => {
            assert(Seq::<Seq<char>>::empty().filter(kept) =~= Seq::<Seq<char>>::empty());
        },
    }
}

/// The same, of the first `n` items of a run.
pub proof fn clean_filters_imports_upto(allow: Seq<Seq<char>>, items: Seq<ItemView>, n: nat)
    requires
        n <= items.len(),
    ensures
        imports_upto(cleaned_items(allow, items), n) == imports_upto(items, n).filter(
            |path: Seq<char>| keeps(allow, path),
        ),
    decreases items, n,
{
    let kept = |path: Seq<char>| keeps(allow, path);
    if n == 0 {
        reveal(Seq::filter);
        assert(Seq::<Seq<char>>::empty().filter(kept) =~= Seq::<Seq<char>>::empty());
    } else {
        clean_filters_imports_upto(allow, items, (n - 1) as nat);
        clean_filters_imports_of_item(allow, items[n - 1]);
        Seq::filter_distributes_over_add(
            imports_upto(items, (n - 1) as nat),
            imports_of_item(items[n - 1]),
            kept,
        );
    }
}

/// After the pass, the imports that remain in a file, at any depth, are
/// exactly the imports of the file that the allow-list keeps, each as it was
/// and in the order in which they stood. An import that the allow-list does
/// not keep is nowhere in the result.
pub proof fn clean_filters_imports(allow: Seq<Seq<char>>, items: Seq<ItemView>)
    ensures
        imports_of(cleaned_items(allow, items)) == imports_of(items).filter(
            |path: Seq<char>| keeps(allow, path),
        ),
{
    clean_filters_imports_upto(allow, items, items.len());
}

/// No placeholder stands in any run of items nested in `item`.
pub open spec fn item_free_of_placeholders(item: ItemView) -> bool
    decreases item,
{
    match item {
        ItemView::Function(f) => free_of_placeholders(f.nested),
        ItemView::Other(nested) => free_of_placeholders(nested),
        ItemView::Import(_) => true,
        ItemView::Erased => true,
    }
}

/// No placeholder stands in the run, at any depth.
pub open spec fn free_of_placeholders(items: Seq<ItemView>) -> bool
    decreases items,
{
    forall|i: int|
        0 <= i < items.len() ==> !(#[trigger] items[i] is Erased) && item_free_of_placeholders(
            items[i],
        )
}

/// Pruning an item leaves no placeholder nested in it, and makes no item a
/// placeholder that was none.
pub proof fn pruned_item_is_free(item: ItemView)
    ensures
        item_free_of_placeholders(pruned_item(item)),
        pruned_item(item) is Erased <==> item is Erased,
    decreases item, 0nat,
{
    match item {
        ItemView::Function(f) => {
            pruned_upto_is_free(f.nested, f.nested.len());
        },
        ItemView::Other(nested) => {
            pruned_upto_is_free(nested, nested.len());
        },
        ItemView::Import(_) => {},
        ItemView::Erased => {},
    }
}

/// The same, of the first `n` items of a run.
pub proof fn pruned_upto_is_free(items: Seq<ItemView>, n: nat)
    requires
        n <= items.len(),
    ensures
        free_of_placeholders(pruned_upto(items, n)),
    decreases items, n,
{
    if n > 0 {
        pruned_upto_is_free(items, (n - 1) as nat);
        pruned_item_is_free(items[n - 1]);
    }
}

/// After pruning, no placeholder is left in a tree, at any depth.
pub proof fn pruned_is_free(items: Seq<ItemView>)
    ensures
        free_of_placeholders(pruned(items)),
{
    pruned_upto_is_free(items, items.len());
}

/// Pruning changes nothing in an item that nests no placeholder.
pub proof fn prune_keeps_free_item(item: ItemView)
    requires
        item_free_of_placeholders(item),
    ensures
        pruned_item(item) == item,
    decreases item, 0nat,
{
    match item {
        ItemView::Function(f) => {
            prune_keeps_free_upto(f.nested, f.nested.len());
            assert(f.nested.subrange(0, f.nested.len() as int) =~= f.nested);
        },
        ItemView::Other(nested) => {
            prune_keeps_free_upto(nested, nested.len());
            assert(nested.subrange(0, nested.len() as int) =~= nested);
        },
        ItemView::Import(_) => {},
        ItemView::Erased => {},
    }
}

/// The same, of the first `n` items of a run.
pub proof fn prune_keeps_free_upto(items: Seq<ItemView>, n: nat)
    requires
        n <= items.len(),
        free_of_placeholders(items),
    ensures
        pruned_upto(items, n) == items.subrange(0, n as int),
    decreases items, n,
{
    if n > 0 {
        prune_keeps_free_upto(items, (n - 1) as nat);
        prune_keeps_free_item(items[n - 1]);
        assert(items.subrange(0, n - 1).push(items[n - 1]) =~= items.subrange(0, n as int));
    } else {
        assert(items.subrange(0, 0) =~= Seq::<ItemView>::empty());
    }
}

/// Pruning changes nothing in a tree that holds no placeholder, and so
/// pruning twice gives what pruning once gives.
pub proof fn prune_twice(items: Seq<ItemView>)
    ensures
        free_of_placeholders(items) ==> pruned(items) == items,
        pruned(pruned(items)) == pruned(items),
{
    if free_of_placeholders(items) {
        prune_keeps_free_upto(items, items.len());
        assert(items.subrange(0, items.len() as int) =~= items);
    }
    pruned_is_free(items);
    let once = pruned(items);
    prune_keeps_free_upto(once, once.len());
    assert(once.subrange(0, once.len() as int) =~= once);
}

/// The imports of the first `n` items of a run depend on those items alone.
pub proof fn imports_upto_of_equal_starts(a: Seq<ItemView>, b: Seq<ItemView>, n: nat)
    requires
        n <= a.len(),
        n <= b.len(),
        forall|i: int| 0 <= i < n ==> a[i] == b[i],
    ensures
        imports_upto(a, n) == imports_upto(b, n),
    decreases n,
{
    if n > 0 {
        imports_upto_of_equal_starts(a, b, (n - 1) as nat);
    }
}

/// Pruning an item takes no import out of it and puts none in.
pub proof fn prune_keeps_imports_of_item(item: ItemView)
    ensures
        imports_of_item(pruned_item(item)) == imports_of_item(item),
    decreases item, 0nat,
{
    match item {
        ItemView::Function(f) => {
            prune_keeps_imports_upto(f.nested, f.nested.len());
        },
        ItemView::Other(nested) => {
            prune_keeps_imports_upto(nested, nested.len());
        },
        ItemView::Import(_) => {},
        ItemView::Erased => {},
    }
}

/// The same, of the first `n` items of a run.
pub proof fn prune_keeps_imports_upto(items: Seq<ItemView>, n: nat)
    requires
        n <= items.len(),
    ensures
        imports_of(pruned_upto(items, n)) == imports_upto(items, n),
    decreases items, n,
{
    if n > 0 {
        let before = pruned_upto(items, (n - 1) as nat);
        prune_keeps_imports_upto(items, (n - 1) as nat);
        prune_keeps_imports_of_item(items[n - 1]);
        if !(items[n - 1] is Erased) {
            let after = before.push(pruned_item(items[n - 1]));
            imports_upto_of_equal_starts(after, before, before.len());
            assert(imports_of_item(items[n - 1]) == imports_of_item(after[after.len() - 1]));
        } else {
            assert(imports_upto(items, n) =~= imports_upto(items, (n - 1) as nat));
        }
    }
}

/// Pruning takes only placeholders out: the imports of a tree, at any
/// depth, are the same before and after, in the same order.
pub proof fn prune_keeps_imports(items: Seq<ItemView>)
    ensures
        imports_of(pruned(items)) == imports_of(items),
{
    prune_keeps_imports_upto(items, items.len());
}

/// After the pass and the pruning, a file holds no placeholder, and its
/// imports are exactly those that the allow-list keeps, each as it was and
/// in the order in which they stood: an import that the allow-list does not
/// keep has left no trace.
pub proof fn clean_then_prune_filters_imports(allow: Seq<Seq<char>>, items: Seq<ItemView>)
    ensures
        free_of_placeholders(pruned(cleaned_items(allow, items))),
        imports_of(pruned(cleaned_items(allow, items))) == imports_of(items).filter(
            |path: Seq<char>| keeps(allow, path),
        ),
{
    pruned_is_free(cleaned_items(allow, items));
    prune_keeps_imports(cleaned_items(allow, items));
    clean_filters_imports(allow, items);
}

} // verus!
