//! The parameter renamer: an unused parameter gets the marker in front.

use vstd::prelude::*;
use crate::syntax::{Function, FunctionView, ParameterView};
use crate::text::{marked, with_marker};
use crate::usage::{is_used, used_in};

verus! {

/// The renamer acts on `param`: it binds one plain identifier, and that
/// identifier occurs in no statement of `body`.
pub open spec fn is_renamed(param: ParameterView, body: Seq<Seq<char>>) -> bool {
    param.simple && !used_in(param.name, body)
}

/// `param` as the renamer leaves it, in a function whose statements are
/// `body`. Only the name can change.
pub open spec fn renamed_param(param: ParameterView, body: Seq<Seq<char>>) -> ParameterView {
    if is_renamed(param, body) {
        ParameterView { name: marked(param.name), ty: param.ty, simple: param.simple }
    } else {
        param
    }
}

/// `function` as the renamer leaves it: every parameter rewritten against
/// the function's own statements, the rest as it was.
pub open spec fn renamed(function: FunctionView) -> FunctionView {
    FunctionView {
        params: Seq::new(
            function.params.len(),
            |i: int| renamed_param(function.params[i], function.body),
        ),
        body: function.body,
        nested: function.nested,
    }
}

/// Puts the marker in front of each parameter of `function` that binds a
/// plain identifier whose name occurs in no statement of the body.
///
/// A parameter whose name occurs in a statement keeps its name, and so does
/// one that is no plain identifier. The number of parameters, their order
/// and their types stay, and so do the body and the nested items.
pub fn rename(function: &mut Function)
    ensures
        final(function)@ == renamed(old(function)@),
        final(function)@.params.len() == old(function)@.params.len(),
        forall|i: int|
            0 <= i < old(function)@.params.len() ==> {
                let before = #[trigger] old(function)@.params[i];
                let after = final(function)@.params[i];
                &&& after.ty == before.ty
                &&& after.simple == before.simple
                &&& used_in(before.name, old(function)@.body) ==> after.name == before.name
                &&& !before.simple ==> after.name == before.name
                &&& before.simple && !used_in(before.name, old(function)@.body) ==> after.name
                    == marked(before.name)
            },
        final(function).body == old(function).body,
        final(function).nested == old(function).nested,
{
    let mut i: usize = 0;
    while i < function.params.len()
        invariant
            i <= function.params.len(),
            function.params.len() == old(function).params.len(),
            function.body == old(function).body,
            function.nested == old(function).nested,
            forall|j: int|
                0 <= j < i ==> (#[trigger] function.params[j])@ == renamed_param(
                    old(function).params[j]@,
                    old(function)@.body,
                ),
            forall|j: int|
                i <= j < function.params.len() ==> #[trigger] function.params[j] == old(
                    function,
                ).params[j],
        decreases function.params.len() - i,
    {
        if function.params[i].simple {
            let used = is_used(function.params[i].name.as_str(), &function.body);
            if !used {
                let name = with_marker(function.params[i].name.as_str());
                function.params[i].name = name;
            }
        }
        i += 1;
    }
    assert(function@.params =~= renamed(old(function)@).params);
}

} // verus!
