//! The usage detector: does a name occur in the text of a function body?
//!
//! The test is on text alone. A name that occurs inside a longer word, or in
//! a string literal, counts as used, so the detector errs on the side of
//! leaving a parameter alone.

use vstd::prelude::*;
use crate::syntax::{body_view, Statement};
use crate::text::{chars_of, occurs, occurs_in};

verus! {

/// `name` is a substring of at least one statement of `body`.
///
/// No name is used in an empty body. The empty name is a substring of every
/// text, so it is used in every body that has a statement.
pub open spec fn used_in(name: Seq<char>, body: Seq<Seq<char>>) -> bool {
    exists|k: int| 0 <= k < body.len() && occurs_in(#[trigger] body[k], name)
}

/// Whether `name` occurs in the rendered text of any statement of `body`.
pub fn is_used(name: &str, body: &Vec<Statement>) -> (used: bool)
    ensures
        used == used_in(name@, body_view(body@)),
{
    let name_chars = chars_of(name);
    let mut k: usize = 0;
    while k < body.len()
        invariant
            k <= body.len(),
            name_chars@ == name@,
            forall|j: int| 0 <= j < k ==> !occurs_in(#[trigger] body_view(body@)[j], name@),
        decreases body.len() - k,
    {
        let text_chars = chars_of(body[k].text.as_str());
        if occurs(&text_chars, &name_chars) {
            assert(occurs_in(body_view(body@)[k as int], name@));
            return true;
        }
        k += 1;
    }
    false
}

} // verus!
