//! The import filter: an import stays only if its path holds a marker of
//! the allow-list.

use vstd::prelude::*;
use vstd::string::StringExecFns;
use crate::text::{chars_of, occurs, occurs_in};

verus! {

/// `path` holds at least one marker of `allow` as a substring.
pub open spec fn keeps(allow: Seq<Seq<char>>, path: Seq<char>) -> bool {
    exists|k: int| 0 <= k < allow.len() && occurs_in(path, #[trigger] allow[k])
}

/// The texts of a run of strings.
pub open spec fn texts(strings: Seq<String>) -> Seq<Seq<char>> {
    Seq::new(strings.len(), |i: int| strings[i]@)
}

/// The markers that the filter keeps by default: the two namespaces of the
/// Solana ecosystem.
pub open spec fn default_markers() -> Seq<Seq<char>> {
    seq!["solana_program"@, "solana_sdk"@]
}

/// An allow-list of markers, fixed when the filter is made.
#[derive(Debug)]
pub struct ImportFilter {
    allow_list: Vec<String>,
}

impl View for ImportFilter {
    type V = Seq<Seq<char>>;

    closed spec fn view(&self) -> Seq<Seq<char>> {
        texts(self.allow_list@)
    }
}

impl ImportFilter {
    /// A filter that keeps the imports whose path holds one of `allow_list`.
    pub fn new(allow_list: Vec<String>) -> (filter: Self)
        ensures
            filter@ == texts(allow_list@),
    {
        ImportFilter { allow_list }
    }

    /// Whether an import with the rendered path `path` stays: whether the
    /// path holds a marker of the allow-list.
    pub fn should_keep(&self, path: &str) -> (keep: bool)
        ensures
            keep == keeps(self@, path@),
    {
        let path_chars = chars_of(path);
        let mut k: usize = 0;
        while k < self.allow_list.len()
            invariant
                k <= self.allow_list.len(),
                path_chars@ == path@,
                forall|j: int| 0 <= j < k ==> !occurs_in(path@, #[trigger] self@[j]),
            decreases self.allow_list.len() - k,
        {
            let marker_chars = chars_of(self.allow_list[k].as_str());
            if occurs(&path_chars, &marker_chars) {
                assert(occurs_in(path@, self@[k as int]));
                return true;
            }
            k += 1;
        }
        false
    }
}

impl Default for ImportFilter {
    /// The filter with the default markers.
    fn default() -> (filter: Self)
        ensures
            filter@ == default_markers(),
    {
        let mut allow_list: Vec<String> = Vec::new();
        allow_list.push(String::from_str("solana_program"));
        allow_list.push(String::from_str("solana_sdk"));
        let filter = ImportFilter { allow_list };
        assert(filter@ =~= default_markers());
        filter
    }
}

} // verus!
