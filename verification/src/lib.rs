//! A source cleaner for Rust files, as a verified library.
//!
//! The cleaner works on a plain model of a parsed file ([`syntax`]): the
//! functions with their parameters and rendered statements, the imports with
//! their rendered paths, and whatever else nests items. Two rewrites run
//! over that model in a single walk ([`walker`]): a parameter whose name
//! occurs in no statement of its function gets an underscore in front
//! ([`usage`], [`rename`]), and an import whose path holds no marker of the
//! allow-list is erased ([`imports`]). Before the tree is rendered, the
//! placeholders that the erased imports left are taken out ([`prune`]).
//!
//! Both rewrites are tests on text, not on meaning. A name counts as used
//! wherever its letters occur in a statement, so a parameter is rather left
//! alone than marked by mistake; an import is kept for a marker in its path,
//! whether or not anything uses it.
//!
//! Every function carries its contract, and [`laws`] proves what holds of
//! the rewrites on all inputs. Parsing and formatting are left to the
//! caller, who reads a parsed file into the model and writes the cleaned
//! model back.
//!
//! Beside the cleaner stands the checked counter of the on-chain program
//! that the cleaner is run on ([`counter`]).

pub mod counter;
pub mod imports;
pub mod laws;
pub mod prune;
pub mod rename;
pub mod syntax;
pub mod text;
pub mod usage;
pub mod walker;

pub use counter::UserCounter;
pub use imports::ImportFilter;
pub use prune::prune;
pub use rename::rename;
pub use syntax::{Function, Import, Item, Parameter, Statement, SyntaxTree};
pub use usage::is_used;
pub use walker::{clean, clean_item, clean_items};
