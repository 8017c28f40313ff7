//! Lint checks over a resolved syntax tree, and a scanner for runs of tabs.
//!
//! The tree comes from a front-end that has already resolved names and types:
//! each node carries what the checks ask of it (the declaration a path resolves
//! to, facts about its type, the source text of its span), and the canonical
//! paths that the checks look for are handed in as a table. Each check is a
//! function from a node to its findings, stated exactly by a spec function.

pub mod scan;
pub mod tree;
pub mod idents;
pub mod finding;
pub mod mem_replace;
pub mod option_map_unwrap_or;
pub mod tabs_in_doc_comments;
