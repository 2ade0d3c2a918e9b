//! Where things live below the project's root directory.
//!
//! Paths are lists of components; the caller joins them to the root as the
//! platform wants them joined.

use crate::command::{no_texts, push_text};
use vstd::prelude::*;

verus! {

/// The fixture list: `test/fixtures/fixtures.json`.
pub open spec fn fixture_list_path_view() -> Seq<Seq<char>> {
    seq!["test"@, "fixtures"@, "fixtures.json"@]
}

/// The working copy of a grammar: `test/fixtures/grammars/<name>`.
pub open spec fn grammar_dir_path_view(grammar: Seq<char>) -> Seq<Seq<char>> {
    seq!["test"@, "fixtures"@, "grammars"@, grammar]
}

/// The Emscripten SDK: `target/emsdk`.
pub open spec fn sdk_dir_path_view() -> Seq<Seq<char>> {
    seq!["target"@, "emsdk"@]
}

/// The path of the fixture list below the root.
pub fn fixture_list_path() -> (path: Vec<String>)
    ensures
        path.deep_view() == fixture_list_path_view(),
{
    let mut path = no_texts();
    push_text(&mut path, "test");
    push_text(&mut path, "fixtures");
    push_text(&mut path, "fixtures.json");
    path
}

/// The path of a grammar's working copy below the root.
pub fn grammar_dir_path(grammar: &str) -> (path: Vec<String>)
    ensures
        path.deep_view() == grammar_dir_path_view(grammar@),
{
    let mut path = no_texts();
    push_text(&mut path, "test");
    push_text(&mut path, "fixtures");
    push_text(&mut path, "grammars");
    push_text(&mut path, grammar);
    path
}

/// The path of the Emscripten SDK below the root.
pub fn sdk_dir_path() -> (path: Vec<String>)
    ensures
        path.deep_view() == sdk_dir_path_view(),
{
    let mut path = no_texts();
    push_text(&mut path, "target");
    push_text(&mut path, "emsdk");
    path
}

} // verus!
