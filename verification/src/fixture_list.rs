//! Reading the fixture list.
//!
//! The list is a JSON array; each entry is an array of a grammar name, a tag,
//! and a branch name or `null`.

use crate::json::{error_message, parse_entries, parsed_entries};
use crate::sync::{FixtureSpec, FixtureSpecView};
use vstd::prelude::*;

verus! {

/// A fixture list that is not what it must be. The whole run ends on it.
#[derive(Debug, PartialEq, Eq)]
pub struct MalformedList {
    /// What the JSON reader said of the text.
    pub reason: String,
}

/// The fixtures of a list, each as a mathematical value.
pub open spec fn fixture_views(fixtures: Seq<FixtureSpec>) -> Seq<FixtureSpecView> {
    Seq::new(fixtures.len(), |i: int| fixtures[i]@)
}

/// The fixture that an entry of the list stands for.
pub open spec fn entry_fixture(
    entry: (Seq<char>, Seq<char>, Option<Seq<char>>),
) -> FixtureSpecView {
    FixtureSpecView { grammar_name: entry.0, tag: entry.1, branch: entry.2 }
}

/// The fixtures that a list text stands for, in the order of the list, or
/// nothing where the text is not a list of entries.
pub open spec fn listed_fixtures(text: Seq<char>) -> Option<Seq<FixtureSpecView>> {
    match parsed_entries(text) {
        Some(entries) => Some(Seq::new(entries.len(), |i: int| entry_fixture(entries[i]))),
        None => None,
    }
}

/// Reads the fixture list: one fixture per entry, in the order of the list.
pub fn load_fixtures(text: &str) -> (r: Result<Vec<FixtureSpec>, MalformedList>)
    ensures
        match r {
            Ok(fixtures) => listed_fixtures(text@) == Some(fixture_views(fixtures@)),
            Err(_) => listed_fixtures(text@) is None,
        },
{
    let entries = match parse_entries(text) {
        Ok(entries) => entries,
        Err(error) => {
            return Err(MalformedList { reason: error_message(&error) });
        },
    };
    let mut fixtures: Vec<FixtureSpec> = Vec::new();
    let mut i: usize = 0;
    while i < entries.len()
        invariant
            i <= entries.len(),
            fixtures.len() == i,
            forall|j: int|
                0 <= j < i ==> (#[trigger] fixtures[j])@ == entry_fixture(entries.deep_view()[j]),
        decreases entries.len() - i,
    {
        let entry = &entries[i];
        let branch = match &entry.2 {
            Some(branch) => Some(branch.clone()),
            None => None,
        };
        fixtures.push(FixtureSpec { grammar_name: entry.0.clone(), tag: entry.1.clone(), branch });
        i = i + 1;
    }
    Ok(fixtures)
}

} // verus!
