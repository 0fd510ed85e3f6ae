//! Choosing a convention by its name.

use vstd::prelude::*;
use crate::convert::Case;

verus! {

/// The convention called `name`, if there is one. Sentence case has no name.
pub open spec fn case_named(name: Seq<char>) -> Option<Case> {
    if name == "pascal"@ {
        Some(Case::PascalCase)
    } else if name == "camel"@ {
        Some(Case::CamelCase)
    } else if name == "snake"@ {
        Some(Case::SnakeCase)
    } else {
        None
    }
}

/// Whether two texts hold the same characters.
fn same_text(a: &str, b: &str) -> (same: bool)
    ensures
        same == (a@ == b@),
{
    a.to_owned() == b.to_owned()
}

/// Looks a convention up by its name: `pascal`, `camel` or `snake`.
pub fn case(string: &str) -> (found: Option<Case>)
    ensures
        found == case_named(string@),
{
    if same_text(string, "pascal") {
        Some(Case::PascalCase)
    } else if same_text(string, "camel") {
        Some(Case::CamelCase)
    } else if same_text(string, "snake") {
        Some(Case::SnakeCase)
    } else {
        None
    }
}

} // verus!
