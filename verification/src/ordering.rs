//! Sort modes for returned leaderboard rows.

use vstd::prelude::*;
use crate::util::str_eq;

verus! {

/// How a leaderboard query orders the rows it returns.
#[derive(Clone, Copy, Debug, PartialEq, Eq, Structural, Hash)]
pub enum SolutionOrdering {
    /// Highest score first.
    Default,
    /// Shortest solve duration first.
    Fastest,
}

impl SolutionOrdering {
    /// The ordering a symbolic name stands for, if any: the names are the
    /// ones requests and the settings file use.
    pub open spec fn spec_from_name(name: Seq<char>) -> Option<SolutionOrdering> {
        if name == "default"@ {
            Some(SolutionOrdering::Default)
        } else if name == "fastest"@ {
            Some(SolutionOrdering::Fastest)
        } else {
            None
        }
    }

    /// Parse a symbolic ordering name; `None` for an unknown name.
    pub fn from_name(name: &str) -> (r: Option<SolutionOrdering>)
        ensures
            r == Self::spec_from_name(name@),
    {
        if str_eq(name, "default") {
            Some(SolutionOrdering::Default)
        } else if str_eq(name, "fastest") {
            Some(SolutionOrdering::Fastest)
        } else {
            None
        }
    }
}

} // verus!
