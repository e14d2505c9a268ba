//! What a lint run reports.

use vstd::prelude::*;

use crate::rule::Level;

verus! {

/// The outcome of checking one message.
#[derive(Clone, Debug)]
pub struct Result {
    /// Violations found, in the order the rules were checked; empty when the
    /// message passed every rule.
    pub violations: Vec<Violation>,
}

/// A failed rule: its severity and what it says.
#[derive(Clone, Debug)]
pub struct Violation {
    /// Severity of the violation.
    pub level: Level,
    /// Text describing the violation.
    pub message: String,
}

impl View for Violation {
    type V = (Level, Seq<char>);

    open spec fn view(&self) -> (Level, Seq<char>) {
        (self.level, self.message@)
    }
}

/// The view of an optional violation.
pub open spec fn outcome_view(r: Option<Violation>) -> Option<(Level, Seq<char>)> {
    match r {
        Some(v) => Some(v@),
        None => None,
    }
}

/// The views of a sequence of violations.
pub open spec fn views(vs: Seq<Violation>) -> Seq<(Level, Seq<char>)> {
    vs.map_values(|v: Violation| v@)
}

} // verus!
