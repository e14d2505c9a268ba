//! The rule that a subject has a scope.

use vstd::prelude::*;

use crate::message::Message;
use crate::result::Violation;
use crate::rule::{default_level, level_or, violation, Level, Rule};

verus! {

/// The `scope-empty` rule: fails when the subject has no scope.
#[derive(Clone, Debug)]
pub struct ScopeEmpty {
    /// Severity of a violation; `Error` when unset.
    pub level: Option<Level>,
}

impl Rule for ScopeEmpty {
    const NAME: &'static str = "scope-empty";

    const LEVEL: Level = Level::Error;

    open spec fn text(&self, message: &Message) -> Seq<char> {
        "scope is empty"@
    }

    open spec fn outcome(&self, message: &Message) -> Option<(Level, Seq<char>)> {
        if message.scope is None {
            Some((level_or(self.level, default_level()), self.text(message)))
        } else {
            None
        }
    }

    fn message(&self, _message: &Message) -> (r: String) {
        "scope is empty".to_owned()
    }

    fn validate(&self, message: &Message) -> (r: Option<Violation>) {
        let fails = message.scope.is_none();
        if fails {
            Some(violation(self.level, Self::LEVEL, self.message(message)))
        } else {
            None
        }
    }
}

impl Default for ScopeEmpty {
    fn default() -> (r: Self)
        ensures
            r.level == Some(Level::Error),
    {
        ScopeEmpty { level: Some(Level::Error) }
    }
}

} // verus!
