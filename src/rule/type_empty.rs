//! The rule that a subject has a non-empty type.

use vstd::prelude::*;

use crate::message::Message;
use crate::result::Violation;
use crate::rule::{default_level, level_or, violation, Level, Rule};

verus! {

/// The `type-empty` rule: fails when the subject has no type, or an empty one.
#[derive(Clone, Debug)]
pub struct TypeEmpty {
    /// Severity of a violation; `Error` when unset.
    pub level: Option<Level>,
}

impl Rule for TypeEmpty {
    const NAME: &'static str = "type-empty";

    const LEVEL: Level = Level::Error;

    open spec fn text(&self, message: &Message) -> Seq<char> {
        "type is empty"@
    }

    open spec fn outcome(&self, message: &Message) -> Option<(Level, Seq<char>)> {
        if message.commit_type is None || message.commit_type->0@.len() == 0 {
            Some((level_or(self.level, default_level()), self.text(message)))
        } else {
            None
        }
    }

    fn message(&self, _message: &Message) -> (r: String) {
        "type is empty".to_owned()
    }

    fn validate(&self, message: &Message) -> (r: Option<Violation>) {
        let fails = match &message.commit_type {
            Some(v) => v.as_str().is_empty(),
            None => true,
        };
        if fails {
            Some(violation(self.level, Self::LEVEL, self.message(message)))
        } else {
            None
        }
    }
}

impl Default for TypeEmpty {
    fn default() -> (r: Self)
        ensures
            r.level == Some(Level::Error),
    {
        TypeEmpty { level: Some(Level::Error) }
    }
}

} // verus!
