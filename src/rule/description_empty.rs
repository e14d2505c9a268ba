//! The rule that a subject has a non-empty description.

use vstd::prelude::*;

use crate::message::Message;
use crate::result::Violation;
use crate::rule::{default_level, level_or, violation, Level, Rule};

verus! {

/// The `description-empty` rule: fails when the subject has no description, or an empty one.
#[derive(Clone, Debug)]
pub struct DescriptionEmpty {
    /// Severity of a violation; `Error` when unset.
    pub level: Option<Level>,
}

impl Rule for DescriptionEmpty {
    const NAME: &'static str = "description-empty";

    const LEVEL: Level = Level::Error;

    open spec fn text(&self, message: &Message) -> Seq<char> {
        "description is empty or missing space in the beginning"@
    }

    open spec fn outcome(&self, message: &Message) -> Option<(Level, Seq<char>)> {
        if message.description is None || message.description->0@.len() == 0 {
            Some((level_or(self.level, default_level()), self.text(message)))
        } else {
            None
        }
    }

    fn message(&self, _message: &Message) -> (r: String) {
        "description is empty or missing space in the beginning".to_owned()
    }

    fn validate(&self, message: &Message) -> (r: Option<Violation>) {
        let fails = match &message.description {
            Some(v) => v.as_str().is_empty(),
            None => true,
        };
        if fails {
            Some(violation(self.level, Self::LEVEL, self.message(message)))
        } else {
            None
        }
    }
}

impl Default for DescriptionEmpty {
    fn default() -> (r: Self)
        ensures
            r.level == Some(Level::Error),
    {
        DescriptionEmpty { level: Some(Level::Error) }
    }
}

} // verus!
