//! The rule that a message has a subject.

use vstd::prelude::*;

use crate::message::Message;
use crate::result::Violation;
use crate::rule::{default_level, level_or, violation, Level, Rule};

verus! {

/// The `subject-empty` rule: fails when the message has no subject.
#[derive(Clone, Debug)]
pub struct SubjectEmpty {
    /// Severity of a violation; `Error` when unset.
    pub level: Option<Level>,
}

impl Rule for SubjectEmpty {
    const NAME: &'static str = "subject-empty";

    const LEVEL: Level = Level::Error;

    open spec fn text(&self, message: &Message) -> Seq<char> {
        "subject is empty"@
    }

    open spec fn outcome(&self, message: &Message) -> Option<(Level, Seq<char>)> {
        if message.subject is None {
            Some((level_or(self.level, default_level()), self.text(message)))
        } else {
            None
        }
    }

    fn message(&self, _message: &Message) -> (r: String) {
        "subject is empty".to_owned()
    }

    fn validate(&self, message: &Message) -> (r: Option<Violation>) {
        let fails = message.subject.is_none();
        if fails {
            Some(violation(self.level, Self::LEVEL, self.message(message)))
        } else {
            None
        }
    }
}

impl Default for SubjectEmpty {
    fn default() -> (r: Self)
        ensures
            r.level == Some(Level::Error),
    {
        SubjectEmpty { level: Some(Level::Error) }
    }
}

} // verus!
