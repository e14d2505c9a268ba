//! The rule that a message has a body.

use vstd::prelude::*;

use crate::message::Message;
use crate::result::Violation;
use crate::rule::{default_level, level_or, violation, Level, Rule};

verus! {

/// The `body-empty` rule: fails when the message has no body.
#[derive(Clone, Debug)]
pub struct BodyEmpty {
    /// Severity of a violation; `Error` when unset.
    pub level: Option<Level>,
}

impl Rule for BodyEmpty {
    const NAME: &'static str = "body-empty";

    const LEVEL: Level = Level::Error;

    open spec fn text(&self, message: &Message) -> Seq<char> {
        "body is empty"@
    }

    open spec fn outcome(&self, message: &Message) -> Option<(Level, Seq<char>)> {
        if message.body is None {
            Some((level_or(self.level, default_level()), self.text(message)))
        } else {
            None
        }
    }

    fn message(&self, _message: &Message) -> (r: String) {
        "body is empty".to_owned()
    }

    fn validate(&self, message: &Message) -> (r: Option<Violation>) {
        let fails = message.body.is_none();
        if fails {
            Some(violation(self.level, Self::LEVEL, self.message(message)))
        } else {
            None
        }
    }
}

impl Default for BodyEmpty {
    fn default() -> (r: Self)
        ensures
            r.level == Some(Level::Error),
    {
        BodyEmpty { level: Some(Level::Error) }
    }
}

} // verus!
