//! The rule that a message has footers.

use vstd::prelude::*;

use crate::message::Message;
use crate::result::Violation;
use crate::rule::{default_level, level_or, violation, Level, Rule};

verus! {

/// The `footers-empty` rule: fails when the message has no footers.
#[derive(Clone, Debug)]
pub struct FootersEmpty {
    /// Severity of a violation; `Error` when unset.
    pub level: Option<Level>,
}

impl Rule for FootersEmpty {
    const NAME: &'static str = "footers-empty";

    const LEVEL: Level = Level::Error;

    open spec fn text(&self, message: &Message) -> Seq<char> {
        "footers are empty"@
    }

    open spec fn outcome(&self, message: &Message) -> Option<(Level, Seq<char>)> {
        if message.footers is None {
            Some((level_or(self.level, default_level()), self.text(message)))
        } else {
            None
        }
    }

    fn message(&self, _message: &Message) -> (r: String) {
        "footers are empty".to_owned()
    }

    fn validate(&self, message: &Message) -> (r: Option<Violation>) {
        let fails = message.footers.is_none();
        if fails {
            Some(violation(self.level, Self::LEVEL, self.message(message)))
        } else {
            None
        }
    }
}

impl Default for FootersEmpty {
    fn default() -> (r: Self)
        ensures
            r.level == Some(Level::Error),
    {
        FootersEmpty { level: Some(Level::Error) }
    }
}

} // verus!
