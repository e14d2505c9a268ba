//! The maximum length of the body.

use vstd::prelude::*;

use crate::message::Message;
use crate::result::Violation;
use crate::text::{decimal, push_decimal};
use crate::rule::{default_level, exceeds, level_or, too_long, violation, Level, Rule};

verus! {

/// The `body-max-length` rule: fails when the body is absent or its UTF-8 encoding
/// has `length` bytes or more.
#[derive(Clone, Debug)]
pub struct BodyMaxLength {
    /// Severity of a violation; `Error` when unset.
    pub level: Option<Level>,
    /// The length from which the body is too long.
    pub length: usize,
}

impl Rule for BodyMaxLength {
    const NAME: &'static str = "body-max-length";

    const LEVEL: Level = Level::Error;

    open spec fn text(&self, message: &Message) -> Seq<char> {
        "body is longer than "@ + decimal(self.length as nat) + " characters"@
    }

    open spec fn outcome(&self, message: &Message) -> Option<(Level, Seq<char>)> {
        if too_long(message.body, self.length) {
            Some((level_or(self.level, default_level()), self.text(message)))
        } else {
            None
        }
    }

    fn message(&self, _message: &Message) -> (r: String) {
        let mut r = "body is longer than ".to_owned();
        push_decimal(&mut r, self.length);
        r.append(" characters");
        r
    }

    fn validate(&self, message: &Message) -> (r: Option<Violation>) {
        if exceeds(&message.body, self.length) {
            Some(violation(self.level, Self::LEVEL, self.message(message)))
        } else {
            None
        }
    }
}

impl Default for BodyMaxLength {
    fn default() -> (r: Self)
        ensures
            r.level == Some(Level::Error),
            r.length == 72,
    {
        BodyMaxLength { level: Some(Level::Error), length: 72 }
    }
}

} // verus!
