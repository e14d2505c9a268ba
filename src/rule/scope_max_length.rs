//! The maximum length of the scope.

use vstd::prelude::*;

use crate::message::Message;
use crate::result::Violation;
use crate::text::{decimal, push_decimal};
use crate::rule::{default_level, exceeds, level_or, too_long, violation, Level, Rule};

verus! {

/// The `scope-max-length` rule: fails when the scope is absent or its UTF-8 encoding
/// has `length` bytes or more.
#[derive(Clone, Debug)]
pub struct ScopeMaxLength {
    /// Severity of a violation; `Error` when unset.
    pub level: Option<Level>,
    /// The length from which the scope is too long.
    pub length: usize,
}

impl Rule for ScopeMaxLength {
    const NAME: &'static str = "scope-max-length";

    const LEVEL: Level = Level::Error;

    open spec fn text(&self, message: &Message) -> Seq<char> {
        "scope is longer than "@ + decimal(self.length as nat) + " characters"@
    }

    open spec fn outcome(&self, message: &Message) -> Option<(Level, Seq<char>)> {
        if too_long(message.scope, self.length) {
            Some((level_or(self.level, default_level()), self.text(message)))
        } else {
            None
        }
    }

    fn message(&self, _message: &Message) -> (r: String) {
        let mut r = "scope is longer than ".to_owned();
        push_decimal(&mut r, self.length);
        r.append(" characters");
        r
    }

    fn validate(&self, message: &Message) -> (r: Option<Violation>) {
        if exceeds(&message.scope, self.length) {
            Some(violation(self.level, Self::LEVEL, self.message(message)))
        } else {
            None
        }
    }
}

impl Default for ScopeMaxLength {
    fn default() -> (r: Self)
        ensures
            r.level == Some(Level::Error),
            r.length == 72,
    {
        ScopeMaxLength { level: Some(Level::Error), length: 72 }
    }
}

} // verus!
