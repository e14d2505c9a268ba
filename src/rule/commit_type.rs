//! The types a subject may have.

use vstd::prelude::*;

use crate::message::Message;
use crate::result::Violation;
use crate::rule::{default_level, allowed, is_allowed, level_or, not_allowed, not_allowed_text, violation, Level, Rule};

verus! {

/// The `type` rule: the type must be one of `options`. An absent type passes when no option is given. An
/// empty type passes only when no option is given.
#[derive(Clone, Debug)]
pub struct Type {
    /// Severity of a violation; `Error` when unset.
    pub level: Option<Level>,
    /// The allowed values; when empty, no type is allowed.
    pub options: Vec<String>,
}

impl Rule for Type {
    const NAME: &'static str = "type";

    const LEVEL: Level = Level::Error;

    open spec fn text(&self, message: &Message) -> Seq<char> {
        if self.options@.len() == 0 {
            "types are not allowed"@
        } else {
            not_allowed_text("type "@, message.commit_type, self.options@)
        }
    }

    open spec fn outcome(&self, message: &Message) -> Option<(Level, Seq<char>)> {
        if allowed(message.commit_type, self.options@, false) {
            None
        } else {
            Some((level_or(self.level, default_level()), self.text(message)))
        }
    }

    fn message(&self, message: &Message) -> (r: String) {
        if self.options.len() == 0 {
            "types are not allowed".to_owned()
        } else {
            not_allowed("type ", &message.commit_type, &self.options)
        }
    }

    fn validate(&self, message: &Message) -> (r: Option<Violation>) {
        if is_allowed(&message.commit_type, &self.options, false) {
            None
        } else {
            Some(violation(self.level, Self::LEVEL, self.message(message)))
        }
    }
}

impl Default for Type {
    fn default() -> (r: Self)
        ensures
            r.level == Some(Level::Error),
            r.options@.len() == 0,
    {
        Type { level: Some(Level::Error), options: Vec::new() }
    }
}

} // verus!
