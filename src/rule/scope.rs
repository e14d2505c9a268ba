//! The scopes a subject may have.

use vstd::prelude::*;

use crate::message::Message;
use crate::result::Violation;
use crate::rule::{default_level, allowed, is_allowed, level_or, not_allowed, not_allowed_text, violation, Level, Rule};

verus! {

/// The `scope` rule: the scope must be one of `options`. An absent scope passes when no option is given or it is optional. An
/// empty scope passes only when no option is given.
#[derive(Clone, Debug)]
pub struct Scope {
    /// Severity of a violation; `Error` when unset.
    pub level: Option<Level>,
    /// The allowed values; when empty, no scope is allowed.
    pub options: Vec<String>,
    /// Whether an absent scope passes even when options are given.
    pub optional: bool,
}

impl Rule for Scope {
    const NAME: &'static str = "scope";

    const LEVEL: Level = Level::Error;

    open spec fn text(&self, message: &Message) -> Seq<char> {
        if self.options@.len() == 0 {
            "scopes are not allowed"@
        } else {
            not_allowed_text("scope "@, message.scope, self.options@)
        }
    }

    open spec fn outcome(&self, message: &Message) -> Option<(Level, Seq<char>)> {
        if allowed(message.scope, self.options@, self.optional) {
            None
        } else {
            Some((level_or(self.level, default_level()), self.text(message)))
        }
    }

    fn message(&self, message: &Message) -> (r: String) {
        if self.options.len() == 0 {
            "scopes are not allowed".to_owned()
        } else {
            not_allowed("scope ", &message.scope, &self.options)
        }
    }

    fn validate(&self, message: &Message) -> (r: Option<Violation>) {
        if is_allowed(&message.scope, &self.options, self.optional) {
            None
        } else {
            Some(violation(self.level, Self::LEVEL, self.message(message)))
        }
    }
}

impl Default for Scope {
    fn default() -> (r: Self)
        ensures
            r.level == Some(Level::Error),
            r.options@.len() == 0,
            !r.optional,
    {
        Scope { level: Some(Level::Error), options: Vec::new(), optional: false }
    }
}

} // verus!
