//! The pattern a scope must match.

use vstd::prelude::*;

use crate::message::Message;
use crate::result::Violation;
use crate::text::{or_empty, push_optional};
use crate::rule::{default_level, check_format, format_outcome, Level, Rule};

verus! {

/// The `scope-format` rule: fails when the scope does not match the regular
/// expression `format`, or is absent. A `format` that does not compile is
/// reported with the error text of the regular expression engine. Without a
/// `format` the rule always passes.
#[derive(Clone, Debug)]
pub struct ScopeFormat {
    /// Severity of a violation; `Error` when unset.
    pub level: Option<Level>,
    /// The regular expression the scope must match.
    pub format: Option<String>,
}

impl Rule for ScopeFormat {
    const NAME: &'static str = "scope-format";

    const LEVEL: Level = Level::Error;

    open spec fn text(&self, message: &Message) -> Seq<char> {
        "scope format does not match format: "@ + or_empty(self.format)
    }

    open spec fn outcome(&self, message: &Message) -> Option<(Level, Seq<char>)> {
        format_outcome(self.level, default_level(), self.format, message.scope, "found no scope"@, self.text(message))
    }

    fn message(&self, _message: &Message) -> (r: String) {
        let mut r = "scope format does not match format: ".to_owned();
        push_optional(&mut r, &self.format);
        r
    }

    fn validate(&self, message: &Message) -> (r: Option<Violation>) {
        let mismatch = self.message(message);
        check_format(self.level, Self::LEVEL, &self.format, &message.scope, "found no scope", mismatch)
    }
}

impl Default for ScopeFormat {
    fn default() -> (r: Self)
        ensures
            r.level == Some(Level::Error),
            r.format is None,
    {
        ScopeFormat { level: Some(Level::Error), format: None }
    }
}

} // verus!
