//! The pattern a type must match.

use vstd::prelude::*;

use crate::message::Message;
use crate::result::Violation;
use crate::text::{or_empty, push_optional};
use crate::rule::{default_level, check_format, format_outcome, Level, Rule};

verus! {

/// The `type-format` rule: fails when the type does not match the regular
/// expression `format`, or is absent. A `format` that does not compile is
/// reported with the error text of the regular expression engine. Without a
/// `format` the rule always passes.
#[derive(Clone, Debug)]
pub struct TypeFormat {
    /// Severity of a violation; `Error` when unset.
    pub level: Option<Level>,
    /// The regular expression the type must match.
    pub format: Option<String>,
}

impl Rule for TypeFormat {
    const NAME: &'static str = "type-format";

    const LEVEL: Level = Level::Error;

    open spec fn text(&self, message: &Message) -> Seq<char> {
        "type format does not match format: "@ + or_empty(self.format)
    }

    open spec fn outcome(&self, message: &Message) -> Option<(Level, Seq<char>)> {
        format_outcome(self.level, default_level(), self.format, message.commit_type, "found no type"@, self.text(message))
    }

    fn message(&self, _message: &Message) -> (r: String) {
        let mut r = "type format does not match format: ".to_owned();
        push_optional(&mut r, &self.format);
        r
    }

    fn validate(&self, message: &Message) -> (r: Option<Violation>) {
        let mismatch = self.message(message);
        check_format(self.level, Self::LEVEL, &self.format, &message.commit_type, "found no type", mismatch)
    }
}

impl Default for TypeFormat {
    fn default() -> (r: Self)
        ensures
            r.level == Some(Level::Error),
            r.format is None,
    {
        TypeFormat { level: Some(Level::Error), format: None }
    }
}

} // verus!
