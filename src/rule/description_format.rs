//! The pattern a description must match.

use vstd::prelude::*;

use crate::message::Message;
use crate::result::Violation;
use crate::text::{or_empty, push_optional};
use crate::rule::{default_level, check_format, format_outcome, Level, Rule};

verus! {

/// The `description-format` rule: fails when the description does not match the regular
/// expression `format`, or is absent. A `format` that does not compile is
/// reported with the error text of the regular expression engine. Without a
/// `format` the rule always passes.
#[derive(Clone, Debug)]
pub struct DescriptionFormat {
    /// Severity of a violation; `Error` when unset.
    pub level: Option<Level>,
    /// The regular expression the description must match.
    pub format: Option<String>,
}

impl Rule for DescriptionFormat {
    const NAME: &'static str = "description-format";

    const LEVEL: Level = Level::Error;

    open spec fn text(&self, message: &Message) -> Seq<char> {
        "description format does not match format: "@ + or_empty(self.format)
    }

    open spec fn outcome(&self, message: &Message) -> Option<(Level, Seq<char>)> {
        format_outcome(self.level, default_level(), self.format, message.description, "found no description"@, self.text(message))
    }

    fn message(&self, _message: &Message) -> (r: String) {
        let mut r = "description format does not match format: ".to_owned();
        push_optional(&mut r, &self.format);
        r
    }

    fn validate(&self, message: &Message) -> (r: Option<Violation>) {
        let mismatch = self.message(message);
        check_format(self.level, Self::LEVEL, &self.format, &message.description, "found no description", mismatch)
    }
}

impl Default for DescriptionFormat {
    fn default() -> (r: Self)
        ensures
            r.level == Some(Level::Error),
            r.format is None,
    {
        DescriptionFormat { level: Some(Level::Error), format: None }
    }
}

} // verus!
