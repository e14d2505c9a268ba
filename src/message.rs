//! A parsed commit message.

use vstd::prelude::*;

use crate::config::Config;
use crate::footers::Footers;
use crate::git::{commit_parts, footers_view, opt_view, parse_commit_message, parse_subject, subject_fields};
use crate::result::{views, Result as LintResult};

verus! {

/// A commit message split into its parts:
///
/// ```text
/// <type>[optional scope]: <description>
///
/// [optional body]
///
/// [optional footer(s)]
/// ```
#[derive(Clone, Debug)]
pub struct Message {
    /// The body, if the message has one.
    pub body: Option<String>,
    /// The description part of the subject.
    pub description: Option<String>,
    /// The footers, if the message has any.
    pub footers: Option<Footers>,
    /// The message as it was given.
    pub raw: String,
    /// The type part of the subject.
    pub commit_type: Option<String>,
    /// The scope part of the subject.
    pub scope: Option<String>,
    /// The subject line.
    pub subject: Option<String>,
}

impl Message {
    /// Parses a raw commit message.
    pub fn new(raw: String) -> (r: Message)
        ensures
            r.raw == raw,
            opt_view(r.subject) == Some(commit_parts(raw@).0),
            opt_view(r.body) == commit_parts(raw@).1,
            footers_view(r.footers) == commit_parts(raw@).2,
            (opt_view(r.commit_type), opt_view(r.scope), opt_view(r.description)) == subject_fields(
                commit_parts(raw@).0,
            ),
    {
        let (subject, body, footers) = parse_commit_message(raw.as_str());
        let (commit_type, scope, description) = parse_subject(subject.as_str());
        Message { body, description, footers, raw, commit_type, scope, subject: Some(subject) }
    }
}

/// Checks a message against the rules of a configuration.
pub fn validate(msg: &Message, config: &Config) -> (r: LintResult)
    ensures
        views(r.violations@) == config.rules.violations(msg),
{
    LintResult { violations: config.rules.validate(msg) }
}

} // verus!
