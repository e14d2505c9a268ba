//! The rules a commit message is checked against, and the set of them that a
//! configuration turns on.

use vstd::prelude::*;

pub mod body_empty;
pub mod body_max_length;
pub mod commit_type;
pub mod description_empty;
pub mod description_format;
pub mod description_max_length;
pub mod footers_empty;
pub mod scope;
pub mod scope_empty;
pub mod scope_format;
pub mod scope_max_length;
pub mod subject_empty;
pub mod type_empty;
pub mod type_format;
pub mod type_max_length;

use self::body_empty::BodyEmpty;
use self::body_max_length::BodyMaxLength;
use self::commit_type::Type;
use self::description_empty::DescriptionEmpty;
use self::description_format::DescriptionFormat;
use self::description_max_length::DescriptionMaxLength;
use self::footers_empty::FootersEmpty;
use self::scope::Scope;
use self::scope_empty::ScopeEmpty;
use self::scope_format::ScopeFormat;
use self::scope_max_length::ScopeMaxLength;
use self::subject_empty::SubjectEmpty;
use self::type_empty::TypeEmpty;
use self::type_format::TypeFormat;
use self::type_max_length::TypeMaxLength;
use crate::message::Message;
use crate::pattern::{compile_pattern, is_match, pattern_error, pattern_matches};
use crate::result::{outcome_view, views, Violation};
use crate::text::{debug_list, debug_text, or_empty, push_optional, string_views};

verus! {

/// Severity of a rule's violations.
#[derive(Clone, Copy, Debug, PartialEq, Eq, Structural)]
pub enum Level {
    /// A failure: the message does not pass.
    Error,
    /// Reported nowhere.
    Ignore,
    /// Reported, but the message passes.
    Warning,
}

/// The level every rule reports at when none is configured: `Error`.
pub open spec fn default_level() -> Level {
    Level::Error
}

/// The level a rule reports at: its configured one, else its default.
pub open spec fn level_or(level: Option<Level>, default: Level) -> Level {
    match level {
        Some(l) => l,
        None => default,
    }
}

/// A violation at the rule's level.
pub fn violation(level: Option<Level>, default: Level, message: String) -> (r: Violation)
    ensures
        r@ == (level_or(level, default), message@),
{
    Violation { level: level.unwrap_or(default), message }
}

/// A check of one property of a commit message.
pub trait Rule: Sized {
    /// The rule's name: its key in a configuration, unique among the rules.
    const NAME: &'static str;

    /// The level the rule reports at when none is configured; `Error` for
    /// every rule, as `outcome` states through `default_level`.
    const LEVEL: Level;

    /// The text of this rule's violation on `message`.
    spec fn text(&self, message: &Message) -> Seq<char>;

    /// What this rule reports on `message`: `None` when the message passes.
    spec fn outcome(&self, message: &Message) -> Option<(Level, Seq<char>)>;

    /// The text of this rule's violation on `message`.
    fn message(&self, message: &Message) -> (r: String)
        ensures
            r@ == self.text(message),
    ;

    /// Checks `message`.
    fn validate(&self, message: &Message) -> (r: Option<Violation>)
        ensures
            outcome_view(r) == self.outcome(message),
    ;
}

/// What an optional rule adds to the list of violations.
pub open spec fn reported<R: Rule>(rule: Option<R>, message: &Message) -> Seq<(Level, Seq<char>)> {
    match rule {
        Some(r) => match r.outcome(message) {
            Some(v) => seq![v],
            None => Seq::empty(),
        },
        None => Seq::empty(),
    }
}

/// Checks `message` against `rule`, when it is set, and records a violation.
fn check<R: Rule>(rule: &Option<R>, message: &Message, results: &mut Vec<Violation>)
    ensures
        views(final(results)@) == views(old(results)@) + reported(*rule, message),
{
    if let Some(rule) = rule {
        if let Some(v) = rule.validate(message) {
            results.push(v);
            assert(views(results@) =~= views(old(results)@) + seq![v@]);
            return;
        }
    }
    assert(views(results@) =~= views(old(results)@) + Seq::<(Level, Seq<char>)>::empty());
}

/// Whether a field of `length` UTF-8 bytes or more, or an absent field,
/// fails a maximum length of `max`.
pub open spec fn too_long(field: Option<String>, max: usize) -> bool {
    match field {
        Some(s) => byte_len(s@) >= max,
        None => true,
    }
}

/// The number of bytes of the UTF-8 encoding of `s`.
pub open spec fn byte_len(s: Seq<char>) -> usize {
    vstd::utf8::encode_utf8(s).len() as usize
}

/// Whether `field` fails a maximum length of `max`.
pub fn exceeds(field: &Option<String>, max: usize) -> (r: bool)
    ensures
        r == too_long(*field, max),
{
    match field {
        Some(s) => s.as_str().len() >= max,
        None => true,
    }
}

/// What a format rule reports: nothing without a pattern; the engine's error
/// for a pattern that does not compile; `missing` for an absent field;
/// `mismatch` for a field the pattern does not match.
pub open spec fn format_outcome(
    level: Option<Level>,
    default: Level,
    format: Option<String>,
    field: Option<String>,
    missing: Seq<char>,
    mismatch: Seq<char>,
) -> Option<(Level, Seq<char>)> {
    let l = level_or(level, default);
    match format {
        None => None,
        Some(p) => match pattern_error(p@) {
            Some(e) => Some((l, e)),
            None => match field {
                None => Some((l, missing)),
                Some(f) => if pattern_matches(p@, f@) {
                    None
                } else {
                    Some((l, mismatch))
                },
            },
        },
    }
}

/// Checks `field` against the pattern `format`.
pub fn check_format(
    level: Option<Level>,
    default: Level,
    format: &Option<String>,
    field: &Option<String>,
    missing: &str,
    mismatch: String,
) -> (r: Option<Violation>)
    ensures
        outcome_view(r) == format_outcome(level, default, *format, *field, missing@, mismatch@),
{
    match format {
        None => None,
        Some(p) => match compile_pattern(p.as_str()) {
            Some(e) => Some(violation(level, default, e)),
            None => match field {
                None => Some(violation(level, default, missing.to_owned())),
                Some(f) => if is_match(p.as_str(), f.as_str()) {
                    None
                } else {
                    Some(violation(level, default, mismatch))
                },
            },
        },
    }
}

/// Whether `value` passes an options rule. An absent value passes when no
/// option is given or the value is optional; an empty one when no option is
/// given; any other when it is one of the options.
pub open spec fn allowed(value: Option<String>, options: Seq<String>, optional: bool) -> bool {
    match value {
        None => options.len() == 0 || optional,
        Some(v) => if v@.len() == 0 {
            options.len() == 0
        } else {
            string_views(options).contains(v@)
        },
    }
}

/// Whether `value` passes an options rule.
pub fn is_allowed(value: &Option<String>, options: &Vec<String>, optional: bool) -> (r: bool)
    ensures
        r == allowed(*value, options@, optional),
{
    match value {
        None => options.len() == 0 || optional,
        Some(v) => {
            if v.as_str().is_empty() {
                return options.len() == 0;
            }
            let mut i: usize = 0;
            while i < options.len()
                invariant
                    i <= options@.len(),
                    *value == Some(*v),
                    v@.len() != 0,
                    forall|j: int| 0 <= j < i ==> #[trigger] string_views(options@)[j] != v@,
                decreases options@.len() - i,
            {
                if options[i].eq(v) {
                    assert(string_views(options@)[i as int] == v@);
                    assert(string_views(options@).contains(v@));
                    return true;
                }
                i += 1;
            }
            assert(!string_views(options@).contains(v@));
            false
        },
    }
}

/// The text of an options rule's violation when options are given.
pub open spec fn not_allowed_text(prefix: Seq<char>, value: Option<String>, options: Seq<String>) -> Seq<char> {
    prefix + or_empty(value) + " is not allowed. Only "@ + debug_list(string_views(options))
        + " are allowed"@
}

/// The text of an options rule's violation when options are given.
pub fn not_allowed(prefix: &str, value: &Option<String>, options: &Vec<String>) -> (r: String)
    ensures
        r@ == not_allowed_text(prefix@, *value, options@),
{
    let mut r = prefix.to_owned();
    push_optional(&mut r, value);
    r.append(" is not allowed. Only ");
    let listed = debug_text(options);
    r.append(listed.as_str());
    r.append(" are allowed");
    r
}

/// The rules a configuration turns on; an absent rule is not checked.
#[derive(Clone, Debug)]
pub struct Rules {
    /// `body-empty`
    pub body_empty: Option<BodyEmpty>,
    /// `body-max-length`
    pub body_max_length: Option<BodyMaxLength>,
    /// `description-empty`
    pub description_empty: Option<DescriptionEmpty>,
    /// `description-format`
    pub description_format: Option<DescriptionFormat>,
    /// `description-max-length`
    pub description_max_length: Option<DescriptionMaxLength>,
    /// `footers-empty`
    pub footers_empty: Option<FootersEmpty>,
    /// `scope`
    pub scope: Option<Scope>,
    /// `scope-empty`
    pub scope_empty: Option<ScopeEmpty>,
    /// `scope-format`
    pub scope_format: Option<ScopeFormat>,
    /// `scope-max-length`
    pub scope_max_length: Option<ScopeMaxLength>,
    /// `subject-empty`
    pub subject_empty: Option<SubjectEmpty>,
    /// `type`
    pub commit_type: Option<Type>,
    /// `type-empty`
    pub type_empty: Option<TypeEmpty>,
    /// `type-format`
    pub type_format: Option<TypeFormat>,
    /// `type-max-length`
    pub type_max_length: Option<TypeMaxLength>,
}

impl Rules {
    /// The violations of `message`, one for each rule that is set and fails,
    /// in the order the rules are declared.
    pub open spec fn violations(&self, message: &Message) -> Seq<(Level, Seq<char>)> {
        reported(self.body_empty, message) + reported(self.body_max_length, message) + reported(
            self.description_empty,
            message,
        ) + reported(self.description_format, message) + reported(
            self.description_max_length,
            message,
        ) + reported(self.footers_empty, message) + reported(self.scope, message) + reported(
            self.scope_empty,
            message,
        ) + reported(self.scope_format, message) + reported(self.scope_max_length, message)
            + reported(self.subject_empty, message) + reported(self.commit_type, message)
            + reported(self.type_empty, message) + reported(self.type_format, message) + reported(
            self.type_max_length,
            message,
        )
    }

    /// Whether no rule is set.
    pub open spec fn has_no_rule(&self) -> bool {
        &&& self.body_empty is None
        &&& self.body_max_length is None
        &&& self.description_empty is None
        &&& self.description_format is None
        &&& self.description_max_length is None
        &&& self.footers_empty is None
        &&& self.scope is None
        &&& self.scope_empty is None
        &&& self.scope_format is None
        &&& self.scope_max_length is None
        &&& self.subject_empty is None
        &&& self.commit_type is None
        &&& self.type_empty is None
        &&& self.type_format is None
        &&& self.type_max_length is None
    }

    /// Whether these are the rules checked without a configuration:
    /// `description-empty`, `subject-empty` and `type-empty`, each at level
    /// `Error`, and no other.
    pub open spec fn is_default_set(&self) -> bool {
        &&& self.description_empty == Some(DescriptionEmpty { level: Some(Level::Error) })
        &&& self.subject_empty == Some(SubjectEmpty { level: Some(Level::Error) })
        &&& self.type_empty == Some(TypeEmpty { level: Some(Level::Error) })
        &&& self.body_empty is None
        &&& self.body_max_length is None
        &&& self.description_format is None
        &&& self.description_max_length is None
        &&& self.footers_empty is None
        &&& self.scope is None
        &&& self.scope_empty is None
        &&& self.scope_format is None
        &&& self.scope_max_length is None
        &&& self.commit_type is None
        &&& self.type_format is None
        &&& self.type_max_length is None
    }

    /// Checks `message` against every rule that is set, all of them, in the
    /// order the rules are declared.
    pub fn validate(&self, message: &Message) -> (r: Vec<Violation>)
        ensures
            views(r@) == self.violations(message),
    {
        let mut results: Vec<Violation> = Vec::new();
        assert(views(results@) =~= Seq::<(Level, Seq<char>)>::empty());
        check(&self.body_empty, message, &mut results);
        check(&self.body_max_length, message, &mut results);
        check(&self.description_empty, message, &mut results);
        check(&self.description_format, message, &mut results);
        check(&self.description_max_length, message, &mut results);
        check(&self.footers_empty, message, &mut results);
        check(&self.scope, message, &mut results);
        check(&self.scope_empty, message, &mut results);
        check(&self.scope_format, message, &mut results);
        check(&self.scope_max_length, message, &mut results);
        check(&self.subject_empty, message, &mut results);
        check(&self.commit_type, message, &mut results);
        check(&self.type_empty, message, &mut results);
        check(&self.type_format, message, &mut results);
        check(&self.type_max_length, message, &mut results);
        assert(views(results@) =~= self.violations(message));
        results
    }
}

/// With no rule set, every message passes: the list of violations is empty.
pub proof fn no_rules_no_violations(rules: Rules, message: Message)
    requires
        rules.has_no_rule(),
    ensures
        rules.violations(&message) == Seq::<(Level, Seq<char>)>::empty(),
{
    assert(rules.violations(&message) =~= Seq::<(Level, Seq<char>)>::empty());
}

/// A maximum-length rule with length `n` fails a field of exactly `n` bytes,
/// and passes a field of `n - 1` bytes: the bound is inclusive. This holds of
/// the body, the description, the scope and the type alike.
pub proof fn max_length_is_inclusive(level: Option<Level>, n: usize, message: Message)
    ensures
        message.body is Some && byte_len(message.body->0@) == n ==> (BodyMaxLength {
            level,
            length: n,
        }).outcome(&message) is Some,
        message.body is Some && byte_len(message.body->0@) + 1 == n ==> (BodyMaxLength {
            level,
            length: n,
        }).outcome(&message) is None,
        message.description is Some && byte_len(message.description->0@) == n ==> (
        DescriptionMaxLength { level, length: n }).outcome(&message) is Some,
        message.description is Some && byte_len(message.description->0@) + 1 == n ==> (
        DescriptionMaxLength { level, length: n }).outcome(&message) is None,
        message.scope is Some && byte_len(message.scope->0@) == n ==> (ScopeMaxLength {
            level,
            length: n,
        }).outcome(&message) is Some,
        message.scope is Some && byte_len(message.scope->0@) + 1 == n ==> (ScopeMaxLength {
            level,
            length: n,
        }).outcome(&message) is None,
        message.commit_type is Some && byte_len(message.commit_type->0@) == n ==> (TypeMaxLength {
            level,
            length: n,
        }).outcome(&message) is Some,
        message.commit_type is Some && byte_len(message.commit_type->0@) + 1 == n ==> (
        TypeMaxLength { level, length: n }).outcome(&message) is None,
{
}

/// The scope rule without options passes an absent scope and an empty one,
/// optional or not, and fails every other scope, saying that scopes are not
/// allowed. With options, it fails every non-empty scope
/// that is not one of them.
pub proof fn scope_rule_options(rule: Scope, message: Message)
    ensures
        rule.options@.len() == 0 && message.scope is None ==> rule.outcome(&message) is None,
        rule.options@.len() == 0 && message.scope is Some && message.scope->0@.len() == 0
            ==> rule.outcome(&message) is None,
        rule.options@.len() == 0 && message.scope is Some && message.scope->0@.len() > 0
            ==> rule.outcome(&message) == Some(
            (level_or(rule.level, default_level()), "scopes are not allowed"@),
        ),
        rule.options@.len() > 0 && message.scope is Some && message.scope->0@.len() > 0
            && !string_views(rule.options@).contains(message.scope->0@) ==> rule.outcome(
            &message,
        ) is Some,
{
}

impl Default for Rules {
    /// The rules checked without a configuration.
    fn default() -> (r: Self)
        ensures
            r.is_default_set(),
    {
        Rules {
            body_empty: None,
            body_max_length: None,
            description_empty: Some(DescriptionEmpty::default()),
            description_format: None,
            description_max_length: None,
            footers_empty: None,
            scope: None,
            scope_empty: None,
            scope_format: None,
            scope_max_length: None,
            subject_empty: Some(SubjectEmpty::default()),
            commit_type: None,
            type_empty: Some(TypeEmpty::default()),
            type_format: None,
            type_max_length: None,
        }
    }
}

} // verus!
