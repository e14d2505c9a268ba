//! A linter for conventional-commit messages: a parser that splits a raw
//! message into subject, type, scope, description, body and footers, and a
//! fixed set of independent rules evaluated over the parsed message.

pub mod args;
pub mod config;
pub mod footers;
pub mod git;
pub mod message;
pub mod pattern;
pub mod result;
pub mod rule;
pub mod text;
