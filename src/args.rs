//! The command line's choice of where commit messages come from.

use vstd::prelude::*;

use crate::git::ReadCommitMessageOptions;

verus! {

/// The command line arguments.
#[derive(Clone, Debug)]
pub struct Args {
    /// Path to the configuration file.
    pub config: Option<String>,
    /// Directory to run in.
    pub cwd: String,
    /// File to read the last commit message from; `"false"` turns it off.
    pub edit: Option<String>,
    /// Lower end of the commit range to lint.
    pub from: Option<String>,
    /// Whether to print the configuration in use.
    pub print_config: bool,
    /// Upper end of the commit range to lint.
    pub to: Option<String>,
}

/// Where the messages to lint come from.
#[derive(Clone, Debug)]
pub enum MessageSource {
    /// The file named by `--edit`.
    EditFile(String),
    /// Standard input.
    Stdin,
    /// The history of a repository.
    Git(ReadCommitMessageOptions),
    /// The message of the commit being made, `.git/COMMIT_EDITMSG`.
    CommitEditFile,
}

impl Args {
    /// Where to read messages from, given whether standard input holds text
    /// (is not a terminal). An `--edit` file other than `"false"` comes
    /// first, then standard input, then the commit range when either end is
    /// given; otherwise the message of the commit being made.
    pub fn source(&self, has_stdin: bool) -> (r: MessageSource)
        ensures
            match self.edit {
                Some(e) if e@ != "false"@ => r == MessageSource::EditFile(e),
                _ => if has_stdin {
                    r is Stdin
                } else if self.from is Some || self.to is Some {
                    r matches MessageSource::Git(o) && o.from == self.from && o.to == self.to
                        && o.path == self.cwd
                } else {
                    r is CommitEditFile
                },
            },
    {
        if let Some(edit) = &self.edit {
            if *edit != "false".to_owned() {
                return MessageSource::EditFile(edit.clone());
            }
        }
        if has_stdin {
            MessageSource::Stdin
        } else if self.from.is_some() || self.to.is_some() {
            MessageSource::Git(
                ReadCommitMessageOptions {
                    from: self.from.clone(),
                    path: self.cwd.clone(),
                    to: self.to.clone(),
                },
            )
        } else {
            MessageSource::CommitEditFile
        }
    }
}

} // verus!
