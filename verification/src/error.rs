//! What can go wrong, and what is done about it.

use vstd::prelude::*;

verus! {

/// The operations of the tool.
#[derive(Clone, Copy, PartialEq, Eq, Debug, Structural)]
pub enum Action {
    /// Provide whatever the store still needs to count as initialised.
    Init,
    /// Empty the store.
    Reset,
    /// Add logins and folders to an initialised store.
    Add,
    /// Show an initialised store.
    Info,
}

/// The kinds of failure.
#[derive(Clone, Copy, PartialEq, Eq, Debug, Structural)]
pub enum ConfigError {
    /// The file system failed, or the host has no place for configuration.
    Io,
    /// The configuration file does not hold a store.
    Parse,
    /// The store could not be written out as text.
    Serialize,
    /// A user name, a password or a path is out of policy.
    Validation,
    /// The operation needs an initialised store and there is none.
    Precondition,
    /// The user name already has a login.
    DuplicateEntry,
}

/// What is done about a failure.
#[derive(Clone, Copy, PartialEq, Eq, Debug, Structural)]
pub enum Handling {
    /// The failure is reported and the program ends with a status that is
    /// not zero.
    Fatal,
    /// The configuration file is truncated and the program goes on from an
    /// empty store.
    StartOver,
    /// The operator is told and types the entry again.
    Reprompt,
}

/// How a failure is handled when it is met during `action`. Failures of the
/// file system and of an operation that needs an initialised store are
/// fatal, and so is a store that cannot be written out. A file that cannot
/// be read as a store is fatal too, unless the operation is a reset: that
/// is what a reset is for. Entries out of policy and duplicates are typed
/// again.
pub open spec fn handling_of(error: ConfigError, action: Action) -> Handling {
    match error {
        ConfigError::Io | ConfigError::Serialize | ConfigError::Precondition => Handling::Fatal,
        ConfigError::Parse => if action == Action::Reset {
            Handling::StartOver
        } else {
            Handling::Fatal
        },
        ConfigError::Validation | ConfigError::DuplicateEntry => Handling::Reprompt,
    }
}

/// What the operator is told while entries are collected never ends the
/// program: whatever the operation, the entry is typed again.
pub proof fn lemma_notices_are_recovered(notice: crate::dialogue::Notice, action: Action)
    ensures
        handling_of(notice.kind_of(), action) == Handling::Reprompt,
{
}

/// The exit status of a program that ends on a fatal failure.
pub const FAILURE_STATUS: i32 = 1;

impl ConfigError {
    /// How this failure is handled when it is met during `action`.
    pub fn handling(&self, action: Action) -> (how: Handling)
        ensures
            how == handling_of(*self, action),
    {
        match self {
            ConfigError::Io | ConfigError::Serialize | ConfigError::Precondition => Handling::Fatal,
            ConfigError::Parse => match action {
                Action::Reset => Handling::StartOver,
                _ => Handling::Fatal,
            },
            ConfigError::Validation | ConfigError::DuplicateEntry => Handling::Reprompt,
        }
    }

    /// The words in which the failure is reported.
    pub open spec fn words(self) -> Seq<char> {
        match self {
            ConfigError::Io => "Could not set up application configuration folder."@,
            ConfigError::Parse => "The configuration file is malformed."@,
            ConfigError::Serialize => "The configuration could not be encoded."@,
            ConfigError::Validation => "The entry is out of policy."@,
            ConfigError::Precondition => "The program has not been initialized. Please run the `init` subcommand first."@,
            ConfigError::DuplicateEntry => "The user name already has a login."@,
        }
    }

    /// The words in which the failure is reported.
    pub fn message(&self) -> (words: &'static str)
        ensures
            words@ == self.words(),
    {
        match self {
            ConfigError::Io => "Could not set up application configuration folder.",
            ConfigError::Parse => "The configuration file is malformed.",
            ConfigError::Serialize => "The configuration could not be encoded.",
            ConfigError::Validation => "The entry is out of policy.",
            ConfigError::Precondition => "The program has not been initialized. Please run the `init` subcommand first.",
            ConfigError::DuplicateEntry => "The user name already has a login.",
        }
    }
}

} // verus!
