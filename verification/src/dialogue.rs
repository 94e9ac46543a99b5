//! What passes between the provisioning engine and the shell around it: the
//! requests that the engine makes, the events that the shell hands back, and
//! the words that the operator gets to read.

use vstd::prelude::*;

use crate::error::ConfigError;

verus! {

/// A question or an invitation to type.
#[derive(Clone, Copy, PartialEq, Eq, Debug, Structural)]
pub enum Prompt {
    /// No login exists yet: set one up?
    NoLogin,
    /// No folder exists yet: add one?
    NoFolder,
    /// Add another login?
    AnotherLogin,
    /// Add another folder?
    AnotherFolder,
    /// The user name.
    Username,
    /// The password.
    Password,
    /// The user name, once more.
    ConfirmUsername,
    /// The password, once more.
    ConfirmPassword,
    /// The path of a folder.
    FolderPath,
}

impl Prompt {
    /// The words of the prompt.
    pub open spec fn words(self) -> Seq<char> {
        match self {
            Prompt::NoLogin => "No login has been set up. Would you like to set it up now? (Y/n) "@,
            Prompt::NoFolder => "No folders have been added. Would you like to add one now? (Y/n) "@,
            Prompt::AnotherLogin => "Add another login? (Y/n) "@,
            Prompt::AnotherFolder => "Add another folder? (Y/n) "@,
            Prompt::Username => "Username: "@,
            Prompt::Password => "Password: "@,
            Prompt::ConfirmUsername => "Confirm Username: "@,
            Prompt::ConfirmPassword => "Confirm Password: "@,
            Prompt::FolderPath => "ABSOLUTE path to folder: "@,
        }
    }

    /// The words of the prompt, to be written without a line break after
    /// them.
    pub fn text(&self) -> (words: &'static str)
        ensures
            words@ == self.words(),
    {
        match self {
            Prompt::NoLogin => "No login has been set up. Would you like to set it up now? (Y/n) ",
            Prompt::NoFolder => "No folders have been added. Would you like to add one now? (Y/n) ",
            Prompt::AnotherLogin => "Add another login? (Y/n) ",
            Prompt::AnotherFolder => "Add another folder? (Y/n) ",
            Prompt::Username => "Username: ",
            Prompt::Password => "Password: ",
            Prompt::ConfirmUsername => "Confirm Username: ",
            Prompt::ConfirmPassword => "Confirm Password: ",
            Prompt::FolderPath => "ABSOLUTE path to folder: ",
        }
    }

    /// Whether the prompt asks a yes-or-no question.
    pub fn is_question(&self) -> (yes_or_no: bool)
        ensures
            yes_or_no == (*self == Prompt::NoLogin || *self == Prompt::NoFolder || *self
                == Prompt::AnotherLogin || *self == Prompt::AnotherFolder),
    {
        match self {
            Prompt::NoLogin | Prompt::NoFolder | Prompt::AnotherLogin | Prompt::AnotherFolder => true,
            _ => false,
        }
    }
}

/// Why an entry was not taken.
#[derive(Clone, Copy, PartialEq, Eq, Debug, Structural)]
pub enum Notice {
    /// The user name is too short or too long.
    UsernameLength,
    /// The password is too short or too long.
    PasswordLength,
    /// The user name was not repeated as first typed.
    UsernameMismatch,
    /// The password was not repeated as first typed.
    PasswordMismatch,
    /// The user name already has a login; met while setting up the first one.
    DuplicateLogin,
    /// The user name already has a login; met while adding further ones.
    DuplicateUser,
    /// The path is not absolute or is not an existing directory.
    InvalidPath,
}

impl Notice {
    /// The words of the notice.
    pub open spec fn words(self) -> Seq<char> {
        match self {
            Notice::UsernameLength => "Your username must be between 4 and 20 (inclusive) characters long."@,
            Notice::PasswordLength => "Your password must be between 12 and 72 (inclusive) characters long."@,
            Notice::UsernameMismatch => "Usernames do not match!"@,
            Notice::PasswordMismatch => "Passwords do not match!"@,
            Notice::DuplicateLogin => "Cannot add duplicate login. Try adding a different login."@,
            Notice::DuplicateUser => "Could not add duplicate user. Please try again."@,
            Notice::InvalidPath => "Invalid path, please try again."@,
        }
    }

    /// The words of the notice, to be written on a line of their own.
    pub fn text(&self) -> (words: &'static str)
        ensures
            words@ == self.words(),
    {
        match self {
            Notice::UsernameLength => "Your username must be between 4 and 20 (inclusive) characters long.",
            Notice::PasswordLength => "Your password must be between 12 and 72 (inclusive) characters long.",
            Notice::UsernameMismatch => "Usernames do not match!",
            Notice::PasswordMismatch => "Passwords do not match!",
            Notice::DuplicateLogin => "Cannot add duplicate login. Try adding a different login.",
            Notice::DuplicateUser => "Could not add duplicate user. Please try again.",
            Notice::InvalidPath => "Invalid path, please try again.",
        }
    }

    /// The kind of failure that the notice reports: a duplicate entry for a
    /// user name that has a login already, an entry out of policy for
    /// everything else.
    pub open spec fn kind_of(self) -> ConfigError {
        if self == Notice::DuplicateLogin || self == Notice::DuplicateUser {
            ConfigError::DuplicateEntry
        } else {
            ConfigError::Validation
        }
    }

    /// The kind of failure that the notice reports.
    pub fn kind(&self) -> (kind: ConfigError)
        ensures
            kind == self.kind_of(),
    {
        match self {
            Notice::DuplicateLogin | Notice::DuplicateUser => ConfigError::DuplicateEntry,
            _ => ConfigError::Validation,
        }
    }

    /// Whether the notice reports a duplicate entry, which is an error to be
    /// recorded, rather than an entry out of policy, which is just typed
    /// again.
    pub fn is_duplicate(&self) -> (dup: bool)
        ensures
            dup == (*self == Notice::DuplicateLogin || *self == Notice::DuplicateUser),
    {
        match self {
            Notice::DuplicateLogin | Notice::DuplicateUser => true,
            _ => false,
        }
    }
}

/// What the engine needs next from the shell.
#[derive(Debug)]
pub enum Request {
    /// Show the prompt and read one line, as typed, line ending included.
    Line(Prompt),
    /// Show the prompt and read a secret without echo, line ending removed.
    Secret(Prompt),
    /// Find out whether the path is absolute and whether it names an
    /// existing directory.
    Probe(String),
    /// Nothing more: the flow is complete and the store is to be saved.
    Done,
    /// Nothing more: the operator declined what had to be provided, and the
    /// program is to end in failure.
    Abort,
}

/// What a request is.
pub enum RequestView {
    Line(Prompt),
    Secret(Prompt),
    Probe(Seq<char>),
    Done,
    Abort,
}

impl View for Request {
    type V = RequestView;

    open spec fn view(&self) -> RequestView {
        match self {
            Request::Line(prompt) => RequestView::Line(*prompt),
            Request::Secret(prompt) => RequestView::Secret(*prompt),
            Request::Probe(path) => RequestView::Probe(path@),
            Request::Done => RequestView::Done,
            Request::Abort => RequestView::Abort,
        }
    }
}

/// What the shell hands to the engine.
pub enum Event {
    /// A line, as it was typed.
    Line(String),
    /// A secret, as it was typed, without its line ending.
    Secret(String),
    /// What was found out about the path of the last probe.
    Probed { absolute: bool, directory: bool },
}

/// What an event is.
pub enum EventView {
    Line(Seq<char>),
    Secret(Seq<char>),
    Probed { absolute: bool, directory: bool },
}

impl View for Event {
    type V = EventView;

    open spec fn view(&self) -> EventView {
        match self {
            Event::Line(line) => EventView::Line(line@),
            Event::Secret(secret) => EventView::Secret(secret@),
            Event::Probed { absolute, directory } => EventView::Probed {
                absolute: *absolute,
                directory: *directory,
            },
        }
    }
}

} // verus!
