//! The operations of the tool, as far as they are decisions: what an
//! operation does to the store before anything is asked of the operator,
//! and how it goes on from there.

use vstd::prelude::*;

use crate::config::{complete, ConfigView, ServerConfiguration};
use crate::engine::Mode;
use crate::error::{Action, ConfigError};

verus! {

/// How an operation goes on once it has begun. Whatever the course, the
/// store is saved when it has been followed to its end.
#[derive(Clone, Copy, PartialEq, Eq, Debug, Structural)]
pub enum Course {
    /// Run the provisioning engine in the given mode.
    Provision(Mode),
    /// Show the store to the operator.
    Show,
    /// Nothing more to do.
    Save,
}

/// The course of an operation on a store with the given contents, or the
/// failure with which it ends at once: adding to a store and showing it
/// need the store to be fully initialised.
pub open spec fn course_of(action: Action, config: ConfigView) -> Result<Course, ConfigError> {
    match action {
        Action::Init => Ok(Course::Provision(Mode::Initialize)),
        Action::Reset => Ok(Course::Save),
        Action::Add => if complete(config) {
            Ok(Course::Provision(Mode::Append))
        } else {
            Err(ConfigError::Precondition)
        },
        Action::Info => if complete(config) {
            Ok(Course::Show)
        } else {
            Err(ConfigError::Precondition)
        },
    }
}

/// The contents of a store after an operation has begun on it: a reset
/// empties it, and nothing else touches it.
pub open spec fn begun(action: Action, config: ConfigView) -> ConfigView {
    if action == Action::Reset {
        ConfigView { folders: Set::empty(), logins: Map::empty() }
    } else {
        config
    }
}

/// Begins an operation on the store.
pub fn begin(action: Action, config: &mut ServerConfiguration) -> (course: Result<
    Course,
    ConfigError,
>)
    requires
        old(config).wf(),
    ensures
        final(config).wf(),
        course == course_of(action, old(config)@),
        final(config)@ == begun(action, old(config)@),
{
    match action {
        Action::Init => Ok(Course::Provision(Mode::Initialize)),
        Action::Reset => {
            config.reset();
            Ok(Course::Save)
        },
        Action::Add => if config.is_complete() {
            Ok(Course::Provision(Mode::Append))
        } else {
            Err(ConfigError::Precondition)
        },
        Action::Info => if config.is_complete() {
            Ok(Course::Show)
        } else {
            Err(ConfigError::Precondition)
        },
    }
}

} // verus!
