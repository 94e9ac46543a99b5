use lilnas_server_ui::config::ServerConfiguration;
use lilnas_server_ui::dialogue::Notice;
use lilnas_server_ui::engine::Mode;
use lilnas_server_ui::error::{Action, ConfigError, Handling, FAILURE_STATUS};
use lilnas_server_ui::login::LoginInfo;
use lilnas_server_ui::operation::{begin, Course};

fn complete_store() -> ServerConfiguration {
    let mut config = ServerConfiguration::new();
    config
        .get_logins_mut()
        .insert(LoginInfo::from_parts("alice1".to_string(), "digest".to_string()));
    config.get_folders_mut().insert("/tmp".to_string());
    config
}

#[test]
fn add_on_an_empty_store_fails_and_changes_nothing() {
    let mut config = ServerConfiguration::new();
    let course = begin(Action::Add, &mut config);
    assert_eq!(course, Err(ConfigError::Precondition));
    assert_eq!(ConfigError::Precondition.handling(Action::Add), Handling::Fatal);
    assert_eq!(FAILURE_STATUS, 1);
    assert!(config.get_folders().is_empty());
    assert!(config.get_logins().is_empty());
    assert_eq!(
        ConfigError::Precondition.message(),
        "The program has not been initialized. Please run the `init` subcommand first."
    );
}

#[test]
fn add_and_info_need_both_parts() {
    let mut only_folder = ServerConfiguration::new();
    only_folder.get_folders_mut().insert("/tmp".to_string());
    assert_eq!(begin(Action::Add, &mut only_folder), Err(ConfigError::Precondition));
    assert_eq!(begin(Action::Info, &mut only_folder), Err(ConfigError::Precondition));
    assert_eq!(only_folder.get_folders().len(), 1);

    let mut only_login = ServerConfiguration::new();
    only_login
        .get_logins_mut()
        .insert(LoginInfo::from_parts("alice1".to_string(), "digest".to_string()));
    assert_eq!(begin(Action::Add, &mut only_login), Err(ConfigError::Precondition));
    assert_eq!(begin(Action::Info, &mut only_login), Err(ConfigError::Precondition));
    assert_eq!(only_login.get_logins().len(), 1);
}

#[test]
fn add_and_info_go_on_with_a_complete_store() {
    let mut config = complete_store();
    assert_eq!(begin(Action::Add, &mut config), Ok(Course::Provision(Mode::Append)));
    assert_eq!(begin(Action::Info, &mut config), Ok(Course::Show));
    assert!(config.is_complete());
}

#[test]
fn init_always_provisions() {
    let mut empty = ServerConfiguration::new();
    assert_eq!(begin(Action::Init, &mut empty), Ok(Course::Provision(Mode::Initialize)));
    let mut config = complete_store();
    assert_eq!(begin(Action::Init, &mut config), Ok(Course::Provision(Mode::Initialize)));
    assert!(config.is_complete());
}

#[test]
fn reset_empties_the_store() {
    let mut config = complete_store();
    config.get_logins_mut().insert(LoginInfo::from_parts("bobby".to_string(), "b".to_string()));
    config.get_folders_mut().insert("/srv".to_string());
    config.get_folders_mut().insert("/home".to_string());
    assert_eq!(begin(Action::Reset, &mut config), Ok(Course::Save));
    let doc = config.to_document();
    assert!(doc.folders.is_empty());
    assert!(doc.logins.is_empty());
    let mut empty = ServerConfiguration::new();
    assert_eq!(begin(Action::Reset, &mut empty), Ok(Course::Save));
}

#[test]
fn handling_of_each_failure() {
    let actions = [Action::Init, Action::Reset, Action::Add, Action::Info];
    for action in actions {
        assert_eq!(ConfigError::Io.handling(action), Handling::Fatal);
        assert_eq!(ConfigError::Serialize.handling(action), Handling::Fatal);
        assert_eq!(ConfigError::Precondition.handling(action), Handling::Fatal);
        assert_eq!(ConfigError::Validation.handling(action), Handling::Reprompt);
        assert_eq!(ConfigError::DuplicateEntry.handling(action), Handling::Reprompt);
    }
    assert_eq!(ConfigError::Parse.handling(Action::Reset), Handling::StartOver);
    assert_eq!(ConfigError::Parse.handling(Action::Init), Handling::Fatal);
    assert_eq!(ConfigError::Parse.handling(Action::Add), Handling::Fatal);
    assert_eq!(ConfigError::Parse.handling(Action::Info), Handling::Fatal);
}

#[test]
fn every_failure_has_words() {
    assert_eq!(ConfigError::Io.message(), "Could not set up application configuration folder.");
    for error in [
        ConfigError::Io,
        ConfigError::Parse,
        ConfigError::Serialize,
        ConfigError::Validation,
        ConfigError::Precondition,
        ConfigError::DuplicateEntry,
    ] {
        assert!(!error.message().is_empty());
    }
}

#[test]
fn notices_are_failures_that_are_typed_again() {
    assert_eq!(Notice::UsernameLength.kind(), ConfigError::Validation);
    assert_eq!(Notice::PasswordLength.kind(), ConfigError::Validation);
    assert_eq!(Notice::UsernameMismatch.kind(), ConfigError::Validation);
    assert_eq!(Notice::PasswordMismatch.kind(), ConfigError::Validation);
    assert_eq!(Notice::InvalidPath.kind(), ConfigError::Validation);
    assert_eq!(Notice::DuplicateLogin.kind(), ConfigError::DuplicateEntry);
    assert_eq!(Notice::DuplicateUser.kind(), ConfigError::DuplicateEntry);
    assert_eq!(Notice::DuplicateUser.kind().handling(Action::Add), Handling::Reprompt);
}
