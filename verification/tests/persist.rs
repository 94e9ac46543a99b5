use lilnas_server_ui::config::Document;
use lilnas_server_ui::error::ConfigError;
use lilnas_server_ui::login::LoginInfo;
use lilnas_server_ui::persist::{
    ephemeral_name, name_from, open, resolve_path, wants_parsing, Reading, EPHEMERAL_NAME_LEN,
};

#[test]
fn no_base_directory_is_an_io_failure() {
    assert!(matches!(resolve_path(None), Err(ConfigError::Io)));
}

#[test]
fn location_is_under_the_base_directory() {
    let location = resolve_path(Some("/home/alice/.config".to_string())).unwrap();
    assert_eq!(location.base(), "/home/alice/.config");
    assert_eq!(location.dir_name(), "lilnasxium");
    assert_eq!(location.file_name(), "config.toml");
}

#[test]
fn only_text_is_parsed() {
    assert!(!wants_parsing(""));
    assert!(wants_parsing(" "));
    assert!(wants_parsing("\n"));
    assert!(wants_parsing("folders = []\nlogins = []\n"));
}

#[test]
fn blank_file_opens_as_the_empty_store() {
    let config = open(Reading::Blank).unwrap();
    assert!(config.get_folders().is_empty());
    assert!(config.get_logins().is_empty());
    assert!(!config.is_complete());
}

#[test]
fn document_opens_as_its_store() {
    let doc = Document {
        folders: vec!["/tmp".to_string(), "/srv".to_string(), "/tmp".to_string()],
        logins: vec![
            LoginInfo::from_parts("bobby".to_string(), "b".to_string()),
            LoginInfo::from_parts("alice1".to_string(), "a".to_string()),
        ],
    };
    let config = open(Reading::Parsed(doc)).unwrap();
    assert_eq!(config.get_folders().to_vec(), vec!["/srv", "/tmp"]);
    assert_eq!(config.get_logins().len(), 2);
    assert_eq!(config.get_logins().get(0).user(), "alice1");
    assert!(config.is_complete());
}

#[test]
fn malformed_file_is_a_parse_failure() {
    assert!(matches!(open(Reading::Malformed), Err(ConfigError::Parse)));
}

#[test]
fn ephemeral_name_is_16_letters_and_digits() {
    let name = ephemeral_name();
    assert_eq!(name.len(), EPHEMERAL_NAME_LEN);
    assert_eq!(name.chars().count(), 16);
    assert!(name.bytes().all(|b| b.is_ascii_alphanumeric()));
}

#[test]
fn ephemeral_names_differ() {
    let names: Vec<String> = (0..8).map(|_| ephemeral_name()).collect();
    for i in 0..names.len() {
        for j in 0..i {
            assert_ne!(names[i], names[j]);
        }
    }
}

#[test]
fn name_is_made_of_the_bytes_one_for_one() {
    assert_eq!(name_from(b""), "");
    assert_eq!(name_from(b"aZ09"), "aZ09");
    assert_eq!(name_from(b"abcdefghijklmnop"), "abcdefghijklmnop");
    assert_eq!(name_from(&[0x41, 0xe9, 0xff]), "A\u{e9}\u{ff}");
}
