//! The persistence layer, as far as it is decisions: where the
//! configuration file lies, and what store a reading of it gives. Reading
//! and writing the file, and turning its text into a document and back, is
//! the business of the shell.

use vstd::prelude::*;

use crate::config::{contents_of, Document, ServerConfiguration};
use crate::error::ConfigError;

verus! {

/// The number of characters in the name of an ephemeral directory.
pub const EPHEMERAL_NAME_LEN: usize = 16;

/// Whether a byte is an ASCII letter or digit.
pub open spec fn is_alphanumeric(byte: u8) -> bool {
    ||| 0x30 <= byte <= 0x39
    ||| 0x41 <= byte <= 0x5a
    ||| 0x61 <= byte <= 0x7a
}

/// One draw from `rand::distributions::Alphanumeric` with the generator of
/// the thread. Whatever the draw, it is an ASCII letter or digit.
#[verifier::external_body]
fn draw_alphanumeric() -> (byte: u8)
    ensures
        is_alphanumeric(byte),
{
    rand::Rng::sample(&mut rand::thread_rng(), rand::distributions::Alphanumeric)
}

/// `String::push`: appends one character.
#[verifier::external_body]
fn push(text: &mut String, c: char)
    ensures
        final(text)@ == old(text)@.push(c),
{
    text.push(c)
}

/// The text that has the given bytes for its characters, one for one.
pub open spec fn text_of(bytes: Seq<u8>) -> Seq<char> {
    Seq::new(bytes.len(), |i: int| bytes[i] as char)
}

/// Makes a name out of the bytes that were drawn: each byte becomes the
/// character with its number.
pub fn name_from(drawn: &[u8]) -> (name: String)
    ensures
        name@ == text_of(drawn@),
{
    let mut name = String::new();
    let mut i: usize = 0;
    while i < drawn.len()
        invariant
            i <= drawn.len(),
            name@ == text_of(drawn@.take(i as int)),
        decreases drawn.len() - i,
    {
        push(&mut name, drawn[i] as char);
        assert(name@ =~= text_of(drawn@.take(i as int + 1)));
        i += 1;
    }
    assert(drawn@.take(drawn@.len() as int) =~= drawn@);
    name
}

/// A fresh name for a directory that serves one run only: 16 letters and
/// digits, drawn at random.
pub fn ephemeral_name() -> (name: String)
    ensures
        name@.len() == EPHEMERAL_NAME_LEN,
        forall|i: int| 0 <= i < name@.len() ==> is_alphanumeric(#[trigger] name@[i] as u8),
{
    let mut drawn: Vec<u8> = Vec::new();
    while drawn.len() < EPHEMERAL_NAME_LEN
        invariant
            drawn@.len() <= EPHEMERAL_NAME_LEN,
            forall|j: int| 0 <= j < drawn@.len() ==> is_alphanumeric(#[trigger] drawn@[j]),
        decreases EPHEMERAL_NAME_LEN - drawn@.len(),
    {
        drawn.push(draw_alphanumeric());
    }
    let name = name_from(drawn.as_slice());
    assert forall|i: int| 0 <= i < name@.len() implies is_alphanumeric(
        #[trigger] name@[i] as u8,
    ) by {
        assert(name@[i] == drawn@[i] as char);
        assert(is_alphanumeric(drawn@[i]));
    }
    name
}

/// Where the configuration of this tool lies: in a directory of its own
/// under the base directory, in one file.
#[derive(Debug)]
pub struct ConfigLocation {
    base: String,
}

/// The name of the directory of this tool.
pub open spec fn dir_words() -> Seq<char> {
    "lilnasxium"@
}

/// The name of the configuration file.
pub open spec fn file_words() -> Seq<char> {
    "config.toml"@
}

impl ConfigLocation {
    /// The base directory.
    pub closed spec fn base_words(&self) -> Seq<char> {
        self.base@
    }

    /// The base directory, under which the directory of this tool lies.
    pub fn base(&self) -> (path: &str)
        ensures
            path@ == self.base_words(),
    {
        self.base.as_str()
    }

    /// The name of the directory of this tool, which is created where it
    /// does not exist.
    pub fn dir_name(&self) -> (name: &'static str)
        ensures
            name@ == dir_words(),
    {
        "lilnasxium"
    }

    /// The name of the configuration file in that directory.
    pub fn file_name(&self) -> (name: &'static str)
        ensures
            name@ == file_words(),
    {
        "config.toml"
    }
}

/// Settles where the configuration lies, given the directory that the host
/// has for configuration, if it has one. Without one there is no place for
/// the file.
pub fn resolve_path(base: Option<String>) -> (location: Result<ConfigLocation, ConfigError>)
    ensures
        match base {
            Some(dir) => location matches Ok(found) && found.base_words() == dir@,
            None => location == Err::<ConfigLocation, ConfigError>(ConfigError::Io),
        },
{
    match base {
        Some(dir) => Ok(ConfigLocation { base: dir }),
        None => Err(ConfigError::Io),
    }
}

/// What reading the configuration file gave.
pub enum Reading {
    /// The file is empty, or was not there and has been created empty.
    Blank,
    /// The file holds this document.
    Parsed(Document),
    /// The file holds text that is not a document.
    Malformed,
}

/// Whether the contents of the file are to be parsed: an empty file stands
/// for the empty store and is not parsed at all.
pub fn wants_parsing(contents: &str) -> (parse: bool)
    ensures
        parse == (contents@.len() > 0),
{
    !contents.is_empty()
}

/// The store that a reading gives: the empty store for a blank file, the
/// store that the document stands for where there is one, and a failure
/// for a malformed file.
pub fn open(reading: Reading) -> (opened: Result<ServerConfiguration, ConfigError>)
    ensures
        match reading {
            Reading::Blank => opened matches Ok(config) && config.wf() && config@ == contents_of(
                Seq::empty(),
                Seq::empty(),
            ),
            Reading::Parsed(doc) => opened matches Ok(config) && config.wf() && config@
                == contents_of(doc.folder_texts(), doc.login_views()),
            Reading::Malformed => opened is Err && opened->Err_0 == ConfigError::Parse,
        },
{
    match reading {
        Reading::Blank => {
            let config = ServerConfiguration::new();
            assert(Seq::<Seq<char>>::empty().to_set() =~= Set::<Seq<char>>::empty());
            Ok(config)
        },
        Reading::Parsed(doc) => Ok(ServerConfiguration::from_document(doc)),
        Reading::Malformed => Err(ConfigError::Parse),
    }
}

} // verus!
