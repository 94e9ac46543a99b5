//! The configuration store: the shared folders and the authorised logins of
//! one server, with what it takes for the store to count as initialised.

use vstd::prelude::*;

use crate::folders::FolderSet;
use crate::login::LoginInfo;
use crate::logins::{entered, views_of, LoginSet};
use crate::sorted::keys_of;

verus! {

/// What a store holds: the folder paths, and the digest of each user name.
pub struct ConfigView {
    pub folders: Set<Seq<char>>,
    pub logins: Map<Seq<char>, Seq<char>>,
}

/// The folders and logins of one server. The two sets are independent of
/// each other.
#[derive(Debug)]
pub struct ServerConfiguration {
    folders: FolderSet,
    logins: LoginSet,
}

impl View for ServerConfiguration {
    type V = ConfigView;

    open spec fn view(&self) -> ConfigView {
        ConfigView { folders: self.folders()@, logins: self.logins()@ }
    }
}

/// Which of the two required parts of a store are there.
#[derive(Clone, Copy, PartialEq, Eq, Debug, Structural)]
pub struct InitializationStatus {
    /// At least one folder is shared.
    pub folders: bool,
    /// At least one login is authorised.
    pub login_info: bool,
}

impl InitializationStatus {
    /// Whether both parts are there.
    pub fn done(&self) -> (both: bool)
        ensures
            both == (self.folders && self.login_info),
    {
        self.folders && self.login_info
    }
}

/// The status that a store with the given contents has.
pub open spec fn status_of(config: ConfigView) -> InitializationStatus {
    InitializationStatus {
        folders: !config.folders.is_empty(),
        login_info: !config.logins.is_empty(),
    }
}

/// Whether a store with the given contents is fully initialised.
pub open spec fn complete(config: ConfigView) -> bool {
    !config.folders.is_empty() && !config.logins.is_empty()
}

/// Reports which parts of `config` are initialised.
pub fn initialization_status(config: &ServerConfiguration) -> (status: InitializationStatus)
    ensures
        status == status_of(config@),
{
    InitializationStatus {
        folders: !config.folders.is_empty(),
        login_info: !config.logins.is_empty(),
    }
}

impl ServerConfiguration {
    /// The folder set of the store.
    pub closed spec fn folders(&self) -> FolderSet {
        self.folders
    }

    /// The login set of the store.
    pub closed spec fn logins(&self) -> LoginSet {
        self.logins
    }

    /// Both sets are well formed.
    pub open spec fn wf(&self) -> bool {
        self.folders().wf() && self.logins().wf()
    }

    /// The empty store.
    pub fn new() -> (config: Self)
        ensures
            config.wf(),
            config@.folders == Set::<Seq<char>>::empty(),
            config@.logins == Map::<Seq<char>, Seq<char>>::empty(),
            !complete(config@),
    {
        Self { folders: FolderSet::new(), logins: LoginSet::new() }
    }

    /// The folder set, for reading.
    pub fn get_folders(&self) -> (set: &FolderSet)
        ensures
            *set == self.folders(),
    {
        &self.folders
    }

    /// The login set, for reading.
    pub fn get_logins(&self) -> (set: &LoginSet)
        ensures
            *set == self.logins(),
    {
        &self.logins
    }

    /// The folder set, for changing it in place. The logins stay as they are.
    pub fn get_folders_mut(&mut self) -> (set: &mut FolderSet)
        ensures
            *set == old(self).folders(),
            final(self).folders() == *final(set),
            final(self).logins() == old(self).logins(),
    {
        &mut self.folders
    }

    /// The login set, for changing it in place. The folders stay as they are.
    pub fn get_logins_mut(&mut self) -> (set: &mut LoginSet)
        ensures
            *set == old(self).logins(),
            final(self).logins() == *final(set),
            final(self).folders() == old(self).folders(),
    {
        &mut self.logins
    }

    /// Which parts of the store are initialised.
    pub fn status(&self) -> (status: InitializationStatus)
        ensures
            status == status_of(self@),
    {
        initialization_status(self)
    }

    /// Whether the store has at least one folder and at least one login.
    pub fn is_complete(&self) -> (both: bool)
        ensures
            both == complete(self@),
    {
        self.status().done()
    }

    /// Empties both sets.
    pub fn reset(&mut self)
        ensures
            final(self).wf(),
            final(self)@.folders == Set::<Seq<char>>::empty(),
            final(self)@.logins == Map::<Seq<char>, Seq<char>>::empty(),
            !complete(final(self)@),
    {
        self.folders.clear();
        self.logins.clear();
    }
}

/// A store in the form in which it is written out: two ordered collections.
#[derive(Debug)]
pub struct Document {
    /// The folder paths.
    pub folders: Vec<String>,
    /// The logins.
    pub logins: Vec<LoginInfo>,
}

impl Document {
    /// The folder paths of the document, in its order.
    pub open spec fn folder_texts(&self) -> Seq<Seq<char>> {
        keys_of(self.folders@)
    }

    /// The logins of the document, in its order.
    pub open spec fn login_views(&self) -> Seq<crate::login::LoginView> {
        views_of(self.logins@)
    }
}

/// The contents of the store that a document with the given collections
/// stands for: every folder path once, and for each user name the digest of
/// its first login.
pub open spec fn contents_of(
    folders: Seq<Seq<char>>,
    logins: Seq<crate::login::LoginView>,
) -> ConfigView {
    ConfigView { folders: folders.to_set(), logins: entered(logins) }
}

impl ServerConfiguration {
    /// Writes the store out as a document, each collection in the canonical
    /// order of the store.
    pub fn to_document(&self) -> (doc: Document)
        ensures
            doc.folder_texts() == self.folders().listing(),
            doc.login_views() == self.logins().listing(),
            contents_of(doc.folder_texts(), doc.login_views()) == self@,
    {
        Document { folders: self.folders.to_vec(), logins: self.logins.to_vec() }
    }

    /// Builds the store that a document stands for.
    pub fn from_document(doc: Document) -> (config: Self)
        ensures
            config.wf(),
            config@ == contents_of(doc.folder_texts(), doc.login_views()),
    {
        Self { folders: FolderSet::from_vec(doc.folders), logins: LoginSet::from_vec(doc.logins) }
    }

    /// Writing a store out and building a store from what was written gives
    /// the same folders and the same logins: `back` is any store with the
    /// contents that the listings of `self` stand for.
    pub proof fn lemma_document_round_trip(self, back: Self)
        requires
            back@ == contents_of(self.folders().listing(), self.logins().listing()),
        ensures
            back@ == self@,
    {
    }
}

} // verus!
