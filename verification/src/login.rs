//! A login entry: one authorised user, known by name, with the digest that
//! stands in for the password.

use core::cmp::Ordering;
use vstd::prelude::*;

use crate::hasher::{base64_encode, base64_len, base64_text};
use crate::sorted::Keyed;
use crate::text::{rank, rank_of, Rank};

verus! {

/// What a login entry is: a user name and an encoded digest.
pub struct LoginView {
    pub user: Seq<char>,
    pub digest: Seq<char>,
}

/// One authorised user. Two entries with the same user name count as the
/// same entry, whatever their digests.
#[derive(Debug)]
pub struct LoginInfo {
    user: String,
    base64_passwd_hash: String,
}

impl View for LoginInfo {
    type V = LoginView;

    closed spec fn view(&self) -> LoginView {
        LoginView { user: self.user@, digest: self.base64_passwd_hash@ }
    }
}

impl LoginInfo {
    /// An entry for `username` whose digest is the encoding of the raw hash
    /// `passwd_hash`.
    pub fn new(username: String, passwd_hash: &[u8]) -> (info: Self)
        requires
            base64_len(passwd_hash@.len()) <= usize::MAX,
        ensures
            info@.user == username@,
            info@.digest == base64_text(passwd_hash@),
            info@.digest.len() == base64_len(passwd_hash@.len()),
    {
        Self { user: username, base64_passwd_hash: base64_encode(passwd_hash) }
    }

    /// An entry for `username` with a digest that is already encoded.
    pub fn from_parts(username: String, digest: String) -> (info: Self)
        ensures
            info@ == (LoginView { user: username@, digest: digest@ }),
    {
        Self { user: username, base64_passwd_hash: digest }
    }

    /// The user name.
    pub fn user(&self) -> (name: &str)
        ensures
            name@ == self@.user,
    {
        self.user.as_str()
    }

    /// The encoded digest.
    pub fn digest(&self) -> (text: &str)
        ensures
            text@ == self@.digest,
    {
        self.base64_passwd_hash.as_str()
    }

    /// Where this entry stands relative to `other` in the canonical order,
    /// which goes by user name alone.
    pub fn cmp(&self, other: &Self) -> (o: Ordering)
        ensures
            o == ordering_of(rank_of(self@.user, other@.user)),
    {
        match rank(self.user.as_str(), other.user.as_str()) {
            Rank::Before => Ordering::Less,
            Rank::Same => Ordering::Equal,
            Rank::After => Ordering::Greater,
        }
    }
}

/// A rank in the terms of the standard library.
pub open spec fn ordering_of(r: Rank) -> Ordering {
    match r {
        Rank::Before => Ordering::Less,
        Rank::Same => Ordering::Equal,
        Rank::After => Ordering::Greater,
    }
}

impl Keyed for LoginInfo {
    /// An entry is found and ordered by its user name.
    open spec fn key(&self) -> Seq<char> {
        self@.user
    }

    fn key_text(&self) -> (text: &str) {
        self.user.as_str()
    }
}

impl Clone for LoginInfo {
    fn clone(&self) -> (copy: Self)
        ensures
            copy@ == self@,
    {
        Self { user: self.user.clone(), base64_passwd_hash: self.base64_passwd_hash.clone() }
    }
}

impl PartialEq for LoginInfo {
    fn eq(&self, other: &Self) -> (r: bool) {
        self.user == other.user
    }
}

impl vstd::std_specs::cmp::PartialEqSpecImpl for LoginInfo {
    open spec fn obeys_eq_spec() -> bool {
        true
    }

    open spec fn eq_spec(&self, other: &Self) -> bool {
        self@.user == other@.user
    }
}

impl Eq for LoginInfo {

}

impl PartialOrd for LoginInfo {
    fn partial_cmp(&self, other: &Self) -> (r: Option<Ordering>) {
        Some(self.cmp(other))
    }
}

impl vstd::std_specs::cmp::PartialOrdSpecImpl for LoginInfo {
    open spec fn obeys_partial_cmp_spec() -> bool {
        true
    }

    open spec fn partial_cmp_spec(&self, other: &Self) -> Option<Ordering> {
        Some(ordering_of(rank_of(self@.user, other@.user)))
    }
}

} // verus!
