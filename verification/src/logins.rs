//! The set of authorised logins.

use vstd::prelude::*;

use crate::login::{LoginInfo, LoginView};
use crate::sorted::{
    find_slot, keys_of, lemma_insert_at_slot, lemma_slot_decides_membership,
    lemma_sorted_has_no_duplicates, lemma_sorted_is_canonical, Keyed,
};
use crate::text::{rank, strictly_sorted, Rank};

verus! {

/// The user names of `entries`, in the order of the entries.
pub open spec fn names_of(entries: Seq<LoginView>) -> Seq<Seq<char>> {
    Seq::new(entries.len(), |i: int| entries[i].user)
}

/// Enters one login into a map from user names to digests. A name that is
/// already there keeps the digest it has.
pub open spec fn enter(logins: Map<Seq<char>, Seq<char>>, entry: LoginView) -> Map<
    Seq<char>,
    Seq<char>,
> {
    if logins.contains_key(entry.user) {
        logins
    } else {
        logins.insert(entry.user, entry.digest)
    }
}

/// The map that results from entering `entries` one after another.
pub open spec fn entered(entries: Seq<LoginView>) -> Map<Seq<char>, Seq<char>>
    decreases entries.len(),
{
    if entries.len() == 0 {
        Map::empty()
    } else {
        enter(entered(entries.drop_last()), entries.last())
    }
}

/// The names that have a digest after entering `entries` are the names of
/// the entries.
pub proof fn lemma_entered_names(entries: Seq<LoginView>)
    ensures
        entered(entries).dom() == names_of(entries).to_set(),
    decreases entries.len(),
{
    let names = names_of(entries);
    if entries.len() == 0 {
        assert(entered(entries).dom() =~= names.to_set());
    } else {
        let rest = entries.drop_last();
        lemma_entered_names(rest);
        assert forall|name: Seq<char>| entered(entries).dom().contains(name)
            <==> names.to_set().contains(name) by {
            if names.to_set().contains(name) {
                let i = choose|i: int| 0 <= i < names.len() && names[i] == name;
                if i < rest.len() {
                    assert(names_of(rest)[i] == name);
                }
            }
            if entered(rest).dom().contains(name) {
                let i = choose|i: int| 0 <= i < names_of(rest).len() && names_of(rest)[i] == name;
                assert(names[i] == name);
            }
            if name == entries.last().user {
                assert(names[entries.len() - 1] == name);
            }
        }
        assert(entered(entries).dom() =~= names.to_set());
    }
}

/// Putting an entry with a new name anywhere among the entries adds just
/// that entry to the map that they give.
pub proof fn lemma_entered_with_one_more(entries: Seq<LoginView>, entry: LoginView, at: int)
    requires
        0 <= at <= entries.len(),
        !names_of(entries).contains(entry.user),
    ensures
        entered(entries.insert(at, entry)) == entered(entries).insert(entry.user, entry.digest),
    decreases entries.len(),
{
    let wider = entries.insert(at, entry);
    lemma_entered_names(entries);
    if at == entries.len() {
        assert(wider.drop_last() =~= entries);
        assert(wider.last() == entry);
    } else {
        let rest = entries.drop_last();
        let last = entries.last();
        assert(wider.drop_last() =~= rest.insert(at, entry));
        assert(wider.last() == last);
        assert(names_of(entries)[entries.len() - 1] == last.user);
        assert(!names_of(rest).contains(entry.user)) by {
            if names_of(rest).contains(entry.user) {
                let i = choose|i: int| 0 <= i < names_of(rest).len() && names_of(rest)[i]
                    == entry.user;
                assert(names_of(entries)[i] == entry.user);
            }
        }
        lemma_entered_with_one_more(rest, entry, at);
        assert(entered(wider) =~= entered(entries).insert(entry.user, entry.digest));
    }
}

/// Of two logins with the same user name that are entered one after the
/// other, only the first is there afterwards: the second changes nothing.
/// Entered into an empty map, they leave exactly one login.
pub proof fn lemma_second_login_is_absorbed(
    logins: Map<Seq<char>, Seq<char>>,
    first: LoginView,
    second: LoginView,
)
    requires
        first.user == second.user,
    ensures
        enter(enter(logins, first), second) == enter(logins, first),
        enter(enter(Map::empty(), first), second) == Map::<Seq<char>, Seq<char>>::empty().insert(
            first.user,
            first.digest,
        ),
        enter(enter(Map::empty(), first), second).dom().len() == 1,
{
    let one = Map::<Seq<char>, Seq<char>>::empty().insert(first.user, first.digest);
    assert(one.dom() =~= Set::<Seq<char>>::empty().insert(first.user));
}

/// A set of logins, at most one for each user name. It is kept in the
/// canonical order of the names, so that it is always written out the same
/// way.
#[derive(Debug)]
pub struct LoginSet {
    entries: Vec<LoginInfo>,
}

impl View for LoginSet {
    type V = Map<Seq<char>, Seq<char>>;

    /// The digest of each user name that has a login.
    open spec fn view(&self) -> Map<Seq<char>, Seq<char>> {
        entered(self.listing())
    }
}

impl LoginSet {
    /// The logins in the order in which the set lists them.
    pub closed spec fn listing(&self) -> Seq<LoginView> {
        Seq::new(self.entries@.len(), |i: int| self.entries@[i]@)
    }

    /// The user names in the order of the listing.
    pub open spec fn names(&self) -> Seq<Seq<char>> {
        names_of(self.listing())
    }

    /// The names are in the canonical order, which also means that no user
    /// name is listed twice.
    pub open spec fn wf(&self) -> bool {
        strictly_sorted(self.names())
    }

    /// The names as the keys of the stored entries.
    proof fn lemma_names_are_keys(&self)
        ensures
            keys_of(self.entries@) == self.names(),
    {
        assert(keys_of(self.entries@) =~= self.names());
    }

    /// The empty set.
    pub fn new() -> (set: Self)
        ensures
            set.wf(),
            set.listing() == Seq::<LoginView>::empty(),
            set@ == Map::<Seq<char>, Seq<char>>::empty(),
    {
        let set = Self { entries: Vec::new() };
        assert(set.listing() =~= Seq::<LoginView>::empty());
        set
    }

    /// The number of logins in the set.
    pub fn len(&self) -> (n: usize)
        ensures
            n == self.listing().len(),
            self.wf() ==> n == self@.dom().len(),
    {
        proof {
            if self.wf() {
                lemma_sorted_has_no_duplicates(self.names());
                self.names().unique_seq_to_set();
                lemma_entered_names(self.listing());
            }
        }
        self.entries.len()
    }

    /// Whether the set holds no login.
    pub fn is_empty(&self) -> (empty: bool)
        ensures
            empty == (self.listing().len() == 0),
            empty == self@.is_empty(),
    {
        proof {
            lemma_entered_names(self.listing());
            if self.listing().len() == 0 {
                assert(self@.dom() =~= Set::<Seq<char>>::empty());
            } else {
                assert(self.names().to_set().contains(self.names()[0]));
            }
        }
        self.entries.len() == 0
    }

    /// Whether the login listed at `slot`, if there is one, is that of `name`.
    fn holds_at(&self, slot: usize, name: &str) -> (hit: bool)
        ensures
            hit == (slot < self.names().len() && self.names()[slot as int] == name@),
    {
        if slot < self.entries.len() {
            let here = self.entries[slot].key_text();
            assert(here@ == self.names()[slot as int]);
            rank(here, name) == Rank::Same
        } else {
            false
        }
    }

    /// Whether `name` has a login.
    pub fn contains(&self, name: &str) -> (found: bool)
        requires
            self.wf(),
        ensures
            found == self@.contains_key(name@),
    {
        proof {
            self.lemma_names_are_keys();
        }
        let slot = find_slot(&self.entries, name);
        proof {
            lemma_slot_decides_membership(self.names(), name@, slot as int);
            lemma_entered_names(self.listing());
        }
        self.holds_at(slot, name)
    }

    /// Adds `info` to the set. Returns whether the set has grown: where the
    /// user name already has a login, the set stays as it was and `info` is
    /// dropped.
    pub fn insert(&mut self, info: LoginInfo) -> (added: bool)
        requires
            old(self).wf(),
        ensures
            final(self).wf(),
            added == !old(self)@.contains_key(info@.user),
            final(self)@ == enter(old(self)@, info@),
            !added ==> final(self).listing() == old(self).listing(),
    {
        proof {
            self.lemma_names_are_keys();
        }
        let slot = find_slot(&self.entries, info.key_text());
        let ghost before = self.listing();
        let ghost names = self.names();
        proof {
            lemma_slot_decides_membership(names, info@.user, slot as int);
            lemma_entered_names(before);
        }
        if self.holds_at(slot, info.key_text()) {
            false
        } else {
            proof {
                lemma_insert_at_slot(names, info@.user, slot as int);
                lemma_entered_with_one_more(before, info@, slot as int);
            }
            self.entries.insert(slot, info);
            assert(self.listing() =~= before.insert(slot as int, info@));
            assert(self.names() =~= names.insert(slot as int, info@.user));
            true
        }
    }

    /// Removes every login.
    pub fn clear(&mut self)
        ensures
            final(self).wf(),
            final(self).listing() == Seq::<LoginView>::empty(),
            final(self)@ == Map::<Seq<char>, Seq<char>>::empty(),
    {
        self.entries.clear();
        assert(self.listing() =~= Seq::<LoginView>::empty());
    }

    /// The login at place `index` of the listing.
    pub fn get(&self, index: usize) -> (info: &LoginInfo)
        requires
            index < self.listing().len(),
        ensures
            info@ == self.listing()[index as int],
    {
        &self.entries[index]
    }

    /// The logins in the order of the listing.
    pub fn to_vec(&self) -> (logins: Vec<LoginInfo>)
        ensures
            views_of(logins@) == self.listing(),
    {
        let mut logins: Vec<LoginInfo> = Vec::new();
        let mut i: usize = 0;
        while i < self.entries.len()
            invariant
                i <= self.entries.len(),
                logins@.len() == i,
                forall|j: int| 0 <= j < i ==> (#[trigger] logins@[j])@ == self.entries@[j]@,
            decreases self.entries.len() - i,
        {
            logins.push(self.entries[i].clone());
            i += 1;
        }
        assert(views_of(logins@) =~= self.listing());
        logins
    }

    /// The set that results from entering the given logins one after
    /// another: of two with the same user name the first one stays.
    pub fn from_vec(logins: Vec<LoginInfo>) -> (set: Self)
        ensures
            set.wf(),
            set@ == entered(views_of(logins@)),
    {
        let mut set = Self::new();
        let mut i: usize = 0;
        while i < logins.len()
            invariant
                i <= logins.len(),
                set.wf(),
                set@ == entered(views_of(logins@).take(i as int)),
            decreases logins.len() - i,
        {
            let ghost all = views_of(logins@);
            assert(all.take(i as int + 1).drop_last() =~= all.take(i as int));
            assert(all.take(i as int + 1).last() == logins@[i as int]@);
            set.insert(logins[i].clone());
            i += 1;
        }
        assert(views_of(logins@).take(logins@.len() as int) =~= views_of(logins@));
        set
    }

    /// Two sets that hold logins for the same user names list them in the
    /// same order.
    pub proof fn lemma_names_are_canonical(self, other: Self)
        requires
            self.wf(),
            other.wf(),
            self@.dom() == other@.dom(),
        ensures
            self.names() == other.names(),
    {
        lemma_entered_names(self.listing());
        lemma_entered_names(other.listing());
        lemma_sorted_is_canonical(self.names(), other.names());
    }
}

/// What each of `logins` is, in the same order.
pub open spec fn views_of(logins: Seq<LoginInfo>) -> Seq<LoginView> {
    Seq::new(logins.len(), |i: int| logins[i]@)
}

} // verus!
