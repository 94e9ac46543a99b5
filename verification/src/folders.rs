//! The set of shared folders.

use vstd::prelude::*;

use crate::sorted::{
    find_slot, keys_of, lemma_insert_at_slot, lemma_push_widens_set,
    lemma_slot_decides_membership, lemma_sorted_has_no_duplicates, lemma_sorted_is_canonical,
};
use crate::text::{rank, strictly_sorted, Rank};

verus! {

/// A set of folder paths. A path is identified by its full text; the set is
/// kept in the canonical order, so that it is always written out the same
/// way.
#[derive(Debug)]
pub struct FolderSet {
    paths: Vec<String>,
}

impl View for FolderSet {
    type V = Set<Seq<char>>;

    /// The paths that the set holds.
    open spec fn view(&self) -> Set<Seq<char>> {
        self.listing().to_set()
    }
}

impl FolderSet {
    /// The paths in the order in which the set lists them.
    pub closed spec fn listing(&self) -> Seq<Seq<char>> {
        keys_of(self.paths@)
    }

    /// The listing is in the canonical order, which also means that no path
    /// is listed twice.
    pub open spec fn wf(&self) -> bool {
        strictly_sorted(self.listing())
    }

    /// The empty set.
    pub fn new() -> (set: Self)
        ensures
            set.wf(),
            set.listing() == Seq::<Seq<char>>::empty(),
            set@ == Set::<Seq<char>>::empty(),
    {
        let set = Self { paths: Vec::new() };
        assert(set.listing() =~= Seq::<Seq<char>>::empty());
        assert(set@ =~= Set::<Seq<char>>::empty());
        set
    }

    /// The number of paths in the set.
    pub fn len(&self) -> (n: usize)
        ensures
            n == self.listing().len(),
            self.wf() ==> n == self@.len(),
    {
        proof {
            if self.wf() {
                lemma_sorted_has_no_duplicates(self.listing());
                self.listing().unique_seq_to_set();
            }
        }
        self.paths.len()
    }

    /// Whether the set holds no path.
    pub fn is_empty(&self) -> (empty: bool)
        ensures
            empty == (self.listing().len() == 0),
            empty == self@.is_empty(),
    {
        proof {
            if self.listing().len() == 0 {
                assert(self@ =~= Set::<Seq<char>>::empty());
            } else {
                assert(self@.contains(self.listing()[0]));
            }
        }
        self.paths.len() == 0
    }

    /// Whether the path listed at `slot`, if there is one, is `path`.
    fn holds_at(&self, slot: usize, path: &str) -> (hit: bool)
        ensures
            hit == (slot < self.listing().len() && self.listing()[slot as int] == path@),
    {
        if slot < self.paths.len() {
            let here = self.paths[slot].as_str();
            assert(here@ == self.listing()[slot as int]);
            rank(here, path) == Rank::Same
        } else {
            false
        }
    }

    /// Whether `path` is in the set.
    pub fn contains(&self, path: &str) -> (found: bool)
        requires
            self.wf(),
        ensures
            found == self@.contains(path@),
    {
        let slot = find_slot(&self.paths, path);
        proof {
            lemma_slot_decides_membership(self.listing(), path@, slot as int);
        }
        self.holds_at(slot, path)
    }

    /// Adds `path` to the set. Returns whether the set has grown: a path
    /// that is already there is absorbed and the set stays as it was.
    pub fn insert(&mut self, path: String) -> (added: bool)
        requires
            old(self).wf(),
        ensures
            final(self).wf(),
            added == !old(self)@.contains(path@),
            final(self)@ == old(self)@.insert(path@),
            !added ==> final(self).listing() == old(self).listing(),
    {
        let slot = find_slot(&self.paths, path.as_str());
        let ghost before = self.listing();
        proof {
            lemma_slot_decides_membership(before, path@, slot as int);
        }
        if self.holds_at(slot, path.as_str()) {
            assert(self@.insert(path@) =~= self@);
            false
        } else {
            proof {
                lemma_insert_at_slot(before, path@, slot as int);
            }
            self.paths.insert(slot, path);
            assert(self.listing() =~= before.insert(slot as int, path@));
            true
        }
    }

    /// Removes every path.
    pub fn clear(&mut self)
        ensures
            final(self).wf(),
            final(self).listing() == Seq::<Seq<char>>::empty(),
            final(self)@ == Set::<Seq<char>>::empty(),
    {
        self.paths.clear();
        assert(self.listing() =~= Seq::<Seq<char>>::empty());
        assert(self@ =~= Set::<Seq<char>>::empty());
    }

    /// The path at place `index` of the listing.
    pub fn get(&self, index: usize) -> (path: &str)
        requires
            index < self.listing().len(),
        ensures
            path@ == self.listing()[index as int],
    {
        self.paths[index].as_str()
    }

    /// The paths in the order of the listing.
    pub fn to_vec(&self) -> (paths: Vec<String>)
        ensures
            keys_of(paths@) == self.listing(),
    {
        let mut paths: Vec<String> = Vec::new();
        let mut i: usize = 0;
        while i < self.paths.len()
            invariant
                i <= self.paths.len(),
                paths@.len() == i,
                forall|j: int| 0 <= j < i ==> (#[trigger] paths@[j])@ == self.paths@[j]@,
            decreases self.paths.len() - i,
        {
            paths.push(self.paths[i].clone());
            i += 1;
        }
        assert(keys_of(paths@) =~= self.listing());
        paths
    }

    /// The set that holds exactly the given paths.
    pub fn from_vec(paths: Vec<String>) -> (set: Self)
        ensures
            set.wf(),
            set@ == keys_of(paths@).to_set(),
    {
        let mut set = Self::new();
        let mut i: usize = 0;
        while i < paths.len()
            invariant
                i <= paths.len(),
                set.wf(),
                set@ == keys_of(paths@).take(i as int).to_set(),
            decreases paths.len() - i,
        {
            let ghost texts = keys_of(paths@);
            proof {
                assert(texts.take(i as int + 1) =~= texts.take(i as int).push(texts[i as int]));
                lemma_push_widens_set(texts.take(i as int), texts[i as int]);
            }
            set.insert(paths[i].clone());
            i += 1;
        }
        assert(keys_of(paths@).take(paths@.len() as int) =~= keys_of(paths@));
        set
    }

    /// Two sets that hold the same paths list them in the same order.
    pub proof fn lemma_listing_is_canonical(self, other: Self)
        requires
            self.wf(),
            other.wf(),
            self@ == other@,
        ensures
            self.listing() == other.listing(),
    {
        lemma_sorted_is_canonical(self.listing(), other.listing());
    }
}

} // verus!
