//! The identity correlator.
//!
//! After the primary file is fully decoded, an index from each accident's
//! composite natural key to its generated surrogate identifier is built in
//! one pass.  Secondary rows resolve their parent through it; a key decoded
//! twice in one primary file silently overwrites (last write wins).  The
//! index is read-only once built and is discarded after the secondary file
//! finishes decoding.

use vstd::prelude::*;

use crate::models::{RawAccident, RawAccidentIdentifier};

verus! {

/// The composite natural key as a mathematical value.
pub type NaturalKey = (Seq<char>, Seq<char>, int);

/// The map described by a sequence of (identifier, surrogate) entries,
/// later entries overwriting earlier ones.
pub open spec fn index_of_entries(s: Seq<(RawAccidentIdentifier, u128)>) -> Map<NaturalKey, u128>
    decreases s.len(),
{
    if s.len() == 0 {
        Map::empty()
    } else {
        index_of_entries(s.drop_last()).insert(s.last().0.key(), s.last().1)
    }
}

/// No entry of `s` carries the key `k`, so the index has no value for it.
proof fn lemma_index_no_match(s: Seq<(RawAccidentIdentifier, u128)>, k: NaturalKey)
    requires
        forall|j: int| 0 <= j < s.len() ==> s[j].0.key() != k,
    ensures
        !index_of_entries(s).contains_key(k),
    decreases s.len(),
{
    if s.len() > 0 {
        lemma_index_no_match(s.drop_last(), k);
    }
}

/// The entry at `i` carries the key `k` and no later entry does, so the
/// index holds that entry's surrogate for it.
proof fn lemma_index_match(s: Seq<(RawAccidentIdentifier, u128)>, k: NaturalKey, i: int)
    requires
        0 <= i < s.len(),
        s[i].0.key() == k,
        forall|j: int| i < j < s.len() ==> s[j].0.key() != k,
    ensures
        index_of_entries(s).contains_key(k),
        index_of_entries(s)[k] == s[i].1,
    decreases s.len(),
{
    if i == s.len() - 1 {
    } else {
        lemma_index_match(s.drop_last(), k, i);
    }
}

/// The index from natural key to surrogate identifier.
pub struct IdentityIndex {
    entries: Vec<(RawAccidentIdentifier, u128)>,
}

impl View for IdentityIndex {
    type V = Map<NaturalKey, u128>;

    closed spec fn view(&self) -> Map<NaturalKey, u128> {
        index_of_entries(self.entries@)
    }
}

impl IdentityIndex {
    /// Returns an empty index.
    pub fn new() -> (r: IdentityIndex)
        ensures
            r@ == Map::<NaturalKey, u128>::empty(),
    {
        IdentityIndex { entries: Vec::new() }
    }

    /// Records `identifier -> id`, overwriting any earlier record of the
    /// same key.
    pub fn register(&mut self, identifier: RawAccidentIdentifier, id: u128)
        ensures
            final(self)@ == old(self)@.insert(identifier.key(), id),
    {
        let ghost before = self.entries@;
        self.entries.push((identifier, id));
        proof {
            assert(self.entries@.drop_last() =~= before);
        }
    }

    /// Resolves a composite key to the surrogate identifier it was last
    /// registered with, or nothing when the key was never registered.
    pub fn resolve(&self, identifier: &RawAccidentIdentifier) -> (r: Option<u128>)
        ensures
            r == (if self@.contains_key(identifier.key()) {
                Some(self@[identifier.key()])
            } else {
                None::<u128>
            }),
    {
        let mut i: usize = self.entries.len();
        while i > 0
            invariant
                i <= self.entries@.len(),
                forall|j: int|
                    i <= j < self.entries@.len() ==> self.entries@[j].0.key() != identifier.key(),
            decreases i,
        {
            i = i - 1;
            if self.entries[i].0.eq_key(identifier) {
                proof {
                    lemma_index_match(self.entries@, identifier.key(), i as int);
                }
                return Some(self.entries[i].1);
            }
        }
        proof {
            lemma_index_no_match(self.entries@, identifier.key());
        }
        None
    }
}

/// The index described by a fully decoded primary collection: each record's
/// natural key mapped to its surrogate identifier, later records
/// overwriting earlier ones.
pub open spec fn accidents_index_map(accs: Seq<RawAccident>) -> Map<NaturalKey, u128>
    decreases accs.len(),
{
    if accs.len() == 0 {
        Map::empty()
    } else {
        accidents_index_map(accs.drop_last()).insert(accs.last().spec_key(), accs.last().id)
    }
}

/// Builds the identity index in one pass over the fully decoded primary
/// collection; no partial index is ever exposed.
pub fn build_identity_index(accidents: &Vec<RawAccident>) -> (r: IdentityIndex)
    ensures
        r@ == accidents_index_map(accidents@),
{
    let mut index = IdentityIndex::new();
    let mut i: usize = 0;
    while i < accidents.len()
        invariant
            i <= accidents@.len(),
            index@ == accidents_index_map(accidents@.take(i as int)),
        decreases accidents@.len() - i,
    {
        index.register(accidents[i].identifier(), accidents[i].id);
        proof {
            assert(accidents@.take(i + 1).drop_last() =~= accidents@.take(i as int));
            assert(accidents@.take(i + 1).last() == accidents@[i as int]);
        }
        i = i + 1;
    }
    proof {
        assert(accidents@.take(accidents@.len() as int) =~= accidents@);
    }
    index
}

} // verus!
