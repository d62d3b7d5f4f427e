//! The administrative-code lookup table.
//!
//! Supplied read-only by the caller, it maps a combined prefecture +
//! municipality input code to a normalized municipal JIS code.  Viewed as a
//! map from code to value; inserting an existing code overwrites it.

use vstd::prelude::*;

verus! {

/// The map described by a sequence of (code, value) entries, later entries
/// overwriting earlier ones.
pub open spec fn map_of_entries(s: Seq<(String, String)>) -> Map<Seq<char>, Seq<char>>
    decreases s.len(),
{
    if s.len() == 0 {
        Map::empty()
    } else {
        map_of_entries(s.drop_last()).insert(s.last().0@, s.last().1@)
    }
}

/// No entry of `s` carries the key `k`, so the map has no value for it.
proof fn lemma_map_of_entries_no_match(s: Seq<(String, String)>, k: Seq<char>)
    requires
        forall|j: int| 0 <= j < s.len() ==> s[j].0@ != k,
    ensures
        !map_of_entries(s).contains_key(k),
    decreases s.len(),
{
    if s.len() > 0 {
        lemma_map_of_entries_no_match(s.drop_last(), k);
    }
}

/// The entry at `i` carries the key `k` and no later entry does, so the map
/// holds that entry's value for it.
proof fn lemma_map_of_entries_match(s: Seq<(String, String)>, k: Seq<char>, i: int)
    requires
        0 <= i < s.len(),
        s[i].0@ == k,
        forall|j: int| i < j < s.len() ==> s[j].0@ != k,
    ensures
        map_of_entries(s).contains_key(k),
        map_of_entries(s)[k] == s[i].1@,
    decreases s.len(),
{
    if i == s.len() - 1 {
    } else {
        lemma_map_of_entries_match(s.drop_last(), k, i);
    }
}

/// A code-to-code lookup table; a map from input code to normalized code.
pub struct CodeTable {
    entries: Vec<(String, String)>,
}

impl View for CodeTable {
    type V = Map<Seq<char>, Seq<char>>;

    closed spec fn view(&self) -> Map<Seq<char>, Seq<char>> {
        map_of_entries(self.entries@)
    }
}

impl CodeTable {
    /// Returns an empty table.
    pub fn new() -> (r: CodeTable)
        ensures
            r@ == Map::<Seq<char>, Seq<char>>::empty(),
    {
        CodeTable { entries: Vec::new() }
    }

    /// Maps `code` to `value`, overwriting any earlier mapping of `code`.
    pub fn insert(&mut self, code: String, value: String)
        ensures
            final(self)@ == old(self)@.insert(code@, value@),
    {
        let ghost before = self.entries@;
        self.entries.push((code, value));
        proof {
            assert(self.entries@.drop_last() =~= before);
        }
    }

    /// Looks `code` up, returning the value of its latest mapping.
    pub fn lookup(&self, code: &String) -> (r: Option<String>)
        ensures
            r.deep_view() == (if self@.contains_key(code@) {
                Some(self@[code@])
            } else {
                None::<Seq<char>>
            }),
    {
        let mut i: usize = self.entries.len();
        while i > 0
            invariant
                i <= self.entries@.len(),
                forall|j: int| i <= j < self.entries@.len() ==> self.entries@[j].0@ != code@,
            decreases i,
        {
            i = i - 1;
            if self.entries[i].0 == *code {
                proof {
                    lemma_map_of_entries_match(self.entries@, code@, i as int);
                }
                return Some(self.entries[i].1.clone());
            }
        }
        proof {
            lemma_map_of_entries_no_match(self.entries@, code@);
        }
        None
    }
}

} // verus!
