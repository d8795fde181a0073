//! Tables keyed by currency code, in the order the document listed them.
use crate::json::{keys_distinct, lookup, lookup_from};
use vstd::prelude::*;

verus! {

/// A table from currency codes to values, kept in the order of the document
/// it was read from. No two entries share a code.
#[derive(Debug, PartialEq)]
pub struct CodeMap<V: View> {
    entries: Vec<(String, V)>,
}

/// The views of a list of keyed entries, in order.
pub open spec fn entries_view<V: View>(entries: Seq<(String, V)>) -> Seq<(Seq<char>, V::V)> {
    entries.map_values(|e: (String, V)| (e.0@, e.1@))
}

impl<V: View> View for CodeMap<V> {
    type V = Seq<(Seq<char>, V::V)>;

    closed spec fn view(&self) -> Seq<(Seq<char>, V::V)> {
        entries_view(self.entries@)
    }
}

/// Whether some entry of `entries` has the code `code`.
pub(crate) fn has_code<V: View>(entries: &Vec<(String, V)>, code: &String) -> (r: bool)
    ensures
        r == lookup(entries_view(entries@), code@) is Some,
{
    let ghost s = entries_view(entries@);
    let mut i: usize = 0;
    while i < entries.len()
        invariant
            i <= entries.len(),
            s == entries_view(entries@),
            s.len() == entries.len(),
            lookup(s, code@) == lookup_from(s, code@, i as int),
        decreases entries.len() - i,
    {
        assert(s[i as int] == (entries[i as int].0@, entries[i as int].1@));
        if entries[i].0 == *code {
            return true;
        }
        i = i + 1;
    }
    false
}

impl<V: View> CodeMap<V> {
    #[verifier::type_invariant]
    spec fn codes_distinct(self) -> bool {
        keys_distinct(entries_view(self.entries@))
    }

    /// A table holding `entries`, in their order; their codes must differ.
    pub fn from_entries(entries: Vec<(String, V)>) -> (r: CodeMap<V>)
        requires
            keys_distinct(entries_view(entries@)),
        ensures
            r@ == entries_view(entries@),
    {
        CodeMap { entries }
    }

    /// The number of entries. No two entries share a code.
    pub fn len(&self) -> (r: usize)
        ensures
            r == self@.len(),
            keys_distinct(self@),
    {
        proof {
            use_type_invariant(self);
        }
        self.entries.len()
    }

    /// Whether the table has no entry.
    pub fn is_empty(&self) -> (r: bool)
        ensures
            r == (self@.len() == 0),
    {
        self.entries.len() == 0
    }

    /// The code and value of the entry at `index`.
    pub fn entry(&self, index: usize) -> (r: (&String, &V))
        requires
            index < self@.len(),
        ensures
            (r.0@, r.1@) == self@[index as int],
    {
        let e = &self.entries[index];
        (&e.0, &e.1)
    }

    /// The value stored under `code`.
    pub fn get(&self, code: &str) -> (r: Option<&V>)
        ensures
            match lookup(self@, code@) {
                Some(v) => r is Some && r->0@ == v,
                None => r is None,
            },
    {
        let wanted = code.to_owned();
        let mut i: usize = 0;
        while i < self.entries.len()
            invariant
                i <= self.entries.len(),
                wanted@ == code@,
                self@.len() == self.entries.len(),
                lookup(self@, code@) == lookup_from(self@, code@, i as int),
            decreases self.entries.len() - i,
        {
            assert(self@[i as int] == (self.entries[i as int].0@, self.entries[i as int].1@));
            if self.entries[i].0 == wanted {
                return Some(&self.entries[i].1);
            }
            i = i + 1;
        }
        None
    }

    /// Whether some entry has the code `code`.
    pub fn contains_key(&self, code: &str) -> (r: bool)
        ensures
            r == lookup(self@, code@) is Some,
    {
        self.get(code).is_some()
    }
}

} // verus!
