//! The table from current string identifiers to legacy numeric identifiers.

use vstd::prelude::*;
use crate::tag::key_is;

verus! {

/// Pairs of a string identifier and its legacy numeric identifier.
#[derive(Debug, Clone)]
pub struct IdTable {
    pub entries: Vec<(String, i16)>,
}

/// The numeric identifier of `k`: that of the last entry for it.
pub open spec fn id_lookup(s: Seq<(String, i16)>, k: Seq<char>) -> Option<i16>
    decreases s.len(),
{
    if s.len() == 0 {
        None
    } else if s.last().0@ == k {
        Some(s.last().1)
    } else {
        id_lookup(s.drop_last(), k)
    }
}

impl IdTable {
    pub open spec fn get_spec(&self, k: Seq<char>) -> Option<i16> {
        id_lookup(self.entries@, k)
    }

    /// The legacy numeric identifier of `name`, if the table has one.
    pub fn new_to_old(&self, name: &str) -> (r: Option<i16>)
        ensures
            r == self.get_spec(name@),
    {
        let mut i: usize = self.entries.len();
        assert(self.entries@.subrange(0, i as int) == self.entries@);
        while i > 0
            invariant
                i <= self.entries@.len(),
                id_lookup(self.entries@, name@) == id_lookup(self.entries@.subrange(0, i as int), name@),
            decreases i,
        {
            let ghost s = self.entries@.subrange(0, i as int);
            if key_is(&self.entries[i - 1].0, name) {
                return Some(self.entries[i - 1].1);
            }
            assert(s.drop_last() == self.entries@.subrange(0, i - 1));
            i = i - 1;
        }
        None
    }
}

} // verus!
