//! A keyed lookup table for static game data.
//!
//! Class definitions, equipment blueprints, skill definitions and innate-skill
//! definitions are read-only tables keyed by name. The table is a plain
//! association list: lookup returns the first binding whose key matches, so a
//! table built from distinct keys behaves as a map.

use vstd::prelude::*;
use crate::strutil::str_eq;

verus! {

/// First-match lookup in an association list.
pub open spec fn spec_lookup<V>(entries: Seq<(String, V)>, key: Seq<char>) -> Option<V>
    decreases entries.len(),
{
    if entries.len() == 0 {
        None
    } else if entries[0].0@ == key {
        Some(entries[0].1)
    } else {
        spec_lookup(entries.drop_first(), key)
    }
}

/// A read-only lookup table keyed by name.
#[derive(Clone, Debug, PartialEq)]
pub struct Table<V> {
    pub entries: Vec<(String, V)>,
}

impl<V> Table<V> {
    /// The binding this table holds for `key`, if any.
    pub open spec fn spec_get(&self, key: Seq<char>) -> Option<V> {
        spec_lookup(self.entries@, key)
    }

    /// True when the table holds a binding for `key`.
    pub open spec fn contains_key(&self, key: Seq<char>) -> bool {
        self.spec_get(key) is Some
    }

    /// An empty table.
    pub fn new() -> (r: Table<V>)
        ensures
            r.entries@.len() == 0,
            forall|k: Seq<char>| !r.contains_key(k),
    {
        let t = Table { entries: Vec::new() };
        proof {
            assert forall|k: Seq<char>| !t.contains_key(k) by {
                assert(spec_lookup(t.entries@, k) is None);
            }
        }
        t
    }

    /// Adds a binding. An existing binding for the same key stays and keeps
    /// precedence, so callers building a map insert each key once.
    pub fn insert(&mut self, key: String, value: V)
        ensures
            final(self).entries@ == old(self).entries@.push((key, value)),
    {
        self.entries.push((key, value));
    }

    /// Looks `key` up, returning the first matching binding.
    pub fn get(&self, key: &str) -> (r: Option<&V>)
        ensures
            match r {
                Some(v) => self.spec_get(key@) == Some(*v),
                None => self.spec_get(key@) is None,
            },
    {
        let n = self.entries.len();
        let mut i: usize = 0;
        proof {
            assert(self.entries@.skip(0) =~= self.entries@);
        }
        while i < n
            invariant
                n == self.entries@.len(),
                i <= n,
                spec_lookup(self.entries@, key@) == spec_lookup(
                    self.entries@.skip(i as int),
                    key@,
                ),
            decreases n - i,
        {
            let hit = str_eq(self.entries[i].0.as_str(), key);
            proof {
                assert(self.entries@.skip(i as int)[0] == self.entries@[i as int]);
                assert(self.entries@.skip(i as int).drop_first() =~= self.entries@.skip(
                    i as int + 1,
                ));
            }
            if hit {
                return Some(&self.entries[i].1);
            }
            i += 1;
        }
        proof {
            assert(self.entries@.skip(n as int) =~= Seq::<(String, V)>::empty());
        }
        None
    }
}

} // verus!
