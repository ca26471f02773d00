//! A keyed counter: a character label and a running count.

use vstd::prelude::*;

verus! {

/// A count kept under a one-character key.
#[derive(Debug)]
pub struct Counter {
    key: char,
    count: i32,
}

impl Counter {
    /// The key the counter is kept under.
    pub closed spec fn spec_key(&self) -> char {
        self.key
    }

    /// The number counted so far.
    pub closed spec fn spec_count(&self) -> int {
        self.count as int
    }

    /// The counter under key `'a'`, at zero.
    pub fn default() -> (c: Counter)
        ensures
            c.spec_key() == 'a',
            c.spec_count() == 0,
    {
        Counter::new('a', 0)
    }

    /// A counter under `key` that starts at `count`.
    pub fn new(key: char, count: i32) -> (c: Counter)
        ensures
            c.spec_key() == key,
            c.spec_count() == count,
    {
        Counter { key, count }
    }

    /// The key the counter is kept under.
    pub fn key(&self) -> (k: char)
        ensures
            k == self.spec_key(),
    {
        self.key
    }

    /// The number counted so far.
    pub fn count(&self) -> (n: i32)
        ensures
            n == self.spec_count(),
    {
        self.count
    }

    /// Counts one more; the key stays.
    pub fn increment(&mut self)
        requires
            old(self).spec_count() < i32::MAX,
        ensures
            final(self).spec_count() == old(self).spec_count() + 1,
            final(self).spec_key() == old(self).spec_key(),
    {
        self.count += 1;
    }

    /// Replaces the key; the count stays.
    pub fn update_key(&mut self, key: char)
        ensures
            final(self).spec_key() == key,
            final(self).spec_count() == old(self).spec_count(),
    {
        self.key = key;
    }
}

} // verus!
