//! The usage history: how often each action has been launched.
//!
//! The history is a list of entries with distinct keys, in the order in which
//! the keys were first recorded.  The order matters to the providers that
//! list entries of equal count.

use vstd::prelude::*;
use crate::text::{chars_of, copy_str, same};

verus! {

/// The mathematical value of a history: its entries, each a key and a count.
pub type Entries = Seq<(Seq<char>, u32)>;

/// No two entries have the same key.
pub open spec fn distinct_keys(h: Entries) -> bool {
    forall|i: int, j: int| 0 <= i < j < h.len() ==> (#[trigger] h[i]).0 != (#[trigger] h[j]).0
}

/// Some entry has the key `key`.
pub open spec fn has_key(h: Entries, key: Seq<char>) -> bool {
    exists|i: int| 0 <= i < h.len() && (#[trigger] h[i]).0 == key
}

/// The index of an entry with the key `key`.
pub open spec fn index_of_key(h: Entries, key: Seq<char>) -> int {
    choose|i: int| 0 <= i < h.len() && (#[trigger] h[i]).0 == key
}

/// The count recorded for `key`; zero for a key without an entry.
pub open spec fn count_in(h: Entries, key: Seq<char>) -> u32 {
    if has_key(h, key) {
        h[index_of_key(h, key)].1
    } else {
        0
    }
}

/// The count after one more use.  Counts never decrease: at the largest
/// value they stay.
pub open spec fn bumped(c: u32) -> u32 {
    if c < u32::MAX {
        (c + 1) as u32
    } else {
        c
    }
}

/// The entries after one use of `key` has been recorded.
pub open spec fn recorded(h: Entries, key: Seq<char>) -> Entries {
    if has_key(h, key) {
        let i = index_of_key(h, key);
        h.update(i, (key, bumped(h[i].1)))
    } else {
        h.push((key, 1u32))
    }
}

/// The entries without the entry of `key`.
pub open spec fn removed(h: Entries, key: Seq<char>) -> Entries {
    if has_key(h, key) {
        h.remove(index_of_key(h, key))
    } else {
        h
    }
}

/// The entries with the count of `key` set to `count`.
pub open spec fn assigned(h: Entries, key: Seq<char>, count: u32) -> Entries {
    if has_key(h, key) {
        h.update(index_of_key(h, key), (key, count))
    } else {
        h.push((key, count))
    }
}

/// With distinct keys, the entry of a key is found at one index only.
pub proof fn lemma_index_unique(h: Entries, key: Seq<char>, i: int)
    requires
        distinct_keys(h),
        0 <= i < h.len(),
        h[i].0 == key,
    ensures
        has_key(h, key),
        index_of_key(h, key) == i,
        count_in(h, key) == h[i].1,
{
    let j = index_of_key(h, key);
    assert(0 <= j < h.len() && h[j].0 == key);
    if i < j {
        assert(h[i].0 != h[j].0);
    } else if j < i {
        assert(h[j].0 != h[i].0);
    }
}

/// Recording a use keeps the keys distinct, raises the count of the key by
/// one (up to the largest count) and leaves every other count as it was.
pub proof fn lemma_recorded(h: Entries, key: Seq<char>)
    requires
        distinct_keys(h),
    ensures
        distinct_keys(recorded(h, key)),
        count_in(recorded(h, key), key) == bumped(count_in(h, key)),
        forall|other: Seq<char>| other != key ==> count_in(recorded(h, key), other) == count_in(h, other),
        recorded(h, key).len() == if has_key(h, key) { h.len() } else { h.len() + 1 },
{
    lemma_assigned(h, key, bumped(count_in(h, key)));
    assert(recorded(h, key) =~= assigned(h, key, bumped(count_in(h, key))));
}

/// Setting a count keeps the keys distinct, and changes the count of that key
/// only.
pub proof fn lemma_assigned(h: Entries, key: Seq<char>, count: u32)
    requires
        distinct_keys(h),
    ensures
        distinct_keys(assigned(h, key, count)),
        has_key(assigned(h, key, count), key),
        count_in(assigned(h, key, count), key) == count,
        forall|other: Seq<char>|
            other != key ==> count_in(assigned(h, key, count), other) == count_in(h, other)
                && has_key(assigned(h, key, count), other) == has_key(h, other),
        assigned(h, key, count).len() == if has_key(h, key) { h.len() } else { h.len() + 1 },
{
    let r = assigned(h, key, count);
    if has_key(h, key) {
        let i = index_of_key(h, key);
        assert forall|a: int, b: int| 0 <= a < b < r.len() implies (#[trigger] r[a]).0 != (
        #[trigger] r[b]).0 by {
            assert(h[a].0 != h[b].0);
        }
        lemma_index_unique(r, key, i);
        assert forall|other: Seq<char>| other != key implies count_in(r, other) == count_in(h, other)
            && has_key(r, other) == has_key(h, other) by {
            if has_key(h, other) {
                let j = index_of_key(h, other);
                assert(r[j] == h[j]);
                lemma_index_unique(r, other, j);
            } else if has_key(r, other) {
                let j = index_of_key(r, other);
                assert(h[j].0 == other);
            }
        }
    } else {
        assert forall|a: int, b: int| 0 <= a < b < r.len() implies (#[trigger] r[a]).0 != (
        #[trigger] r[b]).0 by {
            if b == h.len() {
                assert(h[a].0 != key);
            } else {
                assert(h[a].0 != h[b].0);
            }
        }
        lemma_index_unique(r, key, h.len() as int);
        assert forall|other: Seq<char>| other != key implies count_in(r, other) == count_in(h, other)
            && has_key(r, other) == has_key(h, other) by {
            if has_key(h, other) {
                let j = index_of_key(h, other);
                assert(r[j] == h[j]);
                lemma_index_unique(r, other, j);
            } else if has_key(r, other) {
                let j = index_of_key(r, other);
                assert(h[j].0 == other);
            }
        }
    }
}

/// Removing a key keeps the keys distinct, leaves no entry for that key and
/// leaves every other count as it was.
pub proof fn lemma_removed(h: Entries, key: Seq<char>)
    requires
        distinct_keys(h),
    ensures
        distinct_keys(removed(h, key)),
        !has_key(removed(h, key), key),
        count_in(removed(h, key), key) == 0,
        forall|other: Seq<char>| other != key ==> count_in(removed(h, key), other) == count_in(h, other),
{
    let r = removed(h, key);
    if has_key(h, key) {
        let i = index_of_key(h, key);
        assert forall|a: int, b: int| 0 <= a < b < r.len() implies (#[trigger] r[a]).0 != (
        #[trigger] r[b]).0 by {
            let ha = if a < i { a } else { a + 1 };
            let hb = if b < i { b } else { b + 1 };
            assert(r[a] == h[ha] && r[b] == h[hb]);
            assert(h[ha].0 != h[hb].0);
        }
        if has_key(r, key) {
            let j = index_of_key(r, key);
            let hj = if j < i { j } else { j + 1 };
            assert(r[j] == h[hj]);
            lemma_index_unique(h, key, hj);
        }
        assert forall|other: Seq<char>| other != key implies count_in(r, other) == count_in(
            h,
            other,
        ) by {
            if has_key(h, other) {
                let j = index_of_key(h, other);
                let rj = if j < i { j } else { j - 1 };
                assert(r[rj] == h[j]);
                lemma_index_unique(r, other, rj);
            } else if has_key(r, other) {
                let j = index_of_key(r, other);
                let hj = if j < i { j } else { j + 1 };
                assert(r[j] == h[hj]);
                assert(h[hj].0 == other);
            }
        }
    }
}

/// One entry of the history.
#[derive(Clone, Debug)]
pub struct HistoryEntry {
    pub key: String,
    pub count: u32,
}

/// The usage history.
#[derive(Clone, Debug)]
pub struct History {
    entries: Vec<HistoryEntry>,
}

impl View for History {
    type V = Entries;

    closed spec fn view(&self) -> Entries {
        Seq::new(self.entries@.len(), |i: int| (self.entries@[i].key@, self.entries@[i].count))
    }
}

impl History {
    /// The invariant of the history: its keys are distinct.
    pub open spec fn wf(&self) -> bool {
        distinct_keys(self@)
    }

    /// The count recorded for `key`.
    pub open spec fn count(&self, key: Seq<char>) -> u32 {
        count_in(self@, key)
    }

    /// The history without entries.
    pub fn new() -> (h: History)
        ensures
            h@ == Seq::<(Seq<char>, u32)>::empty(),
            h.wf(),
    {
        let h = History { entries: Vec::new() };
        assert(h@ =~= Seq::<(Seq<char>, u32)>::empty());
        h
    }

    /// The number of entries.
    pub fn len(&self) -> (n: usize)
        ensures
            n == self@.len(),
    {
        self.entries.len()
    }

    /// The key of the entry at index `i`.
    pub fn key_at(&self, i: usize) -> (k: &String)
        requires
            i < self@.len(),
        ensures
            k@ == self@[i as int].0,
    {
        &self.entries[i].key
    }

    /// The count of the entry at index `i`.
    pub fn count_at(&self, i: usize) -> (c: u32)
        requires
            i < self@.len(),
        ensures
            c == self@[i as int].1,
    {
        self.entries[i].count
    }

    fn position(&self, key: &Vec<char>) -> (r: Option<usize>)
        ensures
            match r {
                Some(i) => i < self@.len() && self@[i as int].0 == key@,
                None => !has_key(self@, key@),
            },
    {
        let mut i: usize = 0;
        while i < self.entries.len()
            invariant
                i <= self.entries@.len(),
                forall|j: int| 0 <= j < i ==> (#[trigger] self@[j]).0 != key@,
            decreases self.entries@.len() - i,
        {
            let k = chars_of(self.entries[i].key.as_str());
            if same(&k, key) {
                return Some(i);
            }
            i += 1;
        }
        None
    }

    /// The count recorded for `key`; zero for a key that was never recorded.
    pub fn get(&self, key: &str) -> (c: u32)
        requires
            self.wf(),
        ensures
            c == self.count(key@),
    {
        let k = chars_of(key);
        match self.position(&k) {
            Some(i) => {
                proof {
                    lemma_index_unique(self@, key@, i as int);
                }
                self.entries[i].count
            },
            None => 0,
        }
    }

    /// Whether `key` has an entry.
    pub fn contains_key(&self, key: &str) -> (r: bool)
        ensures
            r == has_key(self@, key@),
    {
        let k = chars_of(key);
        self.position(&k).is_some()
    }

    /// Records one use of `key`.
    pub fn record(&mut self, key: &str)
        requires
            old(self).wf(),
        ensures
            final(self).wf(),
            final(self)@ == recorded(old(self)@, key@),
    {
        let k = chars_of(key);
        proof {
            lemma_recorded(self@, key@);
        }
        match self.position(&k) {
            Some(i) => {
                proof {
                    lemma_index_unique(self@, key@, i as int);
                }
                let c = self.entries[i].count;
                let next = if c < u32::MAX {
                    c + 1
                } else {
                    c
                };
                let e = HistoryEntry { key: copy_str(key), count: next };
                self.entries.set(i, e);
                assert(self@ =~= recorded(old(self)@, key@));
            },
            None => {
                self.entries.push(HistoryEntry { key: copy_str(key), count: 1 });
                assert(self@ =~= recorded(old(self)@, key@));
            },
        }
    }

    /// Sets the count of `key`.
    pub fn set(&mut self, key: &str, count: u32)
        requires
            old(self).wf(),
        ensures
            final(self).wf(),
            final(self)@ == assigned(old(self)@, key@, count),
    {
        let k = chars_of(key);
        proof {
            lemma_assigned(self@, key@, count);
        }
        match self.position(&k) {
            Some(i) => {
                proof {
                    lemma_index_unique(self@, key@, i as int);
                }
                let e = HistoryEntry { key: copy_str(key), count };
                self.entries.set(i, e);
                assert(self@ =~= assigned(old(self)@, key@, count));
            },
            None => {
                self.entries.push(HistoryEntry { key: copy_str(key), count });
                assert(self@ =~= assigned(old(self)@, key@, count));
            },
        }
    }

    /// Removes the entry of `key`, if there is one.
    pub fn remove(&mut self, key: &str)
        requires
            old(self).wf(),
        ensures
            final(self).wf(),
            final(self)@ == removed(old(self)@, key@),
    {
        let k = chars_of(key);
        proof {
            lemma_removed(self@, key@);
        }
        match self.position(&k) {
            Some(i) => {
                proof {
                    lemma_index_unique(self@, key@, i as int);
                }
                self.entries.remove(i);
                assert(self@ =~= removed(old(self)@, key@));
            },
            None => {},
        }
    }

    /// A copy of the history.
    pub fn duplicate(&self) -> (h: History)
        ensures
            h@ == self@,
    {
        let mut entries: Vec<HistoryEntry> = Vec::new();
        let mut i: usize = 0;
        while i < self.entries.len()
            invariant
                i <= self.entries@.len(),
                entries@.len() == i,
                forall|j: int|
                    0 <= j < i ==> (#[trigger] entries@[j]).key@ == self.entries@[j].key@
                        && entries@[j].count == self.entries@[j].count,
            decreases self.entries@.len() - i,
        {
            entries.push(
                HistoryEntry {
                    key: copy_str(self.entries[i].key.as_str()),
                    count: self.entries[i].count,
                },
            );
            i += 1;
        }
        let h = History { entries };
        assert(h@ =~= self@);
        h
    }
}

} // verus!
