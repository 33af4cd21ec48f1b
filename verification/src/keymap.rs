//! A small association table keyed by `u32`, with unique keys and stable
//! insertion order, and the spec vocabulary (`assoc_has`, `assoc_at`, ...)
//! the rest of the crate states its contracts in.

use vstd::prelude::*;

verus! {

/// True if some entry of `s` carries the key `k`.
pub open spec fn assoc_has<V>(s: Seq<(u32, V)>, k: u32) -> bool {
    exists|i: int| 0 <= i < s.len() && (#[trigger] s[i]).0 == k
}

/// The position of the entry carrying `k`; meaningful only when
/// `assoc_has(s, k)` holds and the keys of `s` are distinct.
pub open spec fn assoc_index<V>(s: Seq<(u32, V)>, k: u32) -> int {
    choose|i: int| 0 <= i < s.len() && (#[trigger] s[i]).0 == k
}

/// The value stored beside `k`; meaningful only when `assoc_has(s, k)` holds
/// and the keys of `s` are distinct.
pub open spec fn assoc_at<V>(s: Seq<(u32, V)>, k: u32) -> V {
    s[assoc_index(s, k)].1
}

/// The keys of `s`, in entry order.
pub open spec fn assoc_keys<V>(s: Seq<(u32, V)>) -> Seq<u32> {
    s.map_values(|p: (u32, V)| p.0)
}

/// No key occurs twice in `s`.
pub open spec fn assoc_distinct<V>(s: Seq<(u32, V)>) -> bool {
    forall|i: int, j: int|
        0 <= i < j < s.len() ==> (#[trigger] s[i]).0 != (#[trigger] s[j]).0
}

/// An association table keyed by `u32`, kept free of duplicate keys.
/// Entries stay in insertion order, which callers rely on when they
/// replay the table onto a rebuilt backend.
pub struct KeyMap<V> {
    entries: Vec<(u32, V)>,
}

impl<V> KeyMap<V> {
    /// The entries as a sequence of key/value pairs.
    pub closed spec fn seq(self) -> Seq<(u32, V)> {
        self.entries@
    }

    /// Key distinctness; every operation preserves it.
    pub open spec fn wf(self) -> bool {
        assoc_distinct(self.seq())
    }

    pub fn new() -> (r: Self)
        ensures
            r.seq() == Seq::<(u32, V)>::empty(),
            r.wf(),
    {
        KeyMap { entries: Vec::new() }
    }

    pub fn len(&self) -> (r: usize)
        ensures
            r == self.seq().len(),
    {
        self.entries.len()
    }

    /// Linear search for `k`; returns its position if present.
    fn position_of(&self, k: u32) -> (r: Option<usize>)
        ensures
            (match r {
                Some(i) => i < self.seq().len() && self.seq()[i as int].0 == k,
                None => !assoc_has(self.seq(), k),
            }),
    {
        let n = self.entries.len();
        let mut i: usize = 0;
        while i < n
            invariant
                i <= n,
                n == self.seq().len(),
                forall|j: int| 0 <= j < i ==> (#[trigger] self.seq()[j]).0 != k,
            decreases n - i,
        {
            if self.entries[i].0 == k {
                return Some(i);
            }
            i = i + 1;
        }
        None
    }

    pub fn contains_key(&self, k: u32) -> (r: bool)
        ensures
            r == assoc_has(self.seq(), k),
    {
        self.position_of(k).is_some()
    }

    /// The value beside `k`, if any.
    pub fn get(&self, k: u32) -> (r: Option<&V>)
        requires
            self.wf(),
        ensures
            (match r {
                Some(v) => assoc_has(self.seq(), k) && *v == assoc_at(self.seq(), k),
                None => !assoc_has(self.seq(), k),
            }),
    {
        match self.position_of(k) {
            Some(i) => {
                let v = &self.entries[i].1;
                proof {
                    let w = choose|j: int|
                        0 <= j < self.seq().len() && (#[trigger] self.seq()[j]).0 == k;
                    assert(w == i as int);
                }
                Some(v)
            },
            None => None,
        }
    }

    /// Store `v` beside `k`, replacing any earlier entry for `k`.
    /// Returns true when an earlier entry was replaced.
    pub fn insert(&mut self, k: u32, v: V) -> (replaced: bool)
        requires
            old(self).wf(),
        ensures
            final(self).wf(),
            replaced == assoc_has(old(self).seq(), k),
            (if replaced {
                final(self).seq() == old(self).seq().update(
                    assoc_index(old(self).seq(), k),
                    (k, v),
                )
            } else {
                final(self).seq() == old(self).seq().push((k, v))
            }),
            assoc_has(final(self).seq(), k),
            assoc_at(final(self).seq(), k) == v,
            final(self).seq().len() == old(self).seq().len() + (if replaced {
                0int
            } else {
                1int
            }),
    {
        match self.position_of(k) {
            Some(i) => {
                self.entries[i] = (k, v);
                proof {
                    assert(self.seq() =~= old(self).seq().update(i as int, (k, v)));
                    let w0 = choose|j: int|
                        0 <= j < old(self).seq().len() && (#[trigger] old(self).seq()[j]).0 == k;
                    assert(w0 == i as int);
                    let w = choose|j: int|
                        0 <= j < self.seq().len() && (#[trigger] self.seq()[j]).0 == k;
                    assert(w == i as int);
                }
                true
            },
            None => {
                self.entries.push((k, v));
                proof {
                    assert(self.seq() =~= old(self).seq().push((k, v)));
                    let n = old(self).seq().len() as int;
                    assert(self.seq()[n].0 == k);
                    let w = choose|j: int|
                        0 <= j < self.seq().len() && (#[trigger] self.seq()[j]).0 == k;
                    assert(w == n);
                }
                false
            },
        }
    }

    /// The key of the entry at position `i`.
    pub fn key_at(&self, i: usize) -> (r: u32)
        requires
            i < self.seq().len(),
        ensures
            r == self.seq()[i as int].0,
    {
        self.entries[i].0
    }

    /// The value of the entry at position `i`.
    pub fn value_at(&self, i: usize) -> (r: &V)
        requires
            i < self.seq().len(),
        ensures
            *r == self.seq()[i as int].1,
    {
        &self.entries[i].1
    }
}

} // verus!
