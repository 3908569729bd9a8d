//! An insertion-ordered header map with unique names. It stands in for a
//! hash map: names are unique, a later insertion with an existing name
//! overwrites the stored value in place, and serialization walks the pairs
//! in insertion order.

use crate::text::str_eq;
use vstd::prelude::*;
use vstd::string::*;

verus! {

/// Index of the first pair at or after `i` whose name is `k`; `hs.len()` if none.
pub open spec fn key_index_from(hs: Seq<(Seq<char>, Seq<char>)>, i: int, k: Seq<char>) -> int
    decreases hs.len() - i,
{
    if i < 0 || i >= hs.len() {
        hs.len() as int
    } else if hs[i].0 == k {
        i
    } else {
        key_index_from(hs, i + 1, k)
    }
}

/// Index of the first pair whose name is `k`; `hs.len()` if none.
pub open spec fn key_index(hs: Seq<(Seq<char>, Seq<char>)>, k: Seq<char>) -> int {
    key_index_from(hs, 0, k)
}

pub proof fn lemma_key_index_from(hs: Seq<(Seq<char>, Seq<char>)>, i: int, k: Seq<char>)
    requires
        0 <= i <= hs.len(),
    ensures
        i <= key_index_from(hs, i, k) <= hs.len(),
        key_index_from(hs, i, k) < hs.len() ==> hs[key_index_from(hs, i, k)].0 == k,
        forall|j: int| i <= j < key_index_from(hs, i, k) ==> hs[j].0 != k,
    decreases hs.len() - i,
{
    if i < hs.len() && hs[i].0 != k {
        lemma_key_index_from(hs, i + 1, k);
    }
}

/// True when some pair is named `k`.
pub open spec fn contains_key(hs: Seq<(Seq<char>, Seq<char>)>, k: Seq<char>) -> bool {
    key_index(hs, k) < hs.len()
}

/// The value stored under `k`, if any.
pub open spec fn value_of(hs: Seq<(Seq<char>, Seq<char>)>, k: Seq<char>) -> Option<Seq<char>> {
    if contains_key(hs, k) {
        Some(hs[key_index(hs, k)].1)
    } else {
        None
    }
}

/// Insertion with overwrite: an existing name keeps its position and takes
/// the new value; a new name is appended.
pub open spec fn spec_insert(
    hs: Seq<(Seq<char>, Seq<char>)>,
    k: Seq<char>,
    v: Seq<char>,
) -> Seq<(Seq<char>, Seq<char>)> {
    if contains_key(hs, k) {
        hs.update(key_index(hs, k), (k, v))
    } else {
        hs.push((k, v))
    }
}

/// Names are pairwise distinct.
pub open spec fn unique_names(hs: Seq<(Seq<char>, Seq<char>)>) -> bool {
    forall|i: int, j: int| 0 <= i < j < hs.len() ==> hs[i].0 != hs[j].0
}

/// An insertion-ordered map from header names to header values.
#[derive(Debug)]
pub struct Headers {
    pairs: Vec<(String, String)>,
}

impl View for Headers {
    type V = Seq<(Seq<char>, Seq<char>)>;

    closed spec fn view(&self) -> Seq<(Seq<char>, Seq<char>)> {
        Seq::new(self.pairs@.len(), |i: int| (self.pairs@[i].0@, self.pairs@[i].1@))
    }
}

impl Headers {
    /// Names are pairwise distinct.
    pub open spec fn wf(&self) -> bool {
        unique_names(self@)
    }

    /// An empty map.
    pub fn new() -> (r: Headers)
        ensures
            r@ == Seq::<(Seq<char>, Seq<char>)>::empty(),
            r.wf(),
    {
        let r = Headers { pairs: Vec::new() };
        proof {
            assert(r@ =~= Seq::<(Seq<char>, Seq<char>)>::empty());
        }
        r
    }

    /// The number of pairs.
    pub fn len(&self) -> (r: usize)
        ensures
            r == self@.len(),
    {
        self.pairs.len()
    }

    /// The pair at `i`, for walking the map in insertion order.
    pub fn pair_at(&self, i: usize) -> (r: (&String, &String))
        requires
            i < self@.len(),
        ensures
            r.0@ == self@[i as int].0,
            r.1@ == self@[i as int].1,
    {
        let p = &self.pairs[i];
        (&p.0, &p.1)
    }

    /// Index of the first pair named `k`, or the length if there is none.
    fn find_key(&self, k: &str) -> (r: usize)
        ensures
            r == key_index(self@, k@),
            r <= self@.len(),
    {
        let n = self.pairs.len();
        let mut i: usize = 0;
        while i < n
            invariant
                0 <= i <= n,
                n == self@.len(),
                n == self.pairs@.len(),
                key_index(self@, k@) == key_index_from(self@, i as int, k@),
            decreases n - i,
        {
            if str_eq(self.pairs[i].0.as_str(), k) {
                proof {
                    assert(self@[i as int].0 == k@);
                }
                return i;
            }
            proof {
                assert(self@[i as int].0 != k@);
            }
            i = i + 1;
        }
        i
    }

    /// The value stored under `k`, if any.
    pub fn get(&self, k: &str) -> (r: Option<&String>)
        ensures
            (match r {
                Some(v) => value_of(self@, k@) == Some(v@),
                None => value_of(self@, k@) is None,
            }),
    {
        let idx = self.find_key(k);
        if idx < self.pairs.len() {
            Some(&self.pairs[idx].1)
        } else {
            None
        }
    }

    /// Inserts `v` under `k`, overwriting the value of an existing name.
    pub fn insert(&mut self, k: String, v: String)
        ensures
            final(self)@ == spec_insert(old(self)@, k@, v@),
            old(self).wf() ==> final(self).wf(),
    {
        let idx = self.find_key(k.as_str());
        proof {
            lemma_key_index_from(old(self)@, 0, k@);
        }
        if idx < self.pairs.len() {
            self.pairs.set(idx, (k, v));
            proof {
                assert(self@ =~= spec_insert(old(self)@, k@, v@));
                if old(self).wf() {
                    assert forall|i: int, j: int| 0 <= i < j < self@.len() implies self@[i].0
                        != self@[j].0 by {
                        assert(old(self)@[i].0 != old(self)@[j].0);
                    }
                }
            }
        } else {
            self.pairs.push((k, v));
            proof {
                assert(self@ =~= spec_insert(old(self)@, k@, v@));
                if old(self).wf() {
                    assert forall|i: int, j: int| 0 <= i < j < self@.len() implies self@[i].0
                        != self@[j].0 by {
                        if j < old(self)@.len() {
                            assert(old(self)@[i].0 != old(self)@[j].0);
                        } else {
                            assert(old(self)@[i].0 != k@);
                        }
                    }
                }
            }
        }
    }
}

impl PartialEq for Headers {
    /// Pair-for-pair equality, in insertion order.
    fn eq(&self, other: &Headers) -> (r: bool) {
        let n = self.pairs.len();
        if n != other.pairs.len() {
            return false;
        }
        let mut i: usize = 0;
        while i < n
            invariant
                0 <= i <= n,
                n == self@.len(),
                n == other@.len(),
                n == self.pairs@.len(),
                n == other.pairs@.len(),
                forall|j: int| 0 <= j < i ==> self@[j] == other@[j],
            decreases n - i,
        {
            if !str_eq(self.pairs[i].0.as_str(), other.pairs[i].0.as_str()) {
                proof {
                    assert(self@[i as int].0 != other@[i as int].0);
                }
                return false;
            }
            if !str_eq(self.pairs[i].1.as_str(), other.pairs[i].1.as_str()) {
                proof {
                    assert(self@[i as int].1 != other@[i as int].1);
                }
                return false;
            }
            proof {
                assert(self@[i as int] == other@[i as int]);
            }
            i = i + 1;
        }
        proof {
            assert(self@ =~= other@);
        }
        true
    }
}

impl vstd::std_specs::cmp::PartialEqSpecImpl for Headers {
    open spec fn obeys_eq_spec() -> bool {
        true
    }

    open spec fn eq_spec(&self, other: &Headers) -> bool {
        self@ == other@
    }
}

} // verus!
