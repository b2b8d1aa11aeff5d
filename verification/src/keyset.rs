//! A small set of physical key codes, kept as a duplicate-free vector so
//! that the keyboard state machine can both test membership and iterate
//! over the held keys in a stable order.

use vstd::prelude::*;

verus! {

/// A duplicate-free collection of key codes.
#[derive(Clone, Debug)]
pub struct KeySet {
    /// The keys, each occurring at most once.
    pub keys: Vec<u32>,
}

impl KeySet {
    /// The set of key codes held.
    pub open spec fn set_view(self) -> Set<u32> {
        self.keys@.to_set()
    }

    /// The keys as a sequence, for iteration order.
    pub open spec fn seq_view(self) -> Seq<u32> {
        self.keys@
    }

    /// No key occurs twice.
    pub open spec fn wf(self) -> bool {
        forall|i: int, j: int|
            0 <= i < j < self.keys@.len() ==> self.keys@[i] != self.keys@[j]
    }

    /// An empty set.
    pub fn new() -> (r: KeySet)
        ensures
            r.wf(),
            r.set_view() == Set::<u32>::empty(),
            r.seq_view().len() == 0,
    {
        let r = KeySet { keys: Vec::new() };
        proof {
            assert(r.set_view() =~= Set::<u32>::empty());
        }
        r
    }

    /// How many keys are held.
    pub fn len(&self) -> (n: usize)
        ensures
            n == self.seq_view().len(),
    {
        self.keys.len()
    }

    /// The key at a position, for iteration.
    pub fn index(&self, i: usize) -> (k: u32)
        requires
            i < self.seq_view().len(),
        ensures
            k == self.seq_view()[i as int],
    {
        self.keys[i]
    }

    /// Whether `key` is held.
    pub fn contains(&self, key: u32) -> (r: bool)
        ensures
            r == self.set_view().contains(key),
    {
        let mut i: usize = 0;
        while i < self.keys.len()
            invariant
                i <= self.keys@.len(),
                forall|j: int| 0 <= j < i ==> self.keys@[j] != key,
            decreases self.keys@.len() - i,
        {
            if self.keys[i] == key {
                proof {
                    assert(self.keys@.contains(key));
                }
                return true;
            }
            i = i + 1;
        }
        proof {
            assert(!self.keys@.contains(key));
        }
        false
    }

    /// Add a key; a key already held is not duplicated.
    pub fn insert(&mut self, key: u32)
        requires
            old(self).wf(),
        ensures
            final(self).wf(),
            final(self).set_view() == old(self).set_view().insert(key),
            final(self).set_view().contains(key),
            final(self).seq_view() == if old(self).set_view().contains(key) {
                old(self).seq_view()
            } else {
                old(self).seq_view().push(key)
            },
    {
        if !self.contains(key) {
            self.keys.push(key);
            proof {
                let s0 = old(self).keys@;
                let s1 = self.keys@;
                assert(s1 == s0.push(key));
                assert forall|x: u32| s1.contains(x) implies s0.contains(x) || x == key by {
                    let i = choose|i: int| 0 <= i < s1.len() && s1[i] == x;
                    if i < s0.len() {
                        assert(s0[i] == x);
                    }
                };
                assert forall|x: u32| s0.contains(x) implies s1.contains(x) by {
                    let i = choose|i: int| 0 <= i < s0.len() && s0[i] == x;
                    assert(s1[i] == x);
                };
                assert(s1.contains(key)) by {
                    assert(s1[s1.len() - 1] == key);
                };
                assert(self.set_view() =~= old(self).set_view().insert(key));
            }
        } else {
            proof {
                assert(self.set_view() =~= old(self).set_view().insert(key));
            }
        }
    }

    /// Remove a key; removing a key not held changes nothing. A held key
    /// leaves the sequence at the one position it occupied.
    pub fn remove(&mut self, key: u32)
        requires
            old(self).wf(),
        ensures
            final(self).wf(),
            final(self).set_view() == old(self).set_view().remove(key),
            !final(self).set_view().contains(key),
            old(self).set_view().contains(key) ==> exists|i: int|
                0 <= i < old(self).seq_view().len() && #[trigger] old(self).seq_view()[i] == key
                    && final(self).seq_view() == old(self).seq_view().remove(i),
            !old(self).set_view().contains(key) ==> final(self).seq_view() == old(
                self).seq_view(),
    {
        let mut i: usize = 0;
        while i < self.keys.len()
            invariant
                old(self).wf(),
                self == old(self),
                i <= self.keys@.len(),
                forall|j: int| 0 <= j < i ==> self.keys@[j] != key,
            decreases self.keys@.len() - i,
        {
            if self.keys[i] == key {
                self.keys.remove(i);
                proof {
                    assert(forall|k: u32|
                        final(self).keys@.contains(k) ==> old(self).keys@.contains(k));
                    assert(forall|j: int|
                        0 <= j < final(self).keys@.len() ==> final(self).keys@[j] != key)
                        by {
                        assert(forall|j: int|
                            0 <= j < i ==> final(self).keys@[j] == old(self).keys@[j]);
                        assert(forall|j: int|
                            i <= j < final(self).keys@.len()
                                ==> final(self).keys@[j] == old(self).keys@[j + 1]);
                    };
                    assert(forall|k: u32| k != key && old(self).keys@.contains(k)
                        ==> final(self).keys@.contains(k)) by {
                        assert(forall|j: int|
                            0 <= j < old(self).keys@.len() && j != i
                                ==> #[trigger] old(self).keys@[j]
                                    == final(self).keys@[if j < i { j } else { j - 1 }]);
                    };
                    assert(final(self).set_view() =~= old(self).set_view().remove(key));
                    assert(old(self).seq_view()[i as int] == key);
                    assert(final(self).seq_view() == old(self).seq_view().remove(i as int));
                }
                return;
            }
            i = i + 1;
        }
        proof {
            assert(!self.keys@.contains(key));
            assert(self.set_view() =~= old(self).set_view().remove(key));
        }
    }

    /// A copy of this set with the same keys in the same order.
    pub fn duplicate(&self) -> (r: KeySet)
        ensures
            r.seq_view() == self.seq_view(),
            r.set_view() == self.set_view(),
    {
        KeySet { keys: self.to_vec() }
    }

    /// The keys as a fresh vector.
    pub fn to_vec(&self) -> (r: Vec<u32>)
        ensures
            r@ == self.seq_view(),
    {
        let mut r: Vec<u32> = Vec::new();
        let mut i: usize = 0;
        while i < self.keys.len()
            invariant
                i <= self.keys@.len(),
                r@ == self.keys@.take(i as int),
            decreases self.keys@.len() - i,
        {
            r.push(self.keys[i]);
            proof {
                assert(r@ =~= self.keys@.take(i + 1));
            }
            i = i + 1;
        }
        proof {
            assert(r@ =~= self.keys@);
        }
        r
    }
}

} // verus!
