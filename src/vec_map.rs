//! A fixed-capacity, insertion-ordered map backed by a `Vec`.
//!
//! The map never allocates after construction: an insert that would
//! exceed the capacity is refused and hands the value back.
use vstd::prelude::*;
use vstd::laws_eq::obeys_concrete_eq;
use vstd::std_specs::cmp::PartialEqSpec;

verus! {

/// Index of the first entry of `s` whose key is `k`, or -1 when there is none.
pub open spec fn find_key<K, V>(s: Seq<(K, V)>, k: K) -> int
    decreases s.len(),
{
    if s.len() == 0 {
        -1
    } else if s.last().0 == k {
        let i = find_key(s.drop_last(), k);
        if i >= 0 { i } else { s.len() - 1 }
    } else {
        find_key(s.drop_last(), k)
    }
}

/// Whether some entry of `s` has key `k`.
pub open spec fn has_key<K, V>(s: Seq<(K, V)>, k: K) -> bool {
    exists|i: int| 0 <= i < s.len() && #[trigger] s[i].0 == k
}

/// No two entries of `s` share a key.
pub open spec fn keys_unique<K, V>(s: Seq<(K, V)>) -> bool {
    forall|i: int, j: int| 0 <= i < s.len() && 0 <= j < s.len() && i != j ==> #[trigger] s[i].0 != #[trigger] s[j].0
}

/// `s` without the entry whose key is `k` (unchanged when there is none).
pub open spec fn without_key<K, V>(s: Seq<(K, V)>, k: K) -> Seq<(K, V)> {
    let i = find_key(s, k);
    if i >= 0 { s.remove(i) } else { s }
}

/// The entries of `s` whose flag in `keep` is set, in their order.
pub open spec fn filter_by<A>(s: Seq<A>, keep: Seq<bool>) -> Seq<A>
    decreases s.len(),
{
    if s.len() == 0 || keep.len() == 0 {
        Seq::empty()
    } else {
        let rest = filter_by(s.drop_last(), keep.drop_last());
        if keep.last() { rest.push(s.last()) } else { rest }
    }
}

pub proof fn lemma_find_key<K, V>(s: Seq<(K, V)>, k: K)
    ensures
        -1 <= find_key(s, k) < s.len(),
        find_key(s, k) >= 0 ==> s[find_key(s, k)].0 == k,
        find_key(s, k) >= 0 ==> forall|j: int| 0 <= j < find_key(s, k) ==> s[j].0 != k,
        find_key(s, k) == -1 <==> !has_key(s, k),
    decreases s.len(),
{
    if s.len() > 0 {
        let p = s.drop_last();
        lemma_find_key(p, k);
        assert forall|j: int| 0 <= j < p.len() implies p[j] == s[j] by {}
        if find_key(p, k) == -1 {
            if s.last().0 != k {
                assert forall|i: int| 0 <= i < s.len() implies s[i].0 != k by {
                    if i < p.len() {
                        assert(p[i] == s[i]);
                        if s[i].0 == k {
                            assert(has_key(p, k));
                        }
                    }
                }
            } else {
                assert forall|j: int| 0 <= j < s.len() - 1 implies s[j].0 != k by {
                    assert(p[j] == s[j]);
                    if s[j].0 == k {
                        assert(has_key(p, k));
                    }
                }
                assert(has_key(s, k));
            }
        } else {
            let i = find_key(p, k);
            assert(s[i] == p[i]);
            assert(has_key(s, k));
        }
    }
}

pub proof fn lemma_find_first<K, V>(s: Seq<(K, V)>, k: K, i: int)
    requires
        0 <= i < s.len(),
        s[i].0 == k,
        forall|j: int| 0 <= j < i ==> s[j].0 != k,
    ensures
        find_key(s, k) == i,
{
    lemma_find_key(s, k);
    assert(has_key(s, k));
}

proof fn lemma_find_none<K, V>(s: Seq<(K, V)>, k: K)
    requires
        forall|j: int| 0 <= j < s.len() ==> s[j].0 != k,
    ensures
        find_key(s, k) == -1,
{
    lemma_find_key(s, k);
}

proof fn lemma_unique_remove<K, V>(s: Seq<(K, V)>, i: int)
    requires
        keys_unique(s),
        0 <= i < s.len(),
    ensures
        keys_unique(s.remove(i)),
        s.remove(i).len() == s.len() - 1,
        !has_key(s.remove(i), s[i].0),
{
    let r = s.remove(i);
    assert forall|a: int| 0 <= a < r.len() implies r[a] == (if a < i { s[a] } else { s[a + 1] }) by {}
    assert forall|a: int| 0 <= a < r.len() implies #[trigger] r[a].0 != s[i].0 by {
        if a < i { assert(r[a] == s[a]); } else { assert(r[a] == s[a + 1]); }
    }
}

/// Every entry of `without_key(s, k)` is an entry of `s`, and keys stay unique.
pub proof fn lemma_without_key_sub<K, V>(s: Seq<(K, V)>, k: K)
    ensures
        forall|j: int| 0 <= j < without_key(s, k).len() ==> exists|i: int| 0 <= i < s.len() && #[trigger] without_key(s, k)[j] == s[i],
        keys_unique(s) ==> keys_unique(without_key(s, k)),
        without_key(s, k).len() <= s.len(),
{
    lemma_find_key(s, k);
    let i = find_key(s, k);
    if i >= 0 {
        let r = s.remove(i);
        assert forall|j: int| 0 <= j < r.len() implies exists|a: int| 0 <= a < s.len() && #[trigger] r[j] == s[a] by {
            if j < i { assert(r[j] == s[j]); } else { assert(r[j] == s[j + 1]); }
        }
        if keys_unique(s) {
            lemma_unique_remove(s, i);
        }
    } else {
        assert forall|j: int| 0 <= j < s.len() implies exists|a: int| 0 <= a < s.len() && #[trigger] s[j] == s[a] by {}
    }
}

/// Whether `x` is an entry of `s` whose flag in `keep` is set.
pub open spec fn kept_from<A>(s: Seq<A>, keep: Seq<bool>, x: A) -> bool {
    exists|i: int| 0 <= i < s.len() && keep[i] && s[i] == x
}

/// Every entry of `filter_by(s, keep)` is an entry of `s` whose flag is set.
pub proof fn lemma_filter_by_members<A>(s: Seq<A>, keep: Seq<bool>)
    requires
        keep.len() == s.len(),
    ensures
        filter_by(s, keep).len() <= s.len(),
        forall|j: int| 0 <= j < filter_by(s, keep).len() ==> kept_from(s, keep, #[trigger] filter_by(s, keep)[j]),
    decreases s.len(),
{
    if s.len() > 0 {
        let p = s.drop_last();
        let kp = keep.drop_last();
        lemma_filter_by_members(p, kp);
        let r = filter_by(s, keep);
        let rp = filter_by(p, kp);
        assert forall|j: int| 0 <= j < rp.len() implies kept_from(s, keep, #[trigger] rp[j]) by {
            assert(kept_from(p, kp, rp[j]));
            let i = choose|i: int| 0 <= i < p.len() && kp[i] && p[i] == rp[j];
            assert(s[i] == p[i] && keep[i] == kp[i]);
        }
        if keep.last() {
            assert(r == rp.push(s.last()));
            assert forall|j: int| 0 <= j < r.len() implies kept_from(s, keep, #[trigger] r[j]) by {
                if j < rp.len() {
                    assert(r[j] == rp[j]);
                    assert(kept_from(s, keep, rp[j]));
                } else {
                    assert(keep[s.len() - 1] && s[s.len() - 1] == r[j]);
                }
            }
        } else {
            assert(r == rp);
            assert forall|j: int| 0 <= j < r.len() implies kept_from(s, keep, #[trigger] r[j]) by {
                assert(r[j] == rp[j]);
                assert(kept_from(s, keep, rp[j]));
            }
        }
    }
}

/// `without_key` leaves a sequence without the key as it is.
pub proof fn lemma_without_absent<K, V>(s: Seq<(K, V)>, k: K)
    requires
        !has_key(s, k),
    ensures
        without_key(s, k) == s,
{
    lemma_find_key(s, k);
}

/// A map from keys to values that keeps its entries in insertion order and
/// never holds more than a fixed number of them.
pub struct VecMap<K, V> {
    vec: Vec<(K, V)>,
    capacity: usize,
}

impl<K, V> View for VecMap<K, V> {
    type V = Seq<(K, V)>;

    closed spec fn view(&self) -> Seq<(K, V)> {
        self.vec@
    }
}

impl<K: PartialEq, V> VecMap<K, V> {
    /// The number of entries the map can hold.
    pub closed spec fn spec_capacity(&self) -> nat {
        self.capacity as nat
    }

    /// The entries fit the capacity and no key occurs twice.
    pub open spec fn wf(&self) -> bool {
        &&& self@.len() <= self.spec_capacity()
        &&& keys_unique(self@)
    }

    /// Creates an empty map that can hold `capacity` entries.
    pub fn new(capacity: usize) -> (r: Self)
        ensures
            r@ == Seq::<(K, V)>::empty(),
            r.spec_capacity() == capacity,
            r.wf(),
    {
        VecMap { vec: Vec::with_capacity(capacity), capacity }
    }

    /// The number of entries.
    pub fn len(&self) -> (r: usize)
        ensures
            r == self@.len(),
    {
        self.vec.len()
    }

    /// The number of entries the map can hold.
    pub fn capacity(&self) -> (r: usize)
        ensures
            r == self.spec_capacity(),
    {
        self.capacity
    }

    fn position(&self, key: &K) -> (r: Option<usize>)
        requires
            obeys_concrete_eq::<K>(),
        ensures
            match r {
                Some(i) => find_key(self@, *key) == i,
                None => find_key(self@, *key) == -1,
            },
    {
        proof {
            reveal(obeys_concrete_eq);
        }
        let mut i: usize = 0;
        while i < self.vec.len()
            invariant
                0 <= i <= self@.len(),
                obeys_concrete_eq::<K>(),
                K::obeys_eq_spec(),
                forall|x: K, y: K| x.eq_spec(&y) <==> x == y,
                forall|j: int| 0 <= j < i ==> self@[j].0 != *key,
            decreases self@.len() - i,
        {
            if self.vec[i].0 == *key {
                proof {
                    lemma_find_first(self@, *key, i as int);
                }
                return Some(i);
            }
            i = i + 1;
        }
        proof {
            lemma_find_none(self@, *key);
        }
        None
    }

    /// The value stored under `key`, if any.
    pub fn get(&self, key: &K) -> (r: Option<&V>)
        requires
            obeys_concrete_eq::<K>(),
        ensures
            find_key(self@, *key) == -1 ==> r is None,
            find_key(self@, *key) >= 0 ==> r == Some(&self@[find_key(self@, *key)].1),
    {
        proof {
            lemma_find_key(self@, *key);
        }
        match self.position(key) {
            Some(i) => Some(&self.vec[i].1),
            None => None,
        }
    }

    /// The value stored at position `index` in insertion order, if any.
    pub fn get_index(&self, index: usize) -> (r: Option<&V>)
        ensures
            index < self@.len() ==> r == Some(&self@[index as int].1),
            index >= self@.len() ==> r is None,
    {
        if index < self.vec.len() {
            Some(&self.vec[index].1)
        } else {
            None
        }
    }

    /// The entry at position `index` in insertion order, if any.
    pub fn get_entry_index(&self, index: usize) -> (r: Option<&(K, V)>)
        ensures
            index < self@.len() ==> r == Some(&self@[index as int]),
            index >= self@.len() ==> r is None,
    {
        if index < self.vec.len() {
            Some(&self.vec[index])
        } else {
            None
        }
    }

    /// A mutable reference to the value stored under `key`, if any.
    pub fn get_mut(&mut self, key: &K) -> (r: Option<&mut V>)
        requires
            obeys_concrete_eq::<K>(),
        ensures
            final(self).spec_capacity() == old(self).spec_capacity(),
            find_key(old(self)@, *key) == -1 ==> r is None && final(self)@ == old(self)@,
            find_key(old(self)@, *key) >= 0 ==> r is Some,
            ({
                let i = find_key(old(self)@, *key);
                r matches Some(v) ==> *v == old(self)@[i].1 && final(self)@ == old(self)@.update(
                    i,
                    (old(self)@[i].0, *final(v)),
                )
            }),
    {
        proof {
            lemma_find_key(self@, *key);
        }
        match self.position(key) {
            Some(i) => Some(&mut self.vec[i].1),
            None => None,
        }
    }

    /// A mutable reference to the value at position `index`, if any.
    pub fn get_index_mut(&mut self, index: usize) -> (r: Option<&mut V>)
        ensures
            final(self).spec_capacity() == old(self).spec_capacity(),
            index >= old(self)@.len() ==> r is None && final(self)@ == old(self)@,
            index < old(self)@.len() ==> r is Some,
            r matches Some(v) ==> *v == old(self)@[index as int].1 && final(self)@ == old(self)@.update(
                index as int,
                (old(self)@[index as int].0, *final(v)),
            ),
    {
        if index < self.vec.len() {
            Some(&mut self.vec[index].1)
        } else {
            None
        }
    }

    /// A mutable reference to the entry at position `index`, if any.
    ///
    /// Changing the key through it may leave two entries with one key.
    pub fn get_entry_index_mut(&mut self, index: usize) -> (r: Option<&mut (K, V)>)
        ensures
            final(self).spec_capacity() == old(self).spec_capacity(),
            index >= old(self)@.len() ==> r is None && final(self)@ == old(self)@,
            index < old(self)@.len() ==> r is Some,
            r matches Some(e) ==> *e == old(self)@[index as int] && final(self)@ == old(self)@.update(
                index as int,
                *final(e),
            ),
    {
        if index < self.vec.len() {
            Some(&mut self.vec[index])
        } else {
            None
        }
    }

    /// Removes the entry stored under `key` and returns its value, if any.
    pub fn remove(&mut self, key: &K) -> (r: Option<V>)
        requires
            obeys_concrete_eq::<K>(),
            old(self).wf(),
        ensures
            final(self).wf(),
            final(self).spec_capacity() == old(self).spec_capacity(),
            final(self)@ == without_key(old(self)@, *key),
            !has_key(final(self)@, *key),
            find_key(old(self)@, *key) == -1 ==> r is None,
            find_key(old(self)@, *key) >= 0 ==> r == Some(old(self)@[find_key(old(self)@, *key)].1),
    {
        proof {
            lemma_find_key(self@, *key);
        }
        match self.position(key) {
            Some(i) => {
                proof {
                    lemma_unique_remove(self@, i as int);
                }
                let (_, v) = self.vec.remove(i);
                Some(v)
            },
            None => None,
        }
    }

    /// Removes the entry at position `index` and returns its value.
    pub fn remove_index(&mut self, index: usize) -> (r: V)
        requires
            index < old(self)@.len(),
            old(self).wf(),
        ensures
            final(self).wf(),
            final(self).spec_capacity() == old(self).spec_capacity(),
            final(self)@ == old(self)@.remove(index as int),
            r == old(self)@[index as int].1,
    {
        proof {
            lemma_unique_remove(self@, index as int);
        }
        let (_, v) = self.vec.remove(index);
        v
    }

    /// Stores `value` under `key`.
    ///
    /// An entry already stored under `key` is removed first, and its value is
    /// returned in `Ok`. If the map is then full, nothing is added and the
    /// value comes back in `Err`; otherwise the new entry goes last.
    pub fn insert(&mut self, key: K, value: V) -> (r: Result<Option<V>, V>)
        requires
            obeys_concrete_eq::<K>(),
            old(self).wf(),
        ensures
            final(self).wf(),
            final(self).spec_capacity() == old(self).spec_capacity(),
            ({
                let rest = without_key(old(self)@, key);
                let i = find_key(old(self)@, key);
                &&& rest.len() < old(self).spec_capacity() ==> {
                    &&& final(self)@ == rest.push((key, value))
                    &&& r == Ok::<Option<V>, V>(if i >= 0 { Some(old(self)@[i].1) } else { None })
                }
                &&& rest.len() >= old(self).spec_capacity() ==> {
                    &&& final(self)@ == rest
                    &&& r == Err::<Option<V>, V>(value)
                }
            }),
    {
        proof {
            lemma_find_key(self@, key);
        }
        let previous = self.remove(&key);
        if self.vec.len() >= self.capacity {
            return Err(value);
        }
        proof {
            assert forall|a: int, b: int|
                0 <= a < self@.push((key, value)).len() && 0 <= b < self@.push((key, value)).len() && a != b
                implies #[trigger] self@.push((key, value))[a].0 != #[trigger] self@.push((key, value))[b].0 by {
                let t = self@.push((key, value));
                if a < self@.len() && b < self@.len() {
                    assert(t[a] == self@[a] && t[b] == self@[b]);
                } else if a < self@.len() {
                    assert(t[a] == self@[a]);
                } else if b < self@.len() {
                    assert(t[b] == self@[b]);
                }
            }
        }
        self.vec.push((key, value));
        Ok(previous)
    }

    /// Keeps only the entries whose value `f` accepts, in their order.
    pub fn retain<F: Fn(&V) -> bool>(&mut self, f: F)
        requires
            old(self).wf(),
            forall|v: &V| f.requires((v,)),
        ensures
            final(self).wf(),
            final(self).spec_capacity() == old(self).spec_capacity(),
            exists|keep: Seq<bool>|
                {
                    &&& keep.len() == old(self)@.len()
                    &&& forall|i: int| 0 <= i < keep.len() ==> f.ensures((&old(self)@[i].1,), #[trigger] keep[i])
                    &&& final(self)@ == filter_by(old(self)@, keep)
                },
    {
        let ghost s0 = self@;
        let ghost mut keep: Seq<bool> = Seq::empty();
        let mut i: usize = 0;
        let ghost mut n: int = 0;
        while i < self.vec.len()
            invariant
                self.wf(),
                self.spec_capacity() == old(self).spec_capacity(),
                s0 == old(self)@,
                forall|v: &V| f.requires((v,)),
                0 <= n <= s0.len(),
                keep.len() == n,
                forall|j: int| 0 <= j < n ==> f.ensures((&s0[j].1,), #[trigger] keep[j]),
                filter_by(s0.subrange(0, n), keep).len() == i,
                self@ == filter_by(s0.subrange(0, n), keep) + s0.subrange(n, s0.len() as int),
                filter_by(s0.subrange(0, n), keep).len() <= n,
            decreases self@.len() - i,
        {
            let ghost prefix = filter_by(s0.subrange(0, n), keep);
            assert(self@[i as int] == s0[n]);
            let k = f(&self.vec[i].1);
            proof {
                let sub = s0.subrange(0, n + 1);
                assert(sub.drop_last() =~= s0.subrange(0, n));
                assert(keep.push(k).drop_last() =~= keep);
                assert(sub.last() == s0[n]);
            }
            if k {
                i = i + 1;
                proof {
                    assert(self@ =~= prefix.push(s0[n]) + s0.subrange(n + 1, s0.len() as int));
                }
            } else {
                proof {
                    lemma_unique_remove(self@, i as int);
                }
                self.vec.remove(i);
                proof {
                    assert(self@ =~= prefix + s0.subrange(n + 1, s0.len() as int));
                }
            }
            proof {
                keep = keep.push(k);
                n = n + 1;
            }
        }
        proof {
            assert(s0.subrange(0, n) =~= s0);
            assert(self@ =~= filter_by(s0, keep));
        }
    }

    /// Iterates over the entries in insertion order.
    pub fn iter_entries(&self) -> (r: std::slice::Iter<'_, (K, V)>)
        ensures
            vstd::std_specs::slice::into_iter_elts(r) == self@,
    {
        self.vec.as_slice().iter()
    }
}

} // verus!
