//! A keyed table, the shape of a contract's persistent storage.
use vstd::prelude::*;
use crate::types::{Address, BytesN32};

verus! {

/// Keys that can be compared at run time exactly as they are compared in specifications.
pub trait TableKey: Sized {
    fn key_eq(&self, other: &Self) -> (b: bool)
        ensures
            b == (*self == *other),
    ;

    fn key_copy(&self) -> (r: Self)
        ensures
            r == *self,
    ;
}

/// Values that can be copied into an identical value.
pub trait Snapshot: Sized {
    fn snapshot(&self) -> (r: Self)
        ensures
            r == *self,
    ;
}

impl TableKey for u64 {
    fn key_eq(&self, other: &Self) -> (b: bool) {
        *self == *other
    }

    fn key_copy(&self) -> (r: Self) {
        *self
    }
}

impl TableKey for u32 {
    fn key_eq(&self, other: &Self) -> (b: bool) {
        *self == *other
    }

    fn key_copy(&self) -> (r: Self) {
        *self
    }
}

impl TableKey for Address {
    fn key_eq(&self, other: &Self) -> (b: bool) {
        self.id == other.id
    }

    fn key_copy(&self) -> (r: Self) {
        *self
    }
}

impl TableKey for (u64, u32) {
    fn key_eq(&self, other: &Self) -> (b: bool) {
        self.0 == other.0 && self.1 == other.1
 
    }

    fn key_copy(&self) -> (r: Self) {
        (self.0, self.1)
    }
}

impl TableKey for (u64, Address) {
    fn key_eq(&self, other: &Self) -> (b: bool) {
        self.0 == other.0 && self.1.id == other.1.id
 
    }

    fn key_copy(&self) -> (r: Self) {
        (self.0, self.1)
    }
}

impl TableKey for (u64, Address, Address) {
    fn key_eq(&self, other: &Self) -> (b: bool) {
        self.0 == other.0 && self.1.id == other.1.id && self.2.id == other.2.id
 
    }

    fn key_copy(&self) -> (r: Self) {
        (self.0, self.1, self.2)
    }
}

impl TableKey for BytesN32 {
    fn key_eq(&self, other: &Self) -> (b: bool) {
        let mut i: usize = 0;
        while i < 32
            invariant
                i <= 32,
                forall|j: int| 0 <= j < i ==> self.bytes@[j] == other.bytes@[j],
            decreases 32 - i,
        {
            if self.bytes[i] != other.bytes[i] {
                return false;
            }
            i = i + 1;
        }
        assert(self.bytes =~= other.bytes);
        true
    }

    fn key_copy(&self) -> (r: Self) {
        *self
    }
}

impl TableKey for (BytesN32, u32) {
    fn key_eq(&self, other: &Self) -> (b: bool) {
        self.0.key_eq(&other.0) && self.1 == other.1
    }

    fn key_copy(&self) -> (r: Self) {
        (self.0, self.1)
    }
}

impl TableKey for (BytesN32, Address) {
    fn key_eq(&self, other: &Self) -> (b: bool) {
        self.0.key_eq(&other.0) && self.1.id == other.1.id
    }

    fn key_copy(&self) -> (r: Self) {
        (self.0, self.1)
    }
}

impl Snapshot for u32 {
    fn snapshot(&self) -> (r: Self) {
        *self
    }
}

impl Snapshot for i128 {
    fn snapshot(&self) -> (r: Self) {
        *self
    }
}

impl Snapshot for bool {
    fn snapshot(&self) -> (r: Self) {
        *self
    }
}

impl Snapshot for Address {
    fn snapshot(&self) -> (r: Self) {
        *self
    }
}

/// Copies a vector element by element.
pub fn snapshot_vec<T: Snapshot>(v: &Vec<T>) -> (r: Vec<T>)
    ensures
        r@ == v@,
{
    let mut r: Vec<T> = Vec::new();
    let n = v.len();
    for i in 0..n
        invariant
            n == v@.len(),
            r@ == v@.subrange(0, i as int),
    {
        r.push(v[i].snapshot());
        assert(r@ =~= v@.subrange(0, i + 1));
    }
    assert(r@ =~= v@);
    r
}

/// A map from keys to values, kept as two parallel vectors with distinct keys.
pub struct Table<K: TableKey, V> {
    keys: Vec<K>,
    vals: Vec<V>,
}

impl<K: TableKey, V> Table<K, V> {
    #[verifier::type_invariant]
    spec fn inv(self) -> bool {
        &&& self.keys@.len() == self.vals@.len()
        &&& forall|i: int, j: int|
            0 <= i < j < self.keys@.len() ==> self.keys@[i] != self.keys@[j]
    }

    spec fn index_of(self, k: K) -> int {
        choose|i: int| 0 <= i < self.keys@.len() && self.keys@[i] == k
    }

    /// The table's contents as a map.
    pub closed spec fn view(&self) -> Map<K, V> {
        Map::new(
            |k: K| exists|i: int| 0 <= i < self.keys@.len() && self.keys@[i] == k,
            |k: K| self.vals@[self.index_of(k)],
        )
    }

    proof fn lemma_view_at(self, i: int)
        requires
            self.inv(),
            0 <= i < self.keys@.len(),
        ensures
            self.view().contains_key(self.keys@[i]),
            self.view()[self.keys@[i]] == self.vals@[i],
    {
        let k = self.keys@[i];
        assert(exists|j: int| 0 <= j < self.keys@.len() && self.keys@[j] == k);
        let j = self.index_of(k);
        assert(j == i);
    }

    proof fn lemma_absent(self, k: K)
        requires
            forall|i: int| 0 <= i < self.keys@.len() ==> self.keys@[i] != k,
        ensures
            !self.view().contains_key(k),
    {
    }

    pub fn new() -> (t: Self)
        ensures
            t.view() == Map::<K, V>::empty(),
    {
        let t = Table { keys: Vec::new(), vals: Vec::new() };
        assert(t.view() =~= Map::<K, V>::empty());
        t
    }

    fn find(&self, k: &K) -> (r: Option<usize>)
        ensures
            match r {
                Some(i) => i < self.keys@.len() && self.keys@[i as int] == *k,
                None => forall|i: int| 0 <= i < self.keys@.len() ==> self.keys@[i] != *k,
            },
    {
        proof {
            use_type_invariant(self);
        }
        let n = self.keys.len();
        for i in 0..n
            invariant
                n == self.keys@.len(),
                forall|j: int| 0 <= j < i ==> self.keys@[j] != *k,
        {
            if self.keys[i].key_eq(k) {
                return Some(i);
            }
        }
        None
    }

    pub fn contains_key(&self, k: &K) -> (b: bool)
        ensures
            b == self.view().contains_key(*k),
    {
        proof {
            use_type_invariant(self);
        }
        match self.find(k) {
            Some(i) => {
                proof {
                    self.lemma_view_at(i as int);
                }
                true
            },
            None => {
                proof {
                    self.lemma_absent(*k);
                }
                false
            },
        }
    }

    pub fn get(&self, k: &K) -> (r: Option<&V>)
        ensures
            match r {
                Some(v) => self.view().contains_key(*k) && *v == self.view()[*k],
                None => !self.view().contains_key(*k),
            },
    {
        proof {
            use_type_invariant(self);
        }
        match self.find(k) {
            Some(i) => {
                proof {
                    self.lemma_view_at(i as int);
                }
                Some(&self.vals[i])
            },
            None => {
                proof {
                    self.lemma_absent(*k);
                }
                None
            },
        }
    }

    pub fn insert(&mut self, k: K, v: V)
        ensures
            final(self).view() == old(self).view().insert(k, v),
    {
        proof {
            use_type_invariant(&*self);
        }
        let ghost old_t = *self;
        match self.find(&k) {
            Some(i) => {
                let mut t = Table::new();
                std::mem::swap(&mut t, self);
                let Table { keys, mut vals } = t;
                vals.set(i, v);
                let ghost nt = Table { keys, vals };
                proof {
                    assert forall|a: int, b: int| 0 <= a < b < nt.keys@.len() implies nt.keys@[a]
                        != nt.keys@[b] by {
                        assert(old_t.keys@[a] != old_t.keys@[b]);
                    }
                    assert forall|kk: K| #[trigger] nt.view().contains_key(kk) == old_t.view().insert(k, v).contains_key(kk) by {
                        if exists|j: int| 0 <= j < old_t.keys@.len() && old_t.keys@[j] == kk {
                            let j = choose|j: int| 0 <= j < old_t.keys@.len() && old_t.keys@[j] == kk;
                            old_t.lemma_view_at(j);
                            nt.lemma_view_at(j);
                        }
                    }
                    assert forall|kk: K| #[trigger] nt.view().contains_key(kk) implies nt.view()[kk]
                        == old_t.view().insert(k, v)[kk] by {
                        let j = choose|j: int| 0 <= j < nt.keys@.len() && nt.keys@[j] == kk;
                        nt.lemma_view_at(j);
                        old_t.lemma_view_at(j);
                    }
                    assert(nt.view() =~= old_t.view().insert(k, v));
                }
                *self = Table { keys, vals };
            },
            None => {
                let mut t = Table::new();
                std::mem::swap(&mut t, self);
                let Table { mut keys, mut vals } = t;
                keys.push(k);
                vals.push(v);
                let ghost nt = Table { keys, vals };
                proof {
                    let n = old_t.keys@.len() as int;
                    assert forall|a: int, b: int| 0 <= a < b < nt.keys@.len() implies nt.keys@[a]
                        != nt.keys@[b] by {
                        if b < n {
                            assert(old_t.keys@[a] != old_t.keys@[b]);
                        }
                    }
                    nt.lemma_view_at(n);
                    assert forall|kk: K| #[trigger] nt.view().contains_key(kk) == old_t.view().insert(k, v).contains_key(kk) by {
                        if exists|j: int| 0 <= j < old_t.keys@.len() && old_t.keys@[j] == kk {
                            let j = choose|j: int| 0 <= j < old_t.keys@.len() && old_t.keys@[j] == kk;
                            old_t.lemma_view_at(j);
                            nt.lemma_view_at(j);
                        }
                        if exists|j: int| 0 <= j < nt.keys@.len() && nt.keys@[j] == kk {
                            let j = choose|j: int| 0 <= j < nt.keys@.len() && nt.keys@[j] == kk;
                            if j < n {
                                old_t.lemma_view_at(j);
                            }
                        }
                    }
                    assert forall|kk: K| #[trigger] nt.view().contains_key(kk) implies nt.view()[kk]
                        == old_t.view().insert(k, v)[kk] by {
                        let j = choose|j: int| 0 <= j < nt.keys@.len() && nt.keys@[j] == kk;
                        nt.lemma_view_at(j);
                        if j < n {
                            old_t.lemma_view_at(j);
                        }
                    }
                    assert(nt.view() =~= old_t.view().insert(k, v));
                }
                *self = Table { keys, vals };
            },
        }
    }

    pub fn remove(&mut self, k: &K)
        ensures
            final(self).view() == old(self).view().remove(*k),
    {
        proof {
            use_type_invariant(&*self);
        }
        let ghost old_t = *self;
        match self.find(k) {
            Some(i) => {
                let mut t = Table::new();
                std::mem::swap(&mut t, self);
                let Table { mut keys, mut vals } = t;
                keys.remove(i);
                vals.remove(i);
                let ghost nt = Table { keys, vals };
                proof {
                    let ii = i as int;
                    assert(forall|j: int| 0 <= j < ii ==> nt.keys@[j] == old_t.keys@[j]);
                    assert(forall|j: int| ii <= j < nt.keys@.len() ==> nt.keys@[j] == old_t.keys@[j + 1]);
                    assert(forall|j: int| ii <= j < nt.keys@.len() ==> nt.vals@[j] == old_t.vals@[j + 1]);
                    assert forall|a: int, b: int| 0 <= a < b < nt.keys@.len() implies nt.keys@[a]
                        != nt.keys@[b] by {
                        let oa = if a < ii { a } else { a + 1 };
                        let ob = if b < ii { b } else { b + 1 };
                        assert(old_t.keys@[oa] != old_t.keys@[ob]);
                    }
                    assert forall|kk: K| #[trigger] nt.view().contains_key(kk) == old_t.view().remove(*k).contains_key(kk) by {
                        if exists|j: int| 0 <= j < old_t.keys@.len() && old_t.keys@[j] == kk {
                            let j = choose|j: int| 0 <= j < old_t.keys@.len() && old_t.keys@[j] == kk;
                            old_t.lemma_view_at(j);
                            if j < ii {
                                nt.lemma_view_at(j);
                            } else if j > ii {
                                nt.lemma_view_at(j - 1);
                            }
                        }
                        if exists|j: int| 0 <= j < nt.keys@.len() && nt.keys@[j] == kk {
                            let j = choose|j: int| 0 <= j < nt.keys@.len() && nt.keys@[j] == kk;
                            let oj = if j < ii { j } else { j + 1 };
                            old_t.lemma_view_at(oj);
                            assert(old_t.keys@[oj] != old_t.keys@[ii]);
                        }
                    }
                    assert forall|kk: K| #[trigger] nt.view().contains_key(kk) implies nt.view()[kk]
                        == old_t.view().remove(*k)[kk] by {
                        let j = choose|j: int| 0 <= j < nt.keys@.len() && nt.keys@[j] == kk;
                        nt.lemma_view_at(j);
                        let oj = if j < ii { j } else { j + 1 };
                        old_t.lemma_view_at(oj);
                    }
                    assert(nt.view() =~= old_t.view().remove(*k));
                }
                *self = Table { keys, vals };
            },
            None => {
                proof {
                    old_t.lemma_absent(*k);
                    assert(old_t.view() =~= old_t.view().remove(*k));
                }
            },
        }
    }
}

impl<K: TableKey, V: Snapshot> Table<K, V> {
    /// An identical copy of the table.
    pub fn snapshot(&self) -> (r: Self)
        ensures
            r.view() == self.view(),
    {
        proof {
            use_type_invariant(self);
        }
        let mut keys: Vec<K> = Vec::new();
        let n = self.keys.len();
        for i in 0..n
            invariant
                n == self.keys@.len(),
                keys@ == self.keys@.subrange(0, i as int),
        {
            keys.push(self.keys[i].key_copy());
            assert(keys@ =~= self.keys@.subrange(0, i + 1));
        }
        assert(keys@ =~= self.keys@);
        let vals = snapshot_vec(&self.vals);
        let r = Table { keys, vals };
        proof {
            assert forall|kk: K| #[trigger] r.view().contains_key(kk) == self.view().contains_key(kk) by {}
            assert forall|kk: K| #[trigger] r.view().contains_key(kk) implies r.view()[kk] == self.view()[kk] by {}
            assert(r.view() =~= self.view());
        }
        r
    }
}

impl<K: TableKey, V> View for Table<K, V> {
    type V = Map<K, V>;

    open spec fn view(&self) -> Map<K, V> {
        Table::view(self)
    }
}

} // verus!
