//! An insertion-ordered association list: each key occurs at most once, and
//! entries keep the order in which their keys were first inserted.
use vstd::prelude::*;

verus! {

/// Keys whose executable comparison agrees with equality of values.
pub trait MapKey: Sized + Copy {
    fn same_key(&self, other: &Self) -> (r: bool)
        ensures
            r == (*self == *other),
    ;
}

impl MapKey for u64 {
    fn same_key(&self, other: &Self) -> (r: bool) {
        *self == *other
    }
}

impl MapKey for usize {
    fn same_key(&self, other: &Self) -> (r: bool) {
        *self == *other
    }
}

/// No key occurs twice in `m`.
pub open spec fn keys_unique<K, V>(m: Seq<(K, V)>) -> bool {
    forall|i: int, j: int| 0 <= i < m.len() && 0 <= j < m.len() && i != j ==> m[i].0 != m[j].0
}

/// Whether `k` is a key of `m`.
pub open spec fn has_key<K, V>(m: Seq<(K, V)>, k: K) -> bool {
    exists|i: int| 0 <= i < m.len() && m[i].0 == k
}

/// The position of `k` in `m`, or -1 where `k` is not a key of `m`.
pub open spec fn index_of<K, V>(m: Seq<(K, V)>, k: K) -> int {
    if has_key(m, k) {
        choose|i: int| 0 <= i < m.len() && m[i].0 == k
    } else {
        -1
    }
}

/// The value that `m` holds for `k`, if any.
pub open spec fn lookup<K, V>(m: Seq<(K, V)>, k: K) -> Option<V> {
    if has_key(m, k) {
        Some(m[index_of(m, k)].1)
    } else {
        None
    }
}

/// `m` with the value for `k` replaced by `f` of the old value, or, where `k`
/// is not a key of `m`, with `(k, f(default))` appended.
pub open spec fn upsert<K, V>(m: Seq<(K, V)>, k: K, default: V, f: spec_fn(V) -> V) -> Seq<(K, V)> {
    if has_key(m, k) {
        m.update(index_of(m, k), (k, f(m[index_of(m, k)].1)))
    } else {
        m.push((k, f(default)))
    }
}

/// `m` with `k` mapped to `v`: in place where `k` is a key, appended otherwise.
pub open spec fn insert<K, V>(m: Seq<(K, V)>, k: K, v: V) -> Seq<(K, V)> {
    if has_key(m, k) {
        m.update(index_of(m, k), (k, v))
    } else {
        m.push((k, v))
    }
}

/// `m` without the entry for `k`.
pub open spec fn remove<K, V>(m: Seq<(K, V)>, k: K) -> Seq<(K, V)> {
    if has_key(m, k) {
        m.remove(index_of(m, k))
    } else {
        m
    }
}

/// The keys of `m`, in order.
pub open spec fn keys_of<K, V>(m: Seq<(K, V)>) -> Seq<K> {
    m.map_values(|e: (K, V)| e.0)
}

/// With unique keys, the position of a key is the one position that holds it.
pub proof fn lemma_index_of_unique<K, V>(m: Seq<(K, V)>, i: int)
    requires
        keys_unique(m),
        0 <= i < m.len(),
    ensures
        has_key(m, m[i].0),
        index_of(m, m[i].0) == i,
        lookup(m, m[i].0) == Some(m[i].1),
{
    assert(has_key(m, m[i].0));
}

/// The operations that add or change entries keep keys unique.
pub proof fn lemma_upsert_keeps_unique<K, V>(m: Seq<(K, V)>, k: K, d: V, f: spec_fn(V) -> V)
    requires
        keys_unique(m),
    ensures
        keys_unique(upsert(m, k, d, f)),
        has_key(upsert(m, k, d, f), k),
        lookup(upsert(m, k, d, f), k) == Some(
            f(
                match lookup(m, k) {
                    Some(v) => v,
                    None => d,
                },
            ),
        ),
        forall|k2: K| k2 != k ==> lookup(upsert(m, k, d, f), k2) == lookup(m, k2),
        forall|k2: K| has_key(m, k2) ==> has_key(upsert(m, k, d, f), k2),
{
    let r = upsert(m, k, d, f);
    if has_key(m, k) {
        let i = index_of(m, k);
        assert forall|a: int, b: int| 0 <= a < r.len() && 0 <= b < r.len() && a != b implies r[a].0
            != r[b].0 by {}
        lemma_index_of_unique(r, i);
        assert forall|k2: K| k2 != k implies lookup(r, k2) == lookup(m, k2) by {
            if has_key(m, k2) {
                let j = index_of(m, k2);
                lemma_index_of_unique(r, j);
            }
            if has_key(r, k2) {
                let j = choose|j: int| 0 <= j < r.len() && r[j].0 == k2;
                assert(m[j].0 == k2);
            }
        }
        assert forall|k2: K| has_key(m, k2) implies has_key(r, k2) by {
            let j = choose|j: int| 0 <= j < m.len() && m[j].0 == k2;
            assert(r[j].0 == k2);
        }
    } else {
        assert forall|a: int, b: int| 0 <= a < r.len() && 0 <= b < r.len() && a != b implies r[a].0
            != r[b].0 by {
            if a == m.len() as int {
                assert(!(m[b].0 == k));
            } else if b == m.len() as int {
                assert(!(m[a].0 == k));
            }
        }
        lemma_index_of_unique(r, m.len() as int);
        assert forall|k2: K| k2 != k implies lookup(r, k2) == lookup(m, k2) by {
            if has_key(m, k2) {
                let j = index_of(m, k2);
                lemma_index_of_unique(r, j);
            }
            if has_key(r, k2) {
                let j = choose|j: int| 0 <= j < r.len() && r[j].0 == k2;
                assert(m[j].0 == k2);
            }
        }
        assert forall|k2: K| has_key(m, k2) implies has_key(r, k2) by {
            let j = choose|j: int| 0 <= j < m.len() && m[j].0 == k2;
            assert(r[j].0 == k2);
        }
    }
}

/// Inserting keeps keys unique.
pub proof fn lemma_insert_keeps_unique<K, V>(m: Seq<(K, V)>, k: K, v: V)
    requires
        keys_unique(m),
    ensures
        keys_unique(insert(m, k, v)),
        lookup(insert(m, k, v), k) == Some(v),
        forall|k2: K| k2 != k ==> lookup(insert(m, k, v), k2) == lookup(m, k2),
{
    let f = |x: V| v;
    lemma_upsert_keeps_unique(m, k, v, f);
    assert(insert(m, k, v) =~= upsert(m, k, v, f));
}

/// Removing keeps keys unique and drops exactly the removed key.
pub proof fn lemma_remove_keeps_unique<K, V>(m: Seq<(K, V)>, k: K)
    requires
        keys_unique(m),
    ensures
        keys_unique(remove(m, k)),
        lookup(remove(m, k), k) == None::<V>,
        forall|k2: K| k2 != k ==> lookup(remove(m, k), k2) == lookup(m, k2),
{
    let r = remove(m, k);
    if has_key(m, k) {
        let i = index_of(m, k);
        assert forall|a: int, b: int| 0 <= a < r.len() && 0 <= b < r.len() && a != b implies r[a].0
            != r[b].0 by {
            let a2 = if a < i { a } else { a + 1 };
            let b2 = if b < i { b } else { b + 1 };
            assert(r[a] == m[a2]);
            assert(r[b] == m[b2]);
        }
        assert(!has_key(r, k)) by {
            if has_key(r, k) {
                let j = choose|j: int| 0 <= j < r.len() && r[j].0 == k;
                let j2 = if j < i { j } else { j + 1 };
                assert(r[j] == m[j2]);
            }
        }
        assert forall|k2: K| k2 != k implies lookup(r, k2) == lookup(m, k2) by {
            if has_key(m, k2) {
                let j = index_of(m, k2);
                let j2 = if j < i { j } else { j - 1 };
                assert(r[j2] == m[j]);
                lemma_index_of_unique(r, j2);
            }
            if has_key(r, k2) {
                let j = choose|j: int| 0 <= j < r.len() && r[j].0 == k2;
                let j2 = if j < i { j } else { j + 1 };
                assert(r[j] == m[j2]);
            }
        }
    }
}

/// Every value of `m` satisfies `p`.
pub open spec fn all_values<K, V>(m: Seq<(K, V)>, p: spec_fn(V) -> bool) -> bool {
    forall|i: int| 0 <= i < m.len() ==> p(#[trigger] m[i].1)
}

/// An update that keeps `p` keeps it for every value.
pub proof fn lemma_upsert_all_values<K, V>(
    m: Seq<(K, V)>,
    k: K,
    d: V,
    f: spec_fn(V) -> V,
    p: spec_fn(V) -> bool,
)
    requires
        all_values(m, p),
        !has_key(m, k) ==> p(f(d)),
        has_key(m, k) ==> p(f(m[index_of(m, k)].1)),
    ensures
        all_values(upsert(m, k, d, f), p),
{
    let r = upsert(m, k, d, f);
    assert forall|i: int| 0 <= i < r.len() implies p(#[trigger] r[i].1) by {
        if has_key(m, k) {
            if i != index_of(m, k) {
                assert(r[i] == m[i]);
            }
        } else {
            if i < m.len() {
                assert(r[i] == m[i]);
            }
        }
    }
}

/// Removing an entry keeps `p` for every value.
pub proof fn lemma_remove_all_values<K, V>(m: Seq<(K, V)>, k: K, p: spec_fn(V) -> bool)
    requires
        all_values(m, p),
    ensures
        all_values(remove(m, k), p),
{
    let r = remove(m, k);
    if has_key(m, k) {
        let i = index_of(m, k);
        assert forall|j: int| 0 <= j < r.len() implies p(#[trigger] r[j].1) by {
            let j2 = if j < i { j } else { j + 1 };
            assert(r[j] == m[j2]);
        }
    }
}

/// Removing an entry keeps the keys of the other entries.
pub proof fn lemma_remove_keeps_other_keys<K, V>(m: Seq<(K, V)>, k: K)
    ensures
        forall|k2: K| k2 != k && has_key(m, k2) ==> has_key(remove(m, k), k2),
{
    if has_key(m, k) {
        let i = index_of(m, k);
        assert forall|k2: K| k2 != k && has_key(m, k2) implies has_key(remove(m, k), k2) by {
            let j = choose|j: int| 0 <= j < m.len() && m[j].0 == k2;
            let j2 = if j < i { j } else { j - 1 };
            assert(remove(m, k)[j2] == m[j]);
        }
    }
}

/// The entries of `m` with each value replaced by its view.
pub open spec fn viewed<K, V: View>(m: Seq<(K, V)>) -> Seq<(K, V::V)> {
    Seq::new(m.len(), |i: int| (m[i].0, m[i].1@))
}

/// Taking views keeps the keys, their order and their uniqueness.
pub proof fn lemma_viewed_keys<K, V: View>(m: Seq<(K, V)>)
    ensures
        viewed(m).len() == m.len(),
        forall|i: int| 0 <= i < m.len() ==> #[trigger] viewed(m)[i].0 == m[i].0,
        keys_unique(m) ==> keys_unique(viewed(m)),
        forall|k: K| #[trigger] has_key(viewed(m), k) == has_key(m, k),
{
    assert forall|k: K| #[trigger] has_key(viewed(m), k) == has_key(m, k) by {
        if has_key(m, k) {
            let j = choose|j: int| 0 <= j < m.len() && m[j].0 == k;
            assert(viewed(m)[j].0 == k);
        }
        if has_key(viewed(m), k) {
            let j = choose|j: int| 0 <= j < viewed(m).len() && viewed(m)[j].0 == k;
            assert(m[j].0 == k);
        }
    }
}

/// Taking views commutes with replacing and appending entries.
pub proof fn lemma_viewed_update<K, V: View>(m: Seq<(K, V)>, i: int, k: K, v: V)
    requires
        0 <= i < m.len(),
    ensures
        viewed(m.update(i, (k, v))) == viewed(m).update(i, (k, v@)),
        viewed(m.push((k, v))) == viewed(m).push((k, v@)),
{
    assert(viewed(m.update(i, (k, v))) =~= viewed(m).update(i, (k, v@)));
    assert(viewed(m.push((k, v))) =~= viewed(m).push((k, v@)));
}

/// Taking views commutes with appending entries.
pub proof fn lemma_viewed_push<K, V: View>(m: Seq<(K, V)>, k: K, v: V)
    ensures
        viewed(m.push((k, v))) == viewed(m).push((k, v@)),
{
    assert(viewed(m.push((k, v))) =~= viewed(m).push((k, v@)));
}

/// An association list held in two parallel vectors.
///
/// It stands where a hash map keyed by vertices, edges and pairs of
/// identifiers would: vstd specifies `HashMap` only for keys whose hashing
/// and equality it knows, and these keys are types of this library, for which
/// a lookup's result could not be proved. Keeping insertion order also makes
/// every walk over the entries, and so the numbering of vertices and edges
/// that depends on it, definite where a hash map's order would not be.
pub struct AssocMap<K, V> {
    keys: Vec<K>,
    vals: Vec<V>,
}

impl<K: MapKey, V> AssocMap<K, V> {
    /// The entries, in order.
    pub closed spec fn entries(&self) -> Seq<(K, V)> {
        Seq::new(self.keys@.len(), |i: int| (self.keys@[i], self.vals@[i]))
    }

    /// The map's own invariant: parallel vectors of equal length, unique keys.
    pub closed spec fn wf(&self) -> bool {
        &&& self.keys@.len() == self.vals@.len()
        &&& keys_unique(self.entries())
    }

    /// A well-formed map has unique keys.
    pub proof fn lemma_keys_unique(&self)
        requires
            self.wf(),
        ensures
            keys_unique(self.entries()),
    {
    }

    pub fn new() -> (m: Self)
        ensures
            m.wf(),
            m.entries() == Seq::<(K, V)>::empty(),
    {
        let m = AssocMap { keys: Vec::new(), vals: Vec::new() };
        assert(m.entries() =~= Seq::<(K, V)>::empty());
        m
    }

    pub fn len(&self) -> (n: usize)
        requires
            self.wf(),
        ensures
            n == self.entries().len(),
    {
        self.keys.len()
    }

    /// The position of `k`, if it is a key.
    pub fn find(&self, k: &K) -> (r: Option<usize>)
        requires
            self.wf(),
        ensures
            match r {
                Some(i) => i < self.entries().len() && index_of(self.entries(), *k) == i
                    && has_key(self.entries(), *k),
                None => !has_key(self.entries(), *k) && index_of(self.entries(), *k) == -1,
            },
    {
        let mut i: usize = 0;
        while i < self.keys.len()
            invariant
                self.wf(),
                0 <= i <= self.keys@.len(),
                forall|j: int| 0 <= j < i ==> self.keys@[j] != *k,
            decreases self.keys@.len() - i,
        {
            if self.keys[i].same_key(k) {
                proof {
                    assert(self.entries()[i as int].0 == *k);
                    lemma_index_of_unique(self.entries(), i as int);
                }
                return Some(i);
            }
            i = i + 1;
        }
        proof {
            if has_key(self.entries(), *k) {
                let j = choose|j: int| 0 <= j < self.entries().len() && self.entries()[j].0 == *k;
                assert(self.keys@[j] == *k);
            }
        }
        None
    }

    /// The value for `k`, if it is a key.
    pub fn get(&self, k: &K) -> (r: Option<&V>)
        requires
            self.wf(),
        ensures
            match r {
                Some(v) => lookup(self.entries(), *k) == Some(*v),
                None => lookup(self.entries(), *k) == None::<V>,
            },
    {
        match self.find(k) {
            Some(i) => {
                proof {
                    lemma_index_of_unique(self.entries(), i as int);
                }
                Some(&self.vals[i])
            },
            None => None,
        }
    }

    pub fn key_at(&self, i: usize) -> (k: K)
        requires
            self.wf(),
            i < self.entries().len(),
        ensures
            k == self.entries()[i as int].0,
    {
        self.keys[i]
    }

    pub fn value_at(&self, i: usize) -> (v: &V)
        requires
            self.wf(),
            i < self.entries().len(),
        ensures
            *v == self.entries()[i as int].1,
    {
        &self.vals[i]
    }

    /// Replaces the value at position `i` and hands back the old one.
    pub fn replace_at(&mut self, i: usize, v: V) -> (old_v: V)
        requires
            old(self).wf(),
            i < old(self).entries().len(),
        ensures
            final(self).wf(),
            old_v == old(self).entries()[i as int].1,
            final(self).entries() == old(self).entries().update(
                i as int,
                (old(self).entries()[i as int].0, v),
            ),
    {
        let mut v = v;
        let ghost e0 = self.entries();
        std::mem::swap(&mut self.vals[i], &mut v);
        proof {
            assert(self.entries() =~= e0.update(i as int, (e0[i as int].0, self.vals@[i as int])));
            assert forall|a: int, b: int|
                0 <= a < self.entries().len() && 0 <= b < self.entries().len() && a != b implies self.entries()[a].0
                != self.entries()[b].0 by {
                assert(self.entries()[a].0 == e0[a].0);
                assert(self.entries()[b].0 == e0[b].0);
            }
        }
        v
    }

    /// Appends an entry for a key that is not yet present.
    pub fn push(&mut self, k: K, v: V)
        requires
            old(self).wf(),
            !has_key(old(self).entries(), k),
        ensures
            final(self).wf(),
            final(self).entries() == old(self).entries().push((k, v)),
    {
        let ghost e0 = self.entries();
        self.keys.push(k);
        self.vals.push(v);
        proof {
            assert(self.entries() =~= e0.push((k, v)));
            assert forall|a: int, b: int|
                0 <= a < self.entries().len() && 0 <= b < self.entries().len() && a != b implies self.entries()[a].0
                != self.entries()[b].0 by {
                if a == e0.len() as int {
                    assert(!(e0[b].0 == k));
                } else if b == e0.len() as int {
                    assert(!(e0[a].0 == k));
                }
            }
        }
    }

    /// Maps `k` to `v`: in place where `k` is a key, appended otherwise.
    pub fn insert(&mut self, k: K, v: V)
        requires
            old(self).wf(),
        ensures
            final(self).wf(),
            final(self).entries() == insert(old(self).entries(), k, v),
    {
        match self.find(&k) {
            Some(i) => {
                let ghost e0 = self.entries();
                proof {
                    lemma_index_of_unique(e0, i as int);
                }
                let _ = self.replace_at(i, v);
            },
            None => {
                self.push(k, v);
            },
        }
    }

    /// Removes the entry at position `i`, keeping the order of the others.
    pub fn remove_at(&mut self, i: usize) -> (e: (K, V))
        requires
            old(self).wf(),
            i < old(self).entries().len(),
        ensures
            final(self).wf(),
            e == old(self).entries()[i as int],
            final(self).entries() == old(self).entries().remove(i as int),
    {
        let ghost e0 = self.entries();
        let k = self.keys.remove(i);
        let v = self.vals.remove(i);
        proof {
            assert(self.entries() =~= e0.remove(i as int));
            assert forall|a: int, b: int|
                0 <= a < self.entries().len() && 0 <= b < self.entries().len() && a != b implies self.entries()[a].0
                != self.entries()[b].0 by {
                let a2 = if a < i { a } else { a + 1 };
                let b2 = if b < i { b } else { b + 1 };
                assert(self.entries()[a] == e0[a2]);
                assert(self.entries()[b] == e0[b2]);
            }
        }
        (k, v)
    }

    /// Removes every entry.
    pub fn clear(&mut self)
        ensures
            final(self).wf(),
            final(self).entries() == Seq::<(K, V)>::empty(),
    {
        self.keys.clear();
        self.vals.clear();
        assert(self.entries() =~= Seq::<(K, V)>::empty());
    }
}

} // verus!
