//! Small association lists keyed by values whose equality is decided by
//! their views. They stand where the services keep hash maps and hash sets:
//! the entries keep the order in which their keys were first inserted, and
//! no key occurs twice.

use vstd::prelude::*;

verus! {

/// Keys whose executable equality agrees with equality of their views.
pub trait KeyEq: View + Sized {
    fn key_eq(&self, other: &Self) -> (b: bool)
        ensures
            b == (self@ == other@),
    ;
}

impl KeyEq for i32 {
    fn key_eq(&self, other: &Self) -> (b: bool) {
        *self == *other
    }
}

impl KeyEq for String {
    fn key_eq(&self, other: &Self) -> (b: bool) {
        *self == *other
    }
}

/// Values that can be duplicated into a value with the same view.
pub trait ViewClone: View + Sized {
    fn view_clone(&self) -> (r: Self)
        ensures
            r@ == self@,
    ;
}

impl ViewClone for i32 {
    fn view_clone(&self) -> (r: Self) {
        *self
    }
}

impl ViewClone for () {
    fn view_clone(&self) -> (r: Self) {
        ()
    }
}

impl ViewClone for String {
    fn view_clone(&self) -> (r: Self) {
        self.clone()
    }
}

/// The keys of a sequence of entries, by view.
pub open spec fn keys_of<A, B>(s: Seq<(A, B)>) -> Seq<A> {
    s.map_values(|e: (A, B)| e.0)
}

/// No key occurs twice.
pub open spec fn distinct_keys<A, B>(s: Seq<(A, B)>) -> bool {
    forall|i: int, j: int| 0 <= i < s.len() && 0 <= j < s.len() && i != j ==> s[i].0 != s[j].0
}

/// Some entry carries the key `k`.
pub open spec fn has_key<A, B>(s: Seq<(A, B)>, k: A) -> bool {
    exists|i: int| 0 <= i < s.len() && #[trigger] s[i].0 == k
}

/// The position of an entry that carries the key `k` (meaningful when `has_key`).
pub open spec fn key_index<A, B>(s: Seq<(A, B)>, k: A) -> int {
    choose|i: int| 0 <= i < s.len() && #[trigger] s[i].0 == k
}

/// The value stored under the key `k`, if any.
pub open spec fn lookup<A, B>(s: Seq<(A, B)>, k: A) -> Option<B> {
    if has_key(s, k) {
        Some(s[key_index(s, k)].1)
    } else {
        None
    }
}

/// With distinct keys, the entry that carries a key is the one `key_index` names.
pub proof fn lemma_key_index_unique<A, B>(s: Seq<(A, B)>, i: int)
    requires
        distinct_keys(s),
        0 <= i < s.len(),
    ensures
        has_key(s, s[i].0),
        key_index(s, s[i].0) == i,
        lookup(s, s[i].0) == Some(s[i].1),
{
    assert(s[i].0 == s[i].0);
}

/// Lookups in a sequence with one more entry at its end.
pub proof fn lemma_lookup_push<A, B>(s: Seq<(A, B)>, k: A, v: B, q: A)
    requires
        distinct_keys(s),
        !has_key(s, k),
    ensures
        distinct_keys(s.push((k, v))),
        lookup(s.push((k, v)), q) == if q == k {
            Some(v)
        } else {
            lookup(s, q)
        },
{
    let t = s.push((k, v));
    assert forall|i: int, j: int| 0 <= i < t.len() && 0 <= j < t.len() && i != j implies t[i].0
        != t[j].0 by {
        if i < s.len() && j < s.len() {
            assert(t[i] == s[i] && t[j] == s[j]);
        } else if i < s.len() {
            assert(t[i] == s[i]);
        } else {
            assert(t[j] == s[j]);
        }
    }
    if q == k {
        lemma_key_index_unique(t, s.len() as int);
    } else if has_key(s, q) {
        let i = key_index(s, q);
        assert(t[i] == s[i]);
        lemma_key_index_unique(s, i);
        lemma_key_index_unique(t, i);
    } else {
        if has_key(t, q) {
            let i = key_index(t, q);
            if i < s.len() {
                assert(t[i] == s[i]);
            }
        }
    }
}

/// Lookups in a sequence where the value of one entry was replaced.
pub proof fn lemma_lookup_update<A, B>(s: Seq<(A, B)>, i: int, k: A, v: B, q: A)
    requires
        distinct_keys(s),
        0 <= i < s.len(),
        s[i].0 == k,
    ensures
        distinct_keys(s.update(i, (k, v))),
        lookup(s.update(i, (k, v)), q) == if q == k {
            Some(v)
        } else {
            lookup(s, q)
        },
{
    let t = s.update(i, (k, v));
    assert forall|a: int, b: int| 0 <= a < t.len() && 0 <= b < t.len() && a != b implies t[a].0
        != t[b].0 by {
        if a != i && b != i {
            assert(t[a] == s[a] && t[b] == s[b]);
        } else if a != i {
            assert(t[a] == s[a]);
        } else {
            assert(t[b] == s[b]);
        }
    }
    lemma_key_index_unique(t, i);
    if q != k {
        if has_key(s, q) {
            let j = key_index(s, q);
            assert(j != i);
            assert(t[j] == s[j]);
            lemma_key_index_unique(s, j);
            lemma_key_index_unique(t, j);
        } else if has_key(t, q) {
            let j = key_index(t, q);
            assert(j != i);
            assert(t[j] == s[j]);
        }
    }
}

/// Lookups in a sequence from which one entry was removed.
pub proof fn lemma_lookup_remove<A, B>(s: Seq<(A, B)>, i: int, q: A)
    requires
        distinct_keys(s),
        0 <= i < s.len(),
    ensures
        distinct_keys(s.remove(i)),
        lookup(s.remove(i), q) == if q == s[i].0 {
            None
        } else {
            lookup(s, q)
        },
{
    let t = s.remove(i);
    assert forall|a: int, b: int| 0 <= a < t.len() && 0 <= b < t.len() && a != b implies t[a].0
        != t[b].0 by {
        let a2 = if a < i { a } else { a + 1 };
        let b2 = if b < i { b } else { b + 1 };
        assert(t[a] == s[a2] && t[b] == s[b2]);
    }
    if has_key(t, q) {
        let j = key_index(t, q);
        let j2 = if j < i { j } else { j + 1 };
        assert(t[j] == s[j2]);
        lemma_key_index_unique(s, j2);
        lemma_key_index_unique(t, j);
    }
    if has_key(s, q) && q != s[i].0 {
        let j = key_index(s, q);
        assert(j != i);
        let j1 = if j < i { j } else { j - 1 };
        assert(t[j1] == s[j]);
    }
}

/// The views of a sequence of entries.
pub open spec fn entry_views<K: View, V: View>(s: Seq<(K, V)>) -> Seq<(K::V, V::V)> {
    s.map_values(|e: (K, V)| (e.0@, e.1@))
}

/// The views of the entries after one value was replaced.
pub proof fn lemma_view_entries_update<K: View, V: View>(s: Seq<(K, V)>, i: int)
    requires
        0 <= i < s.len(),
    ensures
        forall|v: V| #[trigger]
            entry_views(s.update(i, (s[i].0, v))) == entry_views(s).update(i, (s[i].0@, v@)),
{
    assert forall|v: V| #[trigger]
        entry_views(s.update(i, (s[i].0, v))) == entry_views(s).update(i, (s[i].0@, v@)) by {
        assert(entry_views(s.update(i, (s[i].0, v))) =~= entry_views(s).update(i, (s[i].0@, v@)));
    }
}

/// The entries after storing `v` under `k`: the value of an existing entry
/// is replaced in place, otherwise a new entry is appended.
pub open spec fn list_insert<A, B>(s: Seq<(A, B)>, k: A, v: B) -> Seq<(A, B)> {
    if has_key(s, k) {
        s.update(key_index(s, k), (k, v))
    } else {
        s.push((k, v))
    }
}

/// The entries after removing the one for `k`, if there is one.
pub open spec fn list_remove<A, B>(s: Seq<(A, B)>, k: A) -> Seq<(A, B)> {
    if has_key(s, k) {
        s.remove(key_index(s, k))
    } else {
        s
    }
}

/// Replacing the value of an entry keeps the keys, and so their
/// distinctness and the position of each key.
pub proof fn lemma_update_value_keeps_keys<A, B>(s: Seq<(A, B)>, i: int, v: B)
    requires
        0 <= i < s.len(),
    ensures
        distinct_keys(s) ==> distinct_keys(s.update(i, (s[i].0, v))),
        forall|q: A| #[trigger] has_key(s.update(i, (s[i].0, v)), q) == has_key(s, q),
        distinct_keys(s) ==> forall|q: A|
            has_key(s, q) ==> #[trigger] key_index(s.update(i, (s[i].0, v)), q) == key_index(s, q),
{
    let t = s.update(i, (s[i].0, v));
    assert forall|j: int| 0 <= j < s.len() implies #[trigger] t[j].0 == s[j].0 by {}
    assert forall|q: A| #[trigger] has_key(t, q) == has_key(s, q) by {
        if has_key(s, q) {
            let j = key_index(s, q);
            assert(t[j].0 == q);
        }
        if has_key(t, q) {
            let j = key_index(t, q);
            assert(s[j].0 == q);
        }
    }
    if distinct_keys(s) {
        assert forall|a: int, b: int|
            0 <= a < t.len() && 0 <= b < t.len() && a != b implies t[a].0 != t[b].0 by {
            assert(t[a].0 == s[a].0 && t[b].0 == s[b].0);
        }
        assert forall|q: A| has_key(s, q) implies #[trigger] key_index(t, q) == key_index(s, q) by {
            let j = key_index(s, q);
            assert(t[j].0 == q);
            lemma_key_index_unique(t, j);
        }
    }
}

/// Looking up after storing `v` under `k` finds `v` for `k` and what was
/// there before for every other key.
pub proof fn lemma_lookup_insert<A, B>(s: Seq<(A, B)>, k: A, v: B, q: A)
    requires
        distinct_keys(s),
    ensures
        distinct_keys(list_insert(s, k, v)),
        lookup(list_insert(s, k, v), q) == if q == k {
            Some(v)
        } else {
            lookup(s, q)
        },
{
    if has_key(s, k) {
        let i = key_index(s, k);
        lemma_lookup_update(s, i, k, v, q);
    } else {
        lemma_lookup_push(s, k, v, q);
    }
}

/// Looking up after removing `k` finds nothing for `k` and what was there
/// before for every other key.
pub proof fn lemma_lookup_list_remove<A, B>(s: Seq<(A, B)>, k: A, q: A)
    requires
        distinct_keys(s),
    ensures
        distinct_keys(list_remove(s, k)),
        lookup(list_remove(s, k), q) == if q == k {
            None
        } else {
            lookup(s, q)
        },
{
    if has_key(s, k) {
        let i = key_index(s, k);
        lemma_lookup_remove(s, i, q);
    } else {
        if q == k {
            assert(!has_key(s, q));
        }
    }
}

/// An association list with distinct keys, in insertion order.
pub struct ListMap<K, V> {
    entries: Vec<(K, V)>,
}

impl<K: View, V: View> View for ListMap<K, V> {
    type V = Seq<(K::V, V::V)>;

    closed spec fn view(&self) -> Seq<(K::V, V::V)> {
        entry_views(self.entries@)
    }
}

impl<K: KeyEq, V: View> ListMap<K, V> {
    /// Well-formed: no key occurs twice.
    pub open spec fn wf(&self) -> bool {
        distinct_keys(self@)
    }

    /// The value stored under `k`, by view.
    pub open spec fn get_spec(&self, k: K::V) -> Option<V::V> {
        lookup(self@, k)
    }

    pub fn new() -> (m: Self)
        ensures
            m@ == Seq::<(K::V, V::V)>::empty(),
            m.wf(),
    {
        let m = ListMap { entries: Vec::new() };
        assert(m@ =~= Seq::<(K::V, V::V)>::empty());
        m
    }

    pub fn len(&self) -> (n: usize)
        ensures
            n == self@.len(),
    {
        self.entries.len()
    }

    /// The key of the entry at position `i`.
    pub fn key_at(&self, i: usize) -> (k: &K)
        requires
            i < self@.len(),
        ensures
            k@ == self@[i as int].0,
    {
        &self.entries[i].0
    }

    /// The value of the entry at position `i`.
    pub fn value_at(&self, i: usize) -> (v: &V)
        requires
            i < self@.len(),
        ensures
            v@ == self@[i as int].1,
    {
        &self.entries[i].1
    }

    /// The position of the entry for `k`, if there is one.
    pub fn find(&self, k: &K) -> (r: Option<usize>)
        requires
            self.wf(),
        ensures
            match r {
                Some(i) => i < self@.len() && self@[i as int].0 == k@ && key_index(self@, k@)
                    == i && has_key(self@, k@),
                None => !has_key(self@, k@),
            },
    {
        let n = self.entries.len();
        let mut i: usize = 0;
        while i < n
            invariant
                n == self@.len(),
                i <= n,
                self.wf(),
                forall|j: int| 0 <= j < i ==> #[trigger] self@[j].0 != k@,
            decreases n - i,
        {
            assert(self@[i as int].0 == self.entries@[i as int].0@);
            if self.entries[i].0.key_eq(k) {
                proof {
                    lemma_key_index_unique(self@, i as int);
                }
                return Some(i);
            }
            i = i + 1;
        }
        None
    }

    /// Whether some entry carries `k`.
    pub fn contains_key(&self, k: &K) -> (b: bool)
        requires
            self.wf(),
        ensures
            b == has_key(self@, k@),
    {
        self.find(k).is_some()
    }

    /// The value stored under `k`, if any.
    pub fn get(&self, k: &K) -> (r: Option<&V>)
        requires
            self.wf(),
        ensures
            match r {
                Some(v) => self.get_spec(k@) == Some(v@),
                None => self.get_spec(k@) is None,
            },
    {
        match self.find(k) {
            Some(i) => {
                proof {
                    lemma_key_index_unique(self@, i as int);
                }
                Some(&self.entries[i].1)
            },
            None => None,
        }
    }

    /// Stores `v` under `k`: replaces the value of an existing entry in
    /// place, or appends a new entry.
    pub fn insert(&mut self, k: K, v: V)
        requires
            old(self).wf(),
        ensures
            final(self).wf(),
            has_key(old(self)@, k@) ==> final(self)@ == old(self)@.update(
                key_index(old(self)@, k@),
                (k@, v@),
            ),
            !has_key(old(self)@, k@) ==> final(self)@ == old(self)@.push((k@, v@)),
            final(self)@ == list_insert(old(self)@, k@, v@),
            forall|q: K::V| #[trigger]
                final(self).get_spec(q) == if q == k@ {
                    Some(v@)
                } else {
                    old(self).get_spec(q)
                },
    {
        let ghost kv = k@;
        let ghost vv = v@;
        match self.find(&k) {
            Some(i) => {
                proof {
                    assert forall|q: K::V| #[trigger]
                        lookup(self@.update(i as int, (kv, vv)), q) == if q == kv {
                            Some(vv)
                        } else {
                            lookup(self@, q)
                        } by {
                        lemma_lookup_update(self@, i as int, kv, vv, q);
                    }
                    lemma_lookup_update(self@, i as int, kv, vv, kv);
                }
                let ghost before = self@;
                self.entries.set(i, (k, v));
                assert(self@ =~= before.update(i as int, (kv, vv)));
            },
            None => {
                proof {
                    assert forall|q: K::V| #[trigger]
                        lookup(self@.push((kv, vv)), q) == if q == kv {
                            Some(vv)
                        } else {
                            lookup(self@, q)
                        } by {
                        lemma_lookup_push(self@, kv, vv, q);
                    }
                    lemma_lookup_push(self@, kv, vv, kv);
                }
                let ghost before = self@;
                self.entries.push((k, v));
                assert(self@ =~= before.push((kv, vv)));
            },
        }
    }

    /// Removes the entry for `k`, if there is one, and returns its value.
    pub fn remove(&mut self, k: &K) -> (r: Option<V>)
        requires
            old(self).wf(),
        ensures
            final(self).wf(),
            match r {
                Some(v) => old(self).get_spec(k@) == Some(v@),
                None => old(self).get_spec(k@) is None,
            },
            has_key(old(self)@, k@) ==> final(self)@ == old(self)@.remove(
                key_index(old(self)@, k@),
            ),
            !has_key(old(self)@, k@) ==> final(self)@ == old(self)@,
            final(self)@ == list_remove(old(self)@, k@),
            forall|q: K::V| #[trigger]
                final(self).get_spec(q) == if q == k@ {
                    None
                } else {
                    old(self).get_spec(q)
                },
    {
        match self.find(k) {
            Some(i) => {
                proof {
                    lemma_key_index_unique(self@, i as int);
                    assert forall|q: K::V| #[trigger]
                        lookup(self@.remove(i as int), q) == if q == k@ {
                            None
                        } else {
                            lookup(self@, q)
                        } by {
                        lemma_lookup_remove(self@, i as int, q);
                    }
                    lemma_lookup_remove(self@, i as int, k@);
                }
                let ghost before = self@;
                let (_, v) = self.entries.remove(i);
                assert(self@ =~= before.remove(i as int));
                Some(v)
            },
            None => None,
        }
    }

    /// Removes every entry.
    pub fn clear(&mut self)
        ensures
            final(self)@ == Seq::<(K::V, V::V)>::empty(),
            final(self).wf(),
    {
        self.entries.clear();
        assert(self@ =~= Seq::<(K::V, V::V)>::empty());
    }

    /// A mutable reference to the value of the entry at position `i`.
    pub fn value_at_mut(&mut self, i: usize) -> (r: &mut V)
        requires
            i < old(self)@.len(),
        ensures
            r@ == old(self)@[i as int].1,
            final(self)@ == old(self)@.update(i as int, (old(self)@[i as int].0, final(r)@)),
    {
        proof {
            lemma_view_entries_update(self.entries@, i as int);
        }
        let r = &mut self.entries[i].1;
        r
    }
}

impl<K: KeyEq + ViewClone, V: ViewClone> ViewClone for ListMap<K, V> {
    fn view_clone(&self) -> (r: Self) {
        let mut entries: Vec<(K, V)> = Vec::new();
        let n = self.entries.len();
        let mut i: usize = 0;
        while i < n
            invariant
                n == self@.len(),
                i <= n,
                entry_views(entries@) == self@.subrange(0, i as int),
            decreases n - i,
        {
            let k = self.entries[i].0.view_clone();
            let v = self.entries[i].1.view_clone();
            assert(k@ == self@[i as int].0 && v@ == self@[i as int].1);
            let ghost prev = entries@;
            let ghost kv = (k@, v@);
            entries.push((k, v));
            i = i + 1;
            assert(entry_views(entries@) =~= entry_views(prev).push(kv));
            assert(entry_views(entries@) =~= self@.subrange(0, i as int));
        }
        let r = ListMap { entries };
        assert(r@ =~= self@);
        r
    }
}

} // verus!
