//! An insertion-ordered map from names to texts, and a set of names.

use vstd::prelude::*;
use crate::text::{text_eq, views};

verus! {

/// The index of the first pair of `p` at or after `from` whose name is `k`, or
/// `p.len()` when there is none.
pub open spec fn pairs_index_from(p: Seq<(Seq<char>, Seq<char>)>, k: Seq<char>, from: int) -> int
    decreases p.len() - from,
{
    if from < 0 || from >= p.len() {
        p.len() as int
    } else if p[from].0 == k {
        from
    } else {
        pairs_index_from(p, k, from + 1)
    }
}

/// The index of the first pair of `p` whose name is `k`, or `p.len()`.
pub open spec fn pairs_index(p: Seq<(Seq<char>, Seq<char>)>, k: Seq<char>) -> int {
    pairs_index_from(p, k, 0)
}

/// The text bound to `k` in `p`, if any.
pub open spec fn pairs_get(p: Seq<(Seq<char>, Seq<char>)>, k: Seq<char>) -> Option<Seq<char>> {
    let i = pairs_index(p, k);
    if 0 <= i < p.len() {
        Some(p[i].1)
    } else {
        None
    }
}

/// `p` with `k` bound to `v`: the binding of `k` is replaced where it stands,
/// or added at the end.
pub open spec fn pairs_insert(p: Seq<(Seq<char>, Seq<char>)>, k: Seq<char>, v: Seq<char>) -> Seq<
    (Seq<char>, Seq<char>),
> {
    let i = pairs_index(p, k);
    if 0 <= i < p.len() {
        p.update(i, (k, v))
    } else {
        p.push((k, v))
    }
}

/// The bindings of `p` as a map.
pub open spec fn pairs_map(p: Seq<(Seq<char>, Seq<char>)>) -> Map<Seq<char>, Seq<char>> {
    Map::new(|k: Seq<char>| pairs_get(p, k).is_some(), |k: Seq<char>| pairs_get(p, k).unwrap())
}

/// No name occurs twice in `p`.
pub open spec fn pairs_distinct(p: Seq<(Seq<char>, Seq<char>)>) -> bool {
    forall|i: int, j: int| 0 <= i < j < p.len() ==> (#[trigger] p[i]).0 != (#[trigger] p[j]).0
}

/// The search for a name ends at the first pair of that name, or at the end.
pub proof fn lemma_pairs_index(p: Seq<(Seq<char>, Seq<char>)>, k: Seq<char>, from: int)
    requires
        0 <= from <= p.len(),
    ensures
        from <= pairs_index_from(p, k, from) <= p.len(),
        pairs_index_from(p, k, from) < p.len() ==> p[pairs_index_from(p, k, from)].0 == k,
        forall|j: int| from <= j < pairs_index_from(p, k, from) ==> (#[trigger] p[j]).0 != k,
    decreases p.len() - from,
{
    if from < p.len() && p[from].0 != k {
        lemma_pairs_index(p, k, from + 1);
    }
}

/// Where a name stands in a sequence without repeated names, the search for
/// it ends.
pub proof fn lemma_pairs_index_is(p: Seq<(Seq<char>, Seq<char>)>, k: Seq<char>, i: int)
    requires
        0 <= i < p.len(),
        p[i].0 == k,
        forall|j: int| 0 <= j < i ==> (#[trigger] p[j]).0 != k,
    ensures
        pairs_index(p, k) == i,
{
    lemma_pairs_index(p, k, 0);
}

/// Binding a name keeps the names distinct.
pub proof fn lemma_insert_distinct(p: Seq<(Seq<char>, Seq<char>)>, k: Seq<char>, v: Seq<char>)
    requires
        pairs_distinct(p),
    ensures
        pairs_distinct(pairs_insert(p, k, v)),
{
    lemma_pairs_index(p, k, 0);
    let q = pairs_insert(p, k, v);
    let i = pairs_index(p, k);
    assert forall|a: int, b: int| 0 <= a < b < q.len() implies (#[trigger] q[a]).0 != (
    #[trigger] q[b]).0 by {
        if i < p.len() {
            assert(q[a].0 == p[a].0);
            assert(q[b].0 == p[b].0);
        } else {
            if b < p.len() {
                assert(q[a] == p[a]);
                assert(q[b] == p[b]);
            } else {
                assert(q[a] == p[a]);
            }
        }
    }
}

/// After `k` is bound to `v`, `k` reads as `v` and every other name reads as
/// before.
pub proof fn lemma_insert_get(
    p: Seq<(Seq<char>, Seq<char>)>,
    k: Seq<char>,
    v: Seq<char>,
    other: Seq<char>,
)
    ensures
        pairs_get(pairs_insert(p, k, v), other) == (if other == k {
            Some(v)
        } else {
            pairs_get(p, other)
        }),
{
    let q = pairs_insert(p, k, v);
    let i = pairs_index(p, k);
    lemma_pairs_index(p, k, 0);
    lemma_pairs_index(p, other, 0);
    lemma_pairs_index(q, other, 0);
    let io = pairs_index(p, other);
    let jo = pairs_index(q, other);
    if other == k {
        if i < p.len() {
            assert(q[i].0 == k);
            assert forall|j: int| 0 <= j < i implies (#[trigger] q[j]).0 != k by {
                assert(q[j] == p[j]);
            }
            lemma_pairs_index_is(q, k, i);
        } else {
            assert(q[p.len() as int].0 == k);
            assert forall|j: int| 0 <= j < p.len() implies (#[trigger] q[j]).0 != k by {
                assert(q[j] == p[j]);
            }
            lemma_pairs_index_is(q, k, p.len() as int);
        }
    } else {
        if io < p.len() {
            assert(q[io].0 == other) by {
                if i < p.len() && io == i {
                } else {
                    assert(q[io] == p[io]);
                }
            }
            assert forall|j: int| 0 <= j < io implies (#[trigger] q[j]).0 != other by {
                if i < p.len() && j == i {
                } else {
                    assert(q[j] == p[j]);
                }
            }
            lemma_pairs_index_is(q, other, io);
            assert(q[io].1 == p[io].1);
        } else {
            if jo < q.len() {
                if jo < p.len() {
                    if i < p.len() && jo == i {
                    } else {
                        assert(q[jo] == p[jo]);
                    }
                }
            }
        }
    }
}

/// A map from names to texts that keeps its bindings in the order in which
/// the names were first bound. No name occurs twice.
#[derive(Debug)]
pub struct StringMap {
    entries: Vec<(String, String)>,
}

impl StringMap {
    /// The bindings, in order, as pairs of name and text.
    pub closed spec fn pairs(&self) -> Seq<(Seq<char>, Seq<char>)> {
        Seq::new(self.entries@.len(), |i: int| (self.entries@[i].0@, self.entries@[i].1@))
    }

    #[verifier::type_invariant]
    spec fn distinct_names(&self) -> bool {
        pairs_distinct(self.pairs())
    }

    /// The text bound to `k`, if any.
    pub open spec fn spec_get(&self, k: Seq<char>) -> Option<Seq<char>> {
        pairs_get(self.pairs(), k)
    }

    /// A map without bindings.
    pub fn new() -> (m: Self)
        ensures
            m.pairs() == Seq::<(Seq<char>, Seq<char>)>::empty(),
    {
        let m = StringMap { entries: Vec::new() };
        proof {
            assert(m.pairs() =~= Seq::empty());
        }
        m
    }

    /// The number of bindings.
    pub fn len(&self) -> (n: usize)
        ensures
            n == self.pairs().len(),
            pairs_distinct(self.pairs()),
    {
        proof {
            use_type_invariant(self);
        }
        self.entries.len()
    }

    /// Whether the map holds no binding.
    pub fn is_empty(&self) -> (b: bool)
        ensures
            b == (self.pairs().len() == 0),
    {
        self.entries.len() == 0
    }

    /// The position of `key`, or `len()` when it is not bound.
    pub fn position(&self, key: &str) -> (i: usize)
        ensures
            i == pairs_index(self.pairs(), key@),
            i <= self.pairs().len(),
    {
        let mut i: usize = 0;
        while i < self.entries.len()
            invariant
                i <= self.entries.len(),
                pairs_index(self.pairs(), key@) == pairs_index_from(self.pairs(), key@, i as int),
            decreases self.entries.len() - i,
        {
            if text_eq(self.entries[i].0.as_str(), key) {
                return i;
            }
            i += 1;
        }
        i
    }

    /// The text bound to `key`, if any.
    pub fn get(&self, key: &str) -> (r: Option<&String>)
        ensures
            match r {
                Some(v) => self.spec_get(key@) == Some(v@),
                None => self.spec_get(key@) is None,
            },
    {
        let i = self.position(key);
        if i < self.entries.len() {
            Some(&self.entries[i].1)
        } else {
            None
        }
    }

    /// Whether `key` is bound.
    pub fn contains_key(&self, key: &str) -> (b: bool)
        ensures
            b == self.spec_get(key@).is_some(),
    {
        let i = self.position(key);
        i < self.entries.len()
    }

    /// The name of the binding at position `i`.
    pub fn key_at(&self, i: usize) -> (k: &String)
        requires
            i < self.pairs().len(),
        ensures
            k@ == self.pairs()[i as int].0,
    {
        &self.entries[i].0
    }

    /// The text of the binding at position `i`.
    pub fn value_at(&self, i: usize) -> (v: &String)
        requires
            i < self.pairs().len(),
        ensures
            v@ == self.pairs()[i as int].1,
    {
        &self.entries[i].1
    }

    /// Binds `key` to `value`; returns whether `key` was bound before.
    pub fn insert(&mut self, key: String, value: String) -> (was_bound: bool)
        ensures
            final(self).pairs() == pairs_insert(old(self).pairs(), key@, value@),
            was_bound == old(self).spec_get(key@).is_some(),
    {
        proof {
            use_type_invariant(&*self);
            lemma_insert_distinct(self.pairs(), key@, value@);
        }
        let i = self.position(key.as_str());
        let mut taken = StringMap { entries: Vec::new() };
        proof {
            assert(taken.pairs() =~= Seq::empty());
        }
        std::mem::swap(self, &mut taken);
        let mut entries = taken.entries;
        let was_bound = i < entries.len();
        if was_bound {
            entries.set(i, (key, value));
        } else {
            entries.push((key, value));
        }
        let ghost target = pairs_insert(old(self).pairs(), key@, value@);
        proof {
            assert(Seq::new(entries@.len(), |j: int| (entries@[j].0@, entries@[j].1@)) =~= target);
        }
        *self = StringMap { entries };
        was_bound
    }
}

impl Clone for StringMap {
    fn clone(&self) -> (m: Self)
        ensures
            m.pairs() == self.pairs(),
    {
        let mut entries: Vec<(String, String)> = Vec::new();
        let mut i: usize = 0;
        while i < self.entries.len()
            invariant
                i <= self.entries.len(),
                entries@.len() == i,
                forall|j: int|
                    0 <= j < i ==> entries@[j].0@ == self.entries@[j].0@ && entries@[j].1@
                        == self.entries@[j].1@,
            decreases self.entries.len() - i,
        {
            entries.push((self.entries[i].0.clone(), self.entries[i].1.clone()));
            i += 1;
        }
        proof {
            use_type_invariant(self);
            assert(Seq::new(entries@.len(), |j: int| (entries@[j].0@, entries@[j].1@))
                =~= self.pairs());
        }
        StringMap { entries }
    }
}

impl View for StringMap {
    type V = Map<Seq<char>, Seq<char>>;

    /// The bindings as a map.
    open spec fn view(&self) -> Map<Seq<char>, Seq<char>> {
        pairs_map(self.pairs())
    }
}

/// A set of names.
#[derive(Debug, Clone)]
pub struct NameSet {
    names: Vec<String>,
}

impl NameSet {
    /// The names, in the order in which they were added.
    pub closed spec fn names(&self) -> Seq<Seq<char>> {
        views(self.names@)
    }

    /// A set without names.
    pub fn new() -> (s: Self)
        ensures
            s.names() == Seq::<Seq<char>>::empty(),
    {
        let s = NameSet { names: Vec::new() };
        proof {
            assert(s.names() =~= Seq::empty());
        }
        s
    }

    /// Whether the set holds no name.
    pub fn is_empty(&self) -> (b: bool)
        ensures
            b == (self.names().len() == 0),
    {
        self.names.len() == 0
    }

    /// Whether `name` is in the set.
    pub fn contains(&self, name: &str) -> (b: bool)
        ensures
            b == self@.contains(name@),
    {
        let mut i: usize = 0;
        while i < self.names.len()
            invariant
                i <= self.names.len(),
                forall|k: int| 0 <= k < i ==> self.names()[k] != name@,
            decreases self.names.len() - i,
        {
            if text_eq(self.names[i].as_str(), name) {
                proof {
                    assert(self.names()[i as int] == name@);
                }
                return true;
            }
            i += 1;
        }
        false
    }

    /// Adds `name`; returns whether it was not in the set before.
    pub fn insert(&mut self, name: String) -> (added: bool)
        ensures
            final(self)@ == old(self)@.insert(name@),
            added == !old(self)@.contains(name@),
    {
        if self.contains(name.as_str()) {
            proof {
                assert(self@ =~= old(self)@.insert(name@));
            }
            false
        } else {
            let ghost before = self.names();
            self.names.push(name);
            proof {
                assert(self.names() =~= before.push(name@));
                let after = self.names();
                assert forall|k: Seq<char>| self@.contains(k) == old(self)@.insert(name@).contains(
                    k,
                ) by {
                    assert(old(self)@.contains(k) == before.contains(k));
                    assert(self@.contains(k) == after.contains(k));
                    if before.contains(k) {
                        let i = choose|i: int| 0 <= i < before.len() && before[i] == k;
                        assert(after[i] == k);
                        assert(after.contains(k));
                    }
                    if k == name@ {
                        assert(after[before.len() as int] == k);
                        assert(after.contains(k));
                    }
                    if after.contains(k) {
                        let i = choose|i: int| 0 <= i < after.len() && after[i] == k;
                        if i < before.len() {
                            assert(before[i] == k);
                            assert(before.contains(k));
                        } else {
                            assert(k == name@);
                        }
                    }
                }
                assert(self@ =~= old(self)@.insert(name@));
            }
            true
        }
    }
}

impl View for NameSet {
    type V = Set<Seq<char>>;

    open spec fn view(&self) -> Set<Seq<char>> {
        Set::new(|k: Seq<char>| self.names().contains(k))
    }
}

} // verus!
