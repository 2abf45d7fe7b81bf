//! A small associative table, kept as a vector of distinct keys.

use vstd::prelude::*;

verus! {

/// A key that a [`Table`] can be searched by.
pub trait Key: Sized {
    /// What two keys have in common when they are the same key.
    type Id;

    spec fn id(&self) -> Self::Id;

    fn same(&self, other: &Self) -> (r: bool)
        ensures
            r == (self.id() == other.id()),
    ;
}

/// A sequence without one of its elements.
pub open spec fn without<A>(s: Seq<A>, a: A) -> Seq<A> {
    s.filter(|x: A| x != a)
}

/// A map from keys to values. The keys keep the order in which they came.
#[derive(Debug)]
pub struct Table<K, V> {
    entries: Vec<(K, V)>,
}

impl<K: Key, V> View for Table<K, V> {
    type V = Map<K::Id, V>;

    /// The table as a map.
    open spec fn view(&self) -> Map<K::Id, V> {
        Map::new(|k: K::Id| self.keys().contains(k), |k: K::Id| self.values()[self.position(k)])
    }
}

impl<K: Key, V> Table<K, V> {
    /// The keys, in the order in which they came.
    pub closed spec fn keys(self) -> Seq<K::Id> {
        Seq::new(self.entries@.len(), |i: int| self.entries@[i].0.id())
    }

    /// The values, each at the position of its key.
    pub closed spec fn values(self) -> Seq<V> {
        Seq::new(self.entries@.len(), |i: int| self.entries@[i].1)
    }

    pub open spec fn position(self, k: K::Id) -> int {
        choose|i: int| 0 <= i < self.keys().len() && self.keys()[i] == k
    }

    /// No key occurs twice.
    pub open spec fn wf(self) -> bool {
        &&& self.keys().len() == self.values().len()
        &&& self.keys().no_duplicates()
    }

    /// The keys can be counted.
    pub proof fn lemma_len(self)
        ensures
            self.keys().len() <= usize::MAX,
    {
        assert(self.entries.len() == self.entries@.len());
    }

    /// The map holds at each key what stands at the key's position.
    pub proof fn lemma_at(self, i: int)
        requires
            self.wf(),
            0 <= i < self.keys().len(),
        ensures
            self@.contains_key(self.keys()[i]),
            self@[self.keys()[i]] == self.values()[i],
    {
        let k = self.keys()[i];
        assert(self.keys()[i] == k);
        assert(self.keys().contains(k));
        let p = self.position(k);
        assert(0 <= p < self.keys().len() && self.keys()[p] == k);
    }

    /// A value put in another's place leaves the keys alone.
    proof fn lemma_replaced(before: Self, after: Self, i: int, v: V)
        requires
            before.wf(),
            0 <= i < before.keys().len(),
            after.entries@ == before.entries@.update(i, (before.entries@[i].0, v)),
        ensures
            after.wf(),
            after.keys() == before.keys(),
            after@ == before@.insert(before.keys()[i], v),
    {
        assert(after.keys() =~= before.keys());
        let k = before.keys()[i];
        assert forall|q: K::Id| #[trigger] after@.contains_key(q) implies after@[q] == before@.insert(k, v)[q] by {
            let j = choose|j: int| 0 <= j < after.keys().len() && after.keys()[j] == q;
            after.lemma_at(j);
            before.lemma_at(j);
        }
        assert(after@ =~= before@.insert(k, v));
    }

    /// An entry taken out leaves the others alone.
    proof fn lemma_removed(before: Self, after: Self, i: int)
        requires
            before.wf(),
            0 <= i < before.keys().len(),
            after.entries@ == before.entries@.remove(i),
        ensures
            after.wf(),
            after@ == before@.remove(before.keys()[i]),
            after.keys() == without(before.keys(), before.keys()[i]),
    {
        let k = before.keys()[i];
        lemma_filter_once(before.keys(), i);
        assert(after.keys() =~= before.keys().remove(i));
        assert forall|q: K::Id| #[trigger] after@.contains_key(q) implies before@.remove(k).contains_key(q)
            && after@[q] == before@[q] by {
            let j = choose|j: int| 0 <= j < after.keys().len() && after.keys()[j] == q;
            after.lemma_at(j);
            before.lemma_at(if j < i { j } else { j + 1 });
        }
        assert forall|q: K::Id| before@.remove(k).contains_key(q) implies #[trigger] after@.contains_key(q) by {
            let j = choose|j: int| 0 <= j < before.keys().len() && before.keys()[j] == q;
            assert(after.keys()[if j < i { j } else { j - 1 }] == q);
        }
        assert(after@ =~= before@.remove(k));
    }

    pub fn new() -> (t: Self)
        ensures
            t.wf(),
            t.keys() == Seq::<K::Id>::empty(),
            t@ == Map::<K::Id, V>::empty(),
    {
        let t = Table { entries: Vec::new() };
        assert(t.keys() =~= Seq::<K::Id>::empty());
        assert(t@ =~= Map::<K::Id, V>::empty());
        t
    }

    pub fn len(&self) -> (n: usize)
        ensures
            n == self.keys().len(),
    {
        self.entries.len()
    }

    pub fn key(&self, i: usize) -> (k: &K)
        requires
            i < self.keys().len(),
        ensures
            k.id() == self.keys()[i as int],
    {
        &self.entries[i].0
    }

    pub fn find(&self, key: &K) -> (r: Option<usize>)
        ensures
            match r {
                Some(i) => i < self.keys().len() && self.keys()[i as int] == key.id(),
                None => !self.keys().contains(key.id()),
            },
    {
        let mut i: usize = 0;
        while i < self.entries.len()
            invariant
                i <= self.entries@.len(),
                forall|j: int| 0 <= j < i ==> self.keys()[j] != key.id(),
            decreases self.entries.len() - i,
        {
            if self.entries[i].0.same(key) {
                return Some(i);
            }
            i = i + 1;
        }
        None
    }

    pub fn contains(&self, key: &K) -> (r: bool)
        ensures
            r == self@.contains_key(key.id()),
    {
        match self.find(key) {
            Some(i) => {
                assert(self.keys()[i as int] == key.id());
                true
            },
            None => false,
        }
    }

    pub fn get(&self, key: &K) -> (r: Option<&V>)
        requires
            self.wf(),
        ensures
            match r {
                Some(v) => self@.contains_key(key.id()) && *v == self@[key.id()],
                None => !self@.contains_key(key.id()),
            },
    {
        match self.find(key) {
            Some(i) => {
                proof {
                    self.lemma_at(i as int);
                }
                Some(&self.entries[i].1)
            },
            None => None,
        }
    }

    /// The value at a position, to be changed in place.
    pub fn value_mut(&mut self, i: usize) -> (r: &mut V)
        requires
            old(self).wf(),
            i < old(self).keys().len(),
        ensures
            *r == old(self)@[old(self).keys()[i as int]],
            final(self).wf(),
            final(self).keys() == old(self).keys(),
            final(self)@ == old(self)@.insert(old(self).keys()[i as int], *final(r)),
    {
        proof {
            self.lemma_at(i as int);
        }
        let r = &mut self.entries[i].1;
        proof {
            Self::lemma_replaced(*old(self), *after_borrow(self), i as int, *final(r));
        }
        r
    }

    /// The value of a key, to be changed in place.
    pub fn get_mut(&mut self, key: &K) -> (r: Option<&mut V>)
        requires
            old(self).wf(),
        ensures
            final(self).wf(),
            final(self).keys() == old(self).keys(),
            match r {
                Some(v) => {
                    &&& old(self)@.contains_key(key.id())
                    &&& *v == old(self)@[key.id()]
                    &&& final(self)@ == old(self)@.insert(key.id(), *final(v))
                },
                None => !old(self)@.contains_key(key.id()) && final(self)@ == old(self)@,
            },
    {
        match self.find(key) {
            Some(i) => {
                proof {
                    self.lemma_at(i as int);
                }
                Some(self.value_mut(i))
            },
            None => None,
        }
    }

    /// Sets the value of a key, and gives back the one that it had.
    pub fn insert(&mut self, key: K, value: V) -> (r: Option<V>)
        requires
            old(self).wf(),
        ensures
            final(self).wf(),
            final(self)@ == old(self)@.insert(key.id(), value),
            final(self).keys() == if old(self)@.contains_key(key.id()) {
                old(self).keys()
            } else {
                old(self).keys().push(key.id())
            },
            r == old(self)@.get(key.id()),
    {
        match self.find(&key) {
            Some(i) => {
                proof {
                    self.lemma_at(i as int);
                }
                let mut v = value;
                std::mem::swap(self.value_mut(i), &mut v);
                Some(v)
            },
            None => {
                let ghost before = *self;
                let ghost k = key.id();
                self.entries.push((key, value));
                proof {
                    assert(self.keys() =~= before.keys().push(k));
                    assert forall|q: K::Id| #[trigger] self@.contains_key(q) implies self@[q]
                        == before@.insert(k, value)[q] by {
                        let j = choose|j: int| 0 <= j < self.keys().len() && self.keys()[j] == q;
                        self.lemma_at(j);
                        if j < before.keys().len() {
                            before.lemma_at(j);
                        }
                    }
                    assert forall|q: K::Id| before@.insert(k, value).contains_key(q) implies #[trigger] self@.contains_key(q) by {
                        if q == k {
                            assert(self.keys()[before.keys().len() as int] == k);
                        } else {
                            let j = choose|j: int| 0 <= j < before.keys().len() && before.keys()[j] == q;
                            assert(self.keys()[j] == q);
                        }
                    }
                    assert(self@ =~= before@.insert(k, value));
                }
                None
            },
        }
    }

    /// Takes a key and its value out.
    pub fn remove(&mut self, key: &K) -> (r: Option<V>)
        requires
            old(self).wf(),
        ensures
            final(self).wf(),
            final(self)@ == old(self)@.remove(key.id()),
            r == old(self)@.get(key.id()),
            final(self).keys() == without(old(self).keys(), key.id()),
    {
        match self.find(key) {
            Some(i) => {
                proof {
                    self.lemma_at(i as int);
                }
                let ghost before = *self;
                let (_, v) = self.entries.remove(i);
                proof {
                    Self::lemma_removed(before, *self, i as int);
                }
                Some(v)
            },
            None => {
                proof {
                    lemma_filter_absent(self.keys(), key.id());
                    assert(self@ =~= old(self)@.remove(key.id()));
                }
                None
            },
        }
    }
}

/// Taking out what does not occur changes nothing.
proof fn lemma_filter_absent<A>(s: Seq<A>, a: A)
    requires
        !s.contains(a),
    ensures
        without(s, a) == s,
    decreases s.len(),
{
    reveal(Seq::filter);
    if s.len() > 0 {
        assert(!s.drop_last().contains(a)) by {
            if s.drop_last().contains(a) {
                let j = choose|j: int| 0 <= j < s.drop_last().len() && s.drop_last()[j] == a;
                assert(s[j] == a);
            }
        }
        lemma_filter_absent(s.drop_last(), a);
        assert(s[s.len() - 1] == s.last());
        assert(s.drop_last().push(s.last()) =~= s);
    }
}

/// Taking out what occurs once is taking it out at its position.
pub proof fn lemma_filter_once<A>(s: Seq<A>, i: int)
    requires
        s.no_duplicates(),
        0 <= i < s.len(),
    ensures
        without(s, s[i]) == s.remove(i),
    decreases s.len(),
{
    reveal(Seq::filter);
    let a = s[i];
    if i == s.len() - 1 {
        assert(!s.drop_last().contains(a)) by {
            if s.drop_last().contains(a) {
                let j = choose|j: int| 0 <= j < s.drop_last().len() && s.drop_last()[j] == a;
                assert(s[j] == s[i]);
            }
        }
        lemma_filter_absent(s.drop_last(), a);
        assert(s.remove(i) =~= s.drop_last());
    } else {
        assert(s.drop_last().no_duplicates());
        lemma_filter_once(s.drop_last(), i);
        assert(s.drop_last()[i] == a);
        assert(s.last() != a);
        assert(s.remove(i) =~= s.drop_last().remove(i).push(s.last()));
    }
}

/// What is left without one element, of a sequence in which nothing occurs twice.
pub proof fn lemma_without<A>(s: Seq<A>, a: A)
    requires
        s.no_duplicates(),
    ensures
        without(s, a).no_duplicates(),
        forall|x: A| #[trigger] without(s, a).contains(x) <==> s.contains(x) && x != a,
{
    if s.contains(a) {
        let at = choose|at: int| 0 <= at < s.len() && s[at] == a;
        lemma_filter_once(s, at);
        let rest = s.remove(at);
        assert forall|x: A| #[trigger] rest.contains(x) implies s.contains(x) && x != a by {
            let i = choose|i: int| 0 <= i < rest.len() && rest[i] == x;
            assert(s[if i < at { i } else { i + 1 }] == x);
        }
        assert forall|x: A| s.contains(x) && x != a implies #[trigger] rest.contains(x) by {
            let i = choose|i: int| 0 <= i < s.len() && s[i] == x;
            assert(rest[if i < at { i } else { i - 1 }] == x);
        }
    } else {
        lemma_filter_absent(s, a);
    }
}

/// What was put in under a key is what is found there, until it is replaced or taken out; the last
/// that was put in counts. Other keys are not concerned, and keep their order.
pub proof fn lemma_put_then_take<K: Key, V>(
    t: &mut Table<K, V>,
    key: K,
    value: V,
    replaced: Option<V>,
    wanted: K,
    found: Option<&V>,
    there: bool,
    u: &mut Table<K, V>,
    taken: Option<V>,
)
    requires
        old(t).wf(),
        call_ensures(Table::<K, V>::insert, (t, key, value), replaced),
        call_ensures(Table::<K, V>::get, (final(t), &wanted), found),
        call_ensures(Table::<K, V>::contains, (final(t), &wanted), there),
        *old(u) == *final(t),
        call_ensures(Table::<K, V>::remove, (u, &wanted), taken),
    ensures
        wanted.id() == key.id() ==> found == Some(&value) && there && taken == Some(value),
        wanted.id() != key.id() ==> there == old(t)@.contains_key(wanted.id()),
        wanted.id() != key.id() && there ==> found == Some(&old(t)@[wanted.id()]) && taken == Some(
            old(t)@[wanted.id()],
        ),
        !there ==> found is None && taken is None,
        replaced is Some <==> old(t)@.contains_key(key.id()),
        replaced is Some ==> replaced == Some(old(t)@[key.id()]) && final(t).keys() == old(
            t,
        ).keys(),
        replaced is None ==> final(t).keys() == old(t).keys().push(key.id()),
        !final(u)@.contains_key(wanted.id()),
        forall|k: K::Id|
            k != wanted.id() ==> (#[trigger] final(u)@.contains_key(k)) == (k == key.id() || old(
                t,
            )@.contains_key(k)),
{
}

} // verus!
