//! A map with text keys that keeps its entries in the order in which their keys first came.

use crate::text;
use vstd::prelude::*;

verus! {

/// A map with text keys.
#[derive(Debug, PartialEq)]
pub struct StrMap<V> {
    entries: Vec<(String, V)>,
}

impl<V> View for StrMap<V> {
    type V = Map<Seq<char>, V>;

    closed spec fn view(&self) -> Map<Seq<char>, V> {
        Map::new(
            |k: Seq<char>| self.keys().contains(k),
            |k: Seq<char>| self.entries@[self.keys().index_of(k)].1,
        )
    }
}

impl<V> StrMap<V> {
    /// The keys, in the order of the entries.
    pub closed spec fn keys(&self) -> Seq<Seq<char>> {
        Seq::new(self.entries@.len(), |i: int| self.entries@[i].0@)
    }

    /// No key stands twice.
    #[verifier::type_invariant]
    pub open spec fn wf(&self) -> bool {
        self.keys().no_duplicates()
    }

    /// A key is in the map where it is among the keys.
    pub proof fn lemma_keys(&self)
        ensures
            forall|k: Seq<char>| #[trigger] self@.dom().contains(k) <==> self.keys().contains(k),
            forall|i: int|
                0 <= i < self.keys().len() ==> self@.dom().contains(#[trigger] self.keys()[i]),
    {
        assert forall|i: int| 0 <= i < self.keys().len() implies self@.dom().contains(
            #[trigger] self.keys()[i],
        ) by {
            assert(self.keys().contains(self.keys()[i]));
        }
    }

    proof fn lemma_at(&self, i: int)
        requires
            self.wf(),
            0 <= i < self.entries@.len(),
        ensures
            self@.dom().contains(self.entries@[i].0@),
            self@[self.entries@[i].0@] == self.entries@[i].1,
    {
        let k = self.entries@[i].0@;
        assert(self.keys()[i] == k);
        assert(self.keys().contains(k));
        let j = self.keys().index_of(k);
        assert(0 <= j < self.keys().len() && self.keys()[j] == k);
        assert(i == j);
    }

    /// A map without entries.
    pub fn new() -> (r: StrMap<V>)
        ensures
            r@ == Map::<Seq<char>, V>::empty(),
            r.keys() == Seq::<Seq<char>>::empty(),
    {
        let r: StrMap<V> = StrMap { entries: Vec::new() };
        assert(r.keys() =~= Seq::<Seq<char>>::empty());
        assert(r@ =~= Map::<Seq<char>, V>::empty());
        r
    }

    /// The number of entries.
    pub fn len(&self) -> (r: usize)
        ensures
            r == self.keys().len(),
    {
        self.entries.len()
    }

    fn position(&self, key: &str) -> (r: Option<usize>)
        ensures
            match r {
                Some(i) => i < self.entries@.len() && self.entries@[i as int].0@ == key@,
                None => !self.keys().contains(key@),
            },
    {
        let mut i: usize = 0;
        while i < self.entries.len()
            invariant
                i <= self.entries@.len(),
                forall|j: int| 0 <= j < i ==> self.keys()[j] != key@,
            decreases self.entries@.len() - i,
        {
            if text::same(self.entries[i].0.as_str(), key) {
                return Some(i);
            }
            i = i + 1;
        }
        None
    }

    /// The value under this key.
    pub fn get(&self, key: &str) -> (r: Option<&V>)
        ensures
            match r {
                Some(v) => self@.dom().contains(key@) && *v == self@[key@],
                None => !self@.dom().contains(key@),
            },
    {
        proof {
            use_type_invariant(self);
        }
        match self.position(key) {
            Some(i) => {
                proof {
                    self.lemma_at(i as int);
                }
                Some(&self.entries[i].1)
            },
            None => None,
        }
    }

    /// The key at a position.
    pub fn key_at(&self, i: usize) -> (r: &str)
        requires
            i < self.keys().len(),
        ensures
            r@ == self.keys()[i as int],
    {
        self.entries[i].0.as_str()
    }

    /// The value at a position.
    pub fn value_at(&self, i: usize) -> (r: &V)
        requires
            i < self.keys().len(),
        ensures
            *r == self@[self.keys()[i as int]],
    {
        proof {
            use_type_invariant(self);
            self.lemma_at(i as int);
        }
        &self.entries[i].1
    }

    /// Puts a value under a key, in the place of the value that it had.
    pub fn insert(&mut self, key: &str, value: V)
        ensures
            final(self)@ == old(self)@.insert(key@, value),
            final(self).keys() == (if old(self)@.dom().contains(key@) {
                old(self).keys()
            } else {
                old(self).keys().push(key@)
            }),
    {
        proof {
            use_type_invariant(&*self);
        }
        let ghost before = *self;
        let found = self.position(key);
        let mut entries: Vec<(String, V)> = Vec::new();
        std::mem::swap(&mut entries, &mut self.entries);
        match found {
            Some(i) => {
                entries.set(i, (key.to_owned(), value));
                let ghost after = StrMap { entries };
                proof {
                    before.lemma_at(i as int);
                    assert(after.keys() =~= before.keys());
                    assert forall|k: Seq<char>| #[trigger] before@.dom().contains(k) implies after@[k]
                        == before@.insert(key@, value)[k] by {
                        let j = before.keys().index_of(k);
                        assert(before.keys()[j] == k);
                        assert(before.keys()[i as int] == key@);
                        assert(k == key@ ==> j == i);
                        after.lemma_at(j);
                        before.lemma_at(j);
                    }
                    assert(after@ =~= before@.insert(key@, value));
                }
                self.entries = entries;
            },
            None => {
                entries.push((key.to_owned(), value));
                let ghost after = StrMap { entries };
                proof {
                    let last = before.keys().len() as int;
                    assert(after.keys() =~= before.keys().push(key@));
                    assert(after.wf());
                    assert(after.keys()[last] == key@);
                    after.lemma_at(last);
                    assert forall|k: Seq<char>| #[trigger] before@.dom().contains(k) implies after@.dom().contains(
                        k,
                    ) && after@[k] == before@[k] by {
                        let j = before.keys().index_of(k);
                        assert(before.keys()[j] == k);
                        after.lemma_at(j);
                        before.lemma_at(j);
                    }
                    assert forall|k: Seq<char>| #[trigger] after@.dom().contains(k) implies k == key@
                        || before@.dom().contains(k) by {
                        let j = after.keys().index_of(k);
                        assert(after.keys()[j] == k);
                        if j < last {
                            assert(before.keys()[j] == k);
                        }
                    }
                    assert(after@ =~= before@.insert(key@, value));
                }
                self.entries = entries;
            },
        }
    }
}

impl<V: Copy> StrMap<V> {
    /// A copy of the map.
    pub fn duplicate(&self) -> (r: StrMap<V>)
        ensures
            r@ == self@,
            r.keys() == self.keys(),
    {
        proof {
            use_type_invariant(self);
        }
        let mut entries: Vec<(String, V)> = Vec::new();
        let mut i: usize = 0;
        while i < self.entries.len()
            invariant
                i <= self.entries@.len(),
                entries@.len() == i,
                forall|j: int| 0 <= j < i ==> entries@[j].0@ == self.entries@[j].0@,
                forall|j: int| 0 <= j < i ==> entries@[j].1 == self.entries@[j].1,
            decreases self.entries@.len() - i,
        {
            let value: V = self.entries[i].1;
            entries.push((self.entries[i].0.clone(), value));
            i = i + 1;
        }
        let ghost copy = StrMap { entries };
        proof {
            assert(copy.keys() =~= self.keys());
            assert forall|k: Seq<char>| #[trigger] self@.dom().contains(k) implies copy@[k]
                == self@[k] by {
                let j = self.keys().index_of(k);
                assert(self.keys()[j] == k);
                self.lemma_at(j);
                copy.lemma_at(j);
            }
            assert(copy@ =~= self@);
        }
        StrMap { entries }
    }
}

/// The sum of `f` over the keys.
pub open spec fn sum_over(keys: Seq<Seq<char>>, f: spec_fn(Seq<char>) -> int) -> int
    decreases keys.len(),
{
    if keys.len() == 0 {
        0
    } else {
        sum_over(keys.drop_last(), f) + f(keys.last())
    }
}

/// Two functions that agree on the keys have the same sum.
pub proof fn lemma_sum_same(
    keys: Seq<Seq<char>>,
    f: spec_fn(Seq<char>) -> int,
    g: spec_fn(Seq<char>) -> int,
)
    requires
        forall|i: int| 0 <= i < keys.len() ==> f(#[trigger] keys[i]) == g(keys[i]),
    ensures
        sum_over(keys, f) == sum_over(keys, g),
    decreases keys.len(),
{
    if keys.len() > 0 {
        let front = keys.drop_last();
        assert forall|i: int| 0 <= i < front.len() implies f(#[trigger] front[i]) == g(front[i]) by {
            assert(front[i] == keys[i]);
        }
        lemma_sum_same(front, f, g);
        assert(keys.last() == keys[keys.len() - 1]);
    }
}

/// Where two functions agree on all keys but one, their sums differ by what they differ there.
pub proof fn lemma_sum_changed(
    keys: Seq<Seq<char>>,
    f: spec_fn(Seq<char>) -> int,
    g: spec_fn(Seq<char>) -> int,
    at: int,
)
    requires
        keys.no_duplicates(),
        0 <= at < keys.len(),
        forall|i: int| 0 <= i < keys.len() && i != at ==> f(#[trigger] keys[i]) == g(keys[i]),
    ensures
        sum_over(keys, g) == sum_over(keys, f) - f(keys[at]) + g(keys[at]),
    decreases keys.len(),
{
    let front = keys.drop_last();
    assert forall|i: int| 0 <= i < front.len() implies #[trigger] front[i] == keys[i] by {}
    if at == keys.len() - 1 {
        lemma_sum_same(front, f, g);
    } else {
        lemma_sum_changed(front, f, g, at);
        assert(keys.last() == keys[keys.len() - 1]);
    }
}

/// The sum of a function that is nowhere negative is at least each of its values.
pub proof fn lemma_sum_bound(keys: Seq<Seq<char>>, f: spec_fn(Seq<char>) -> int, at: int)
    requires
        0 <= at < keys.len(),
        forall|k: Seq<char>| #[trigger] f(k) >= 0,
    ensures
        f(keys[at]) <= sum_over(keys, f),
        0 <= sum_over(keys, f),
    decreases keys.len(),
{
    let front = keys.drop_last();
    lemma_sum_nonnegative(front, f);
    assert(f(keys.last()) >= 0);
    if at < keys.len() - 1 {
        assert(front[at] == keys[at]);
        lemma_sum_bound(front, f, at);
    }
}

/// The sum of a function that is nowhere negative is not negative.
pub proof fn lemma_sum_nonnegative(keys: Seq<Seq<char>>, f: spec_fn(Seq<char>) -> int)
    requires
        forall|k: Seq<char>| #[trigger] f(k) >= 0,
    ensures
        0 <= sum_over(keys, f),
    decreases keys.len(),
{
    if keys.len() > 0 {
        lemma_sum_nonnegative(keys.drop_last(), f);
        assert(f(keys.last()) >= 0);
    }
}

} // verus!
