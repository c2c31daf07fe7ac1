//! A map from text keys to values, kept as a list of pairs in which no key
//! occurs twice.

use vstd::prelude::*;
use crate::text::text_eq;

verus! {

/// Whether no two of the pairs have the same key text.
pub open spec fn distinct_keys<V>(pairs: Seq<(String, V)>) -> bool {
    forall|i: int, j: int|
        0 <= i < j < pairs.len() ==> (#[trigger] pairs[i]).0@ != (#[trigger] pairs[j]).0@
}

/// Whether one of the first `n` pairs has the key `key`.
pub open spec fn key_among<V>(pairs: Seq<(String, V)>, n: nat, key: Seq<char>) -> bool {
    exists|i: int| 0 <= i < n && i < pairs.len() && (#[trigger] pairs[i]).0@ == key
}

/// The map that the first `n` pairs spell out, each key bound to the view of
/// its value. Where a key occurs more than once, the last occurrence counts.
pub open spec fn pairs_map<V: View>(pairs: Seq<(String, V)>, n: nat) -> Map<Seq<char>, V::V>
    decreases n,
{
    if n == 0 || n > pairs.len() {
        Map::empty()
    } else {
        pairs_map(pairs, (n - 1) as nat).insert(pairs[n - 1].0@, pairs[n - 1].1@)
    }
}

/// What `pairs_map` holds: its keys are the keys of the pairs, and with
/// distinct keys each pair's key is bound to that pair's value and the map
/// has as many keys as there are pairs.
pub proof fn lemma_pairs_map<V: View>(pairs: Seq<(String, V)>, n: nat)
    requires
        n <= pairs.len(),
    ensures
        pairs_map(pairs, n).dom().finite(),
        forall|key: Seq<char>| #[trigger]
            pairs_map(pairs, n).contains_key(key) <==> key_among(pairs, n, key),
        distinct_keys(pairs) ==> pairs_map(pairs, n).len() == n,
        distinct_keys(pairs) ==> forall|i: int|
            0 <= i < n ==> pairs_map(pairs, n)[(#[trigger] pairs[i]).0@] == pairs[i].1@,
    decreases n,
{
    if n > 0 {
        lemma_pairs_map(pairs, (n - 1) as nat);
    }
}

/// Replacing the value of the pair that has a key, or adding a pair under a
/// key that no pair has, keeps the keys distinct and inserts into the map.
proof fn lemma_insert<V: View>(
    before: Seq<(String, V)>,
    after: Seq<(String, V)>,
    key: Seq<char>,
    value: V::V,
)
    requires
        distinct_keys(before),
        ({
            ||| exists|i: int|
                0 <= i < before.len() && before[i].0@ == key && after.len() == before.len()
                    && after[i].0@ == key && after[i].1@ == value && (forall|j: int|
                    0 <= j < before.len() && j != i ==> after[j] == before[j])
            ||| !key_among(before, before.len(), key) && after.len() == before.len() + 1
                && after[before.len() as int].0@ == key && after[before.len() as int].1@ == value
                && (forall|j: int| 0 <= j < before.len() ==> after[j] == before[j])
        }),
    ensures
        distinct_keys(after),
        pairs_map(after, after.len()) == pairs_map(before, before.len()).insert(key, value),
{
    lemma_pairs_map(before, before.len());
    lemma_pairs_map(after, after.len());
    assert(pairs_map(after, after.len()) =~= pairs_map(before, before.len()).insert(key, value));
}

/// A map from text keys to values.
#[derive(Debug)]
pub struct StringMap<V> {
    pub(crate) entries: Vec<(String, V)>,
}

impl<V> StringMap<V> {
    /// No key occurs twice among the pairs.
    #[verifier::type_invariant]
    pub closed spec fn keys_are_distinct(self) -> bool {
        distinct_keys(self.entries@)
    }

    /// The pairs of the map, in the order in which their keys first came in.
    pub open(crate) spec fn pairs(&self) -> Seq<(String, V)> {
        self.entries@
    }
}

impl<V: View> View for StringMap<V> {
    type V = Map<Seq<char>, V::V>;

    open spec fn view(&self) -> Map<Seq<char>, V::V> {
        pairs_map(self.pairs(), self.pairs().len())
    }
}

impl<V: View> StringMap<V> {
    /// A map without keys.
    pub fn new() -> (m: Self)
        ensures
            m@ == Map::<Seq<char>, V::V>::empty(),
            m.pairs().len() == 0,
    {
        StringMap { entries: Vec::new() }
    }

    /// The number of keys.
    pub fn len(&self) -> (n: usize)
        ensures
            n == self@.len(),
            n == self.pairs().len(),
    {
        proof {
            use_type_invariant(self);
            lemma_pairs_map(self.entries@, self.entries@.len());
        }
        self.entries.len()
    }

    /// Whether the map has no key.
    pub fn is_empty(&self) -> (b: bool)
        ensures
            b == (self@.len() == 0),
    {
        self.len() == 0
    }

    /// The pairs of the map: no key occurs twice among them, and together
    /// they spell out the map.
    pub fn as_pairs(&self) -> (pairs: &Vec<(String, V)>)
        ensures
            pairs@ == self.pairs(),
            distinct_keys(pairs@),
    {
        proof {
            use_type_invariant(self);
        }
        &self.entries
    }

    fn position(&self, key: &str) -> (at: Option<usize>)
        ensures
            match at {
                Some(i) => i < self.pairs().len() && self.pairs()[i as int].0@ == key@,
                None => !key_among(self.pairs(), self.pairs().len(), key@),
            },
    {
        let mut i: usize = 0;
        while i < self.entries.len()
            invariant
                i <= self.entries.len(),
                forall|j: int| 0 <= j < i ==> (#[trigger] self.entries[j]).0@ != key@,
            decreases self.entries.len() - i,
        {
            if text_eq(self.entries[i].0.as_str(), key) {
                return Some(i);
            }
            i += 1;
        }
        None
    }

    /// Whether `key` is bound.
    pub fn contains_key(&self, key: &str) -> (b: bool)
        ensures
            b == self@.contains_key(key@),
    {
        proof {
            lemma_pairs_map(self.entries@, self.entries@.len());
        }
        self.position(key).is_some()
    }

    /// The value bound to `key`, if there is one.
    pub fn get(&self, key: &str) -> (value: Option<&V>)
        ensures
            match value {
                Some(v) => self@.contains_key(key@) && self@[key@] == v@,
                None => !self@.contains_key(key@),
            },
    {
        proof {
            use_type_invariant(self);
            lemma_pairs_map(self.entries@, self.entries@.len());
        }
        match self.position(key) {
            Some(i) => Some(&self.entries[i].1),
            None => None,
        }
    }

    /// Binds `key` to `value`; an earlier binding of `key` is replaced.
    pub fn insert(&mut self, key: String, value: V)
        ensures
            final(self)@ == old(self)@.insert(key@, value@),
    {
        proof {
            use_type_invariant(&*self);
            lemma_pairs_map(self.entries@, self.entries@.len());
        }
        let at = self.position(key.as_str());
        let ghost before = self.entries@;
        let ghost key_text = key@;
        let ghost value_view = value@;
        let mut entries: Vec<(String, V)> = Vec::new();
        core::mem::swap(&mut self.entries, &mut entries);
        match at {
            Some(i) => {
                entries.set(i, (key, value));
            },
            None => {
                entries.push((key, value));
            },
        }
        proof {
            lemma_insert(before, entries@, key_text, value_view);
        }
        core::mem::swap(&mut self.entries, &mut entries);
    }
}

} // verus!
