//! The flat mapping from parameter names to their text, and the encoder
//! that parameter types implement to produce it.

use vstd::prelude::*;
use crate::text::{bool_text, bool_to_text};

verus! {

/// One entry of a mapping, as the text of its key and of its value.
pub type Pair = (Seq<char>, Seq<char>);

/// Whether some entry of `pairs` has the key `key`.
pub open spec fn has_key(pairs: Seq<Pair>, key: Seq<char>) -> bool {
    exists|i: int| 0 <= i < pairs.len() && (#[trigger] pairs[i]).0 == key
}

/// Whether the entry at place `i` is the first with the key `key`.
pub open spec fn first_at(pairs: Seq<Pair>, key: Seq<char>, i: int) -> bool {
    &&& 0 <= i < pairs.len()
    &&& pairs[i].0 == key
    &&& forall|j: int| 0 <= j < i ==> (#[trigger] pairs[j]).0 != key
}

/// The place of the first entry with the key `key`, where there is one.
pub open spec fn key_index(pairs: Seq<Pair>, key: Seq<char>) -> int {
    choose|i: int| first_at(pairs, key, i)
}

/// No two entries share a key.
pub open spec fn distinct_keys(pairs: Seq<Pair>) -> bool {
    forall|i: int, j: int|
        0 <= i < j < pairs.len() ==> (#[trigger] pairs[i]).0 != (#[trigger] pairs[j]).0
}

/// The entries after `key` is bound to `value`: an entry with that key keeps
/// its place and takes the new value, a new key goes to the end.
pub open spec fn put(pairs: Seq<Pair>, key: Seq<char>, value: Seq<char>) -> Seq<Pair> {
    if has_key(pairs, key) {
        pairs.update(key_index(pairs, key), (key, value))
    } else {
        pairs.push((key, value))
    }
}

/// The mapping that a list of entries stands for.
pub open spec fn as_map(pairs: Seq<Pair>) -> Map<Seq<char>, Seq<char>> {
    Map::new(|k: Seq<char>| has_key(pairs, k), |k: Seq<char>| pairs[key_index(pairs, k)].1)
}

/// The entry of a field that may be absent: one entry where it has a value,
/// none where it has not.
pub open spec fn field(key: Seq<char>, value: Option<Seq<char>>) -> Seq<Pair> {
    match value {
        Some(text) => seq![(key, text)],
        None => Seq::empty(),
    }
}

/// The text of a field that holds text.
pub open spec fn text_of(value: Option<String>) -> Option<Seq<char>> {
    match value {
        Some(text) => Some(text@),
        None => None,
    }
}

/// The text of a flag that may be absent.
pub open spec fn flag_text(flag: Option<bool>) -> Option<Seq<char>> {
    match flag {
        Some(b) => Some(bool_text(b)),
        None => None,
    }
}

/// A list without entries stands for the empty mapping.
pub proof fn lemma_no_pairs_no_keys()
    ensures
        as_map(Seq::<Pair>::empty()) == Map::<Seq<char>, Seq<char>>::empty(),
{
    assert(as_map(Seq::<Pair>::empty()) =~= Map::<Seq<char>, Seq<char>>::empty());
}

proof fn lemma_first_before(pairs: Seq<Pair>, key: Seq<char>, at: int)
    requires
        0 <= at < pairs.len(),
        pairs[at].0 == key,
    ensures
        exists|i: int| first_at(pairs, key, i),
    decreases at,
{
    if exists|j: int| 0 <= j < at && (#[trigger] pairs[j]).0 == key {
        let j = choose|j: int| 0 <= j < at && (#[trigger] pairs[j]).0 == key;
        lemma_first_before(pairs, key, j);
    } else {
        assert(first_at(pairs, key, at));
    }
}

/// A key that occurs has a first place, and only one.
pub proof fn lemma_key_index(pairs: Seq<Pair>, key: Seq<char>)
    requires
        has_key(pairs, key),
    ensures
        first_at(pairs, key, key_index(pairs, key)),
        forall|i: int| first_at(pairs, key, i) ==> i == key_index(pairs, key),
{
    let at = choose|i: int| 0 <= i < pairs.len() && (#[trigger] pairs[i]).0 == key;
    lemma_first_before(pairs, key, at);
    let first = key_index(pairs, key);
    assert forall|i: int| first_at(pairs, key, i) implies i == first by {
        if i < first {
            assert(pairs[i].0 == key);
        } else if first < i {
            assert(pairs[first].0 == key);
        }
    }
}

/// Binding a key changes the mapping at that key only, adds that key to
/// the keys and no other, and keeps distinct keys distinct.
pub proof fn lemma_put(pairs: Seq<Pair>, key: Seq<char>, value: Seq<char>)
    ensures
        as_map(put(pairs, key, value)) == as_map(pairs).insert(key, value),
        forall|k: Seq<char>| #[trigger]
            has_key(put(pairs, key, value), k) <==> k == key || has_key(pairs, k),
        distinct_keys(pairs) ==> distinct_keys(put(pairs, key, value)),
{
    let after = put(pairs, key, value);
    let last = pairs.len() as int;
    if has_key(pairs, key) {
        lemma_key_index(pairs, key);
    }
    let at = key_index(pairs, key);
    assert forall|i: int| 0 <= i < pairs.len() implies (#[trigger] after[i]).0 == pairs[i].0 by {}
    assert forall|k: Seq<char>| #[trigger]
        has_key(after, k) <==> k == key || has_key(pairs, k) by {
        if has_key(after, k) {
            let i = choose|i: int| 0 <= i < after.len() && (#[trigger] after[i]).0 == k;
            if i < pairs.len() {
                assert(pairs[i].0 == k);
            }
        }
        if has_key(pairs, k) {
            let i = choose|i: int| 0 <= i < pairs.len() && (#[trigger] pairs[i]).0 == k;
            assert(after[i].0 == k);
        }
        if k == key {
            if has_key(pairs, key) {
                assert(after[at].0 == key);
            } else {
                assert(after[last].0 == key);
            }
        }
    }
    assert forall|k: Seq<char>| has_key(after, k) implies as_map(after)[k] == as_map(
        pairs,
    ).insert(key, value)[k] by {
        lemma_key_index(after, k);
        let i = key_index(after, k);
        if has_key(pairs, k) {
            lemma_key_index(pairs, k);
            let j = key_index(pairs, k);
            assert(after[j].0 == k);
            assert forall|n: int| 0 <= n < j implies (#[trigger] after[n]).0 != k by {
                assert(pairs[n].0 != k);
            }
            assert(first_at(after, k, j));
            assert(i == j);
        } else {
            assert(k == key);
            assert(after[last].0 == key);
            assert forall|n: int| 0 <= n < last implies (#[trigger] after[n]).0 != k by {
                assert(pairs[n].0 != k);
            }
            assert(first_at(after, k, last));
            assert(i == last);
        }
    }
    assert(as_map(after) =~= as_map(pairs).insert(key, value));
    if distinct_keys(pairs) {
        assert forall|i: int, j: int| 0 <= i < j < after.len() implies (#[trigger] after[i]).0 != (
        #[trigger] after[j]).0 by {
            if j < pairs.len() {
                assert(pairs[i].0 != pairs[j].0);
            } else {
                assert(pairs[i].0 != key);
            }
        }
    }
}

/// A finite mapping from keys to values, both text, that keeps its entries
/// in the order in which their keys were first bound.
#[derive(Debug)]
pub struct QueryMap {
    entries: Vec<(String, String)>,
}

/// The entries of a list of owned keys and values, as text.
pub open spec fn owned_pairs(entries: Seq<(String, String)>) -> Seq<Pair> {
    Seq::new(entries.len(), |i: int| (entries[i].0@, entries[i].1@))
}

impl Clone for QueryMap {
    /// A mapping with the same entries in the same order.
    fn clone(&self) -> (r: QueryMap)
        ensures
            r.pairs() == self.pairs(),
    {
        proof {
            use_type_invariant(self);
        }
        let mut entries: Vec<(String, String)> = Vec::new();
        let mut i: usize = 0;
        while i < self.entries.len()
            invariant
                i <= self.entries.len(),
                entries@.len() == i,
                owned_pairs(entries@) == self.pairs().take(i as int),
            decreases self.entries.len() - i,
        {
            let key = self.entries[i].0.clone();
            let value = self.entries[i].1.clone();
            let ghost before = owned_pairs(entries@);
            entries.push((key, value));
            proof {
                assert(self.pairs()[i as int] == (key@, value@));
                assert forall|j: int| 0 <= j < i + 1 implies owned_pairs(entries@)[j]
                    == self.pairs().take(i + 1)[j] by {
                    if j < i {
                        assert(owned_pairs(entries@)[j] == before[j]);
                        assert(before[j] == self.pairs().take(i as int)[j]);
                    }
                }
                assert(owned_pairs(entries@) =~= self.pairs().take(i + 1));
            }
            i += 1;
        }
        assert(self.pairs().take(i as int) =~= self.pairs());
        QueryMap { entries }
    }
}

impl View for QueryMap {
    type V = Map<Seq<char>, Seq<char>>;

    open spec fn view(&self) -> Map<Seq<char>, Seq<char>> {
        as_map(self.pairs())
    }
}

impl QueryMap {
    /// The entries in their order, as text.
    pub closed spec fn pairs(&self) -> Seq<Pair> {
        owned_pairs(self.entries@)
    }

    /// The invariant of the type: no key occurs twice.
    #[verifier::type_invariant]
    pub open spec fn wf(&self) -> bool {
        distinct_keys(self.pairs())
    }

    /// The empty mapping.
    pub fn new() -> (r: QueryMap)
        ensures
            r.wf(),
            r.pairs() == Seq::<Pair>::empty(),
            r@ == Map::<Seq<char>, Seq<char>>::empty(),
    {
        let r = QueryMap { entries: Vec::new() };
        assert(r.pairs() =~= Seq::<Pair>::empty());
        assert(r@ =~= Map::<Seq<char>, Seq<char>>::empty());
        r
    }

    /// The number of entries.
    pub fn len(&self) -> (n: usize)
        ensures
            n == self.pairs().len(),
    {
        self.entries.len()
    }

    /// Whether the mapping has no entry.
    pub fn is_empty(&self) -> (b: bool)
        ensures
            b == (self.pairs().len() == 0),
    {
        self.entries.len() == 0
    }

    fn position(&self, key: &String) -> (r: Option<usize>)
        ensures
            match r {
                Some(i) => has_key(self.pairs(), key@) && i == key_index(self.pairs(), key@),
                None => !has_key(self.pairs(), key@),
            },
    {
        let mut i: usize = 0;
        while i < self.entries.len()
            invariant
                i <= self.entries.len(),
                forall|j: int| 0 <= j < i ==> (#[trigger] self.pairs()[j]).0 != key@,
            decreases self.entries.len() - i,
        {
            if self.entries[i].0 == *key {
                proof {
                    assert(self.pairs()[i as int].0 == key@);
                    assert(first_at(self.pairs(), key@, i as int));
                    lemma_key_index(self.pairs(), key@);
                }
                return Some(i);
            }
            i += 1;
        }
        None
    }

    /// Binds `key` to `value`. Gives back the value that the key had before,
    /// if it had one.
    pub fn insert(&mut self, key: String, value: String) -> (previous: Option<String>)
        ensures
            final(self).wf(),
            final(self).pairs() == put(old(self).pairs(), key@, value@),
            final(self)@ == old(self)@.insert(key@, value@),
            !has_key(old(self).pairs(), key@) ==> final(self).pairs() == old(self).pairs() + seq![
                (key@, value@),
            ],
            forall|k: Seq<char>| #[trigger]
                has_key(final(self).pairs(), k) <==> k == key@ || has_key(old(self).pairs(), k),
            match previous {
                Some(v) => old(self)@.contains_key(key@) && old(self)@[key@] == v@,
                None => !old(self)@.contains_key(key@),
            },
    {
        proof {
            use_type_invariant(&*self);
            lemma_put(self.pairs(), key@, value@);
            assert(self.pairs().push((key@, value@)) =~= self.pairs() + seq![(key@, value@)]);
        }
        let found = self.position(&key);
        let mut taken = QueryMap { entries: Vec::new() };
        assert(taken.pairs() =~= Seq::<Pair>::empty());
        core::mem::swap(self, &mut taken);
        let mut entries = taken.entries;
        match found {
            Some(i) => {
                proof {
                    lemma_key_index(old(self).pairs(), key@);
                }
                let mut slot = (key, value);
                entries.set_and_swap(i, &mut slot);
                assert(owned_pairs(entries@) =~= put(old(self).pairs(), key@, value@));
                *self = QueryMap { entries };
                Some(slot.1)
            },
            None => {
                entries.push((key, value));
                assert(owned_pairs(entries@) =~= put(old(self).pairs(), key@, value@));
                *self = QueryMap { entries };
                None
            },
        }
    }

    /// The value bound to `key`, if there is one.
    pub fn get(&self, key: &str) -> (r: Option<&String>)
        ensures
            match r {
                Some(v) => self@.contains_key(key@) && self@[key@] == v@,
                None => !self@.contains_key(key@),
            },
    {
        let owned = key.to_owned();
        match self.position(&owned) {
            Some(i) => {
                proof {
                    lemma_key_index(self.pairs(), key@);
                }
                Some(&self.entries[i].1)
            },
            None => None,
        }
    }

    /// Whether `key` is bound.
    pub fn contains_key(&self, key: &str) -> (b: bool)
        ensures
            b == self@.contains_key(key@),
    {
        let owned = key.to_owned();
        self.position(&owned).is_some()
    }

    /// The key and the value of the entry at place `i`, if the mapping has
    /// that many entries.
    pub fn entry_at(&self, i: usize) -> (r: Option<(&String, &String)>)
        ensures
            r is Some <==> i < self.pairs().len(),
            r is Some ==> (r->Some_0.0@, r->Some_0.1@) == self.pairs()[i as int],
    {
        if i < self.entries.len() {
            Some((&self.entries[i].0, &self.entries[i].1))
        } else {
            None
        }
    }
}

/// The entries that are left when each entry of `pairs` is bound in turn:
/// of several entries with one key, the place of the first and the value of
/// the last.
pub open spec fn bind_all(pairs: Seq<Pair>) -> Seq<Pair>
    decreases pairs.len(),
{
    if pairs.len() == 0 {
        Seq::empty()
    } else {
        put(bind_all(pairs.drop_last()), pairs.last().0, pairs.last().1)
    }
}

/// Binding entries whose keys differ changes nothing.
pub proof fn lemma_bind_all_of_distinct(pairs: Seq<Pair>)
    requires
        distinct_keys(pairs),
    ensures
        bind_all(pairs) == pairs,
    decreases pairs.len(),
{
    if pairs.len() > 0 {
        let init = pairs.drop_last();
        assert forall|i: int| 0 <= i < init.len() implies (#[trigger] init[i]) == pairs[i] by {}
        lemma_bind_all_of_distinct(init);
        if has_key(init, pairs.last().0) {
            let i = choose|i: int| 0 <= i < init.len() && (#[trigger] init[i]).0 == pairs.last().0;
            assert(pairs[i].0 == pairs[pairs.len() - 1].0);
        }
        assert(init.push(pairs.last()) =~= pairs);
    }
}

/// A value that can be written as the entries of a query: the encoder that
/// every parameter type has.
pub trait QueryValues {
    /// The entries that the value encodes to, in their order. A field that
    /// is absent has no entry.
    spec fn encoded(&self) -> Seq<Pair>;

    /// Whether the value sets nothing: every field that may be absent is
    /// absent, and no other field is there.
    spec fn is_unset(&self) -> bool;

    /// Encodes the value. A value that sets nothing gives the empty
    /// mapping.
    fn values(&self) -> (r: QueryMap)
        ensures
            r.wf(),
            r.pairs() == self.encoded(),
            self.is_unset() ==> r.pairs().len() == 0 && r@ == Map::<Seq<char>, Seq<char>>::empty(),
    ;
}

/// Encoding the same value twice gives the same entries and the same
/// mapping: the encoder is a function of the value.
pub proof fn lemma_encoding_repeats<P: QueryValues>(params: P, first: QueryMap, second: QueryMap)
    requires
        first.pairs() == params.encoded(),
        second.pairs() == params.encoded(),
    ensures
        first.pairs() == second.pairs(),
        first@ == second@,
{
}

impl QueryValues for QueryMap {
    open spec fn encoded(&self) -> Seq<Pair> {
        bind_all(self.pairs())
    }

    open spec fn is_unset(&self) -> bool {
        self.pairs().len() == 0
    }

    /// A mapping encodes to itself.
    fn values(&self) -> (r: QueryMap)
        ensures
            r.pairs() == self.pairs(),
    {
        proof {
            use_type_invariant(self);
            lemma_no_pairs_no_keys();
        }
        let mut r = QueryMap::new();
        let mut i: usize = 0;
        while i < self.entries.len()
            invariant
                i <= self.entries.len(),
                r.wf(),
                r.pairs() == bind_all(self.pairs().take(i as int)),
            decreases self.entries.len() - i,
        {
            let key = self.entries[i].0.clone();
            let value = self.entries[i].1.clone();
            proof {
                let next = self.pairs().take(i + 1);
                assert(next.drop_last() =~= self.pairs().take(i as int));
                assert(next.last() == (key@, value@));
            }
            r.insert(key, value);
            i += 1;
        }
        proof {
            assert(self.pairs().take(i as int) =~= self.pairs());
            lemma_bind_all_of_distinct(self.pairs());
        }
        r
    }
}

/// The entries of a list of borrowed keys and values, as text.
pub open spec fn text_pairs(list: Seq<(&str, &str)>) -> Seq<Pair> {
    Seq::new(list.len(), |i: int| (list[i].0@, list[i].1@))
}

impl<'a> QueryValues for Vec<(&'a str, &'a str)> {
    open spec fn encoded(&self) -> Seq<Pair> {
        bind_all(text_pairs(self@))
    }

    open spec fn is_unset(&self) -> bool {
        self@.len() == 0
    }

    /// A list encodes to its entries bound in turn: where a key comes
    /// twice, the later value stands.
    fn values(&self) -> (r: QueryMap) {
        proof {
            lemma_no_pairs_no_keys();
        }
        let mut r = QueryMap::new();
        let mut i: usize = 0;
        while i < self.len()
            invariant
                i <= self.len(),
                r.wf(),
                r.pairs() == bind_all(text_pairs(self@).take(i as int)),
            decreases self.len() - i,
        {
            let key = self[i].0.to_owned();
            let value = self[i].1.to_owned();
            proof {
                let next = text_pairs(self@).take(i + 1);
                assert(next.drop_last() =~= text_pairs(self@).take(i as int));
                assert(next.last() == (key@, value@));
            }
            r.insert(key, value);
            i += 1;
        }
        proof {
            assert(text_pairs(self@).take(i as int) =~= text_pairs(self@));
        }
        r
    }
}

/// A copy of a text that may be absent.
pub(crate) fn copy_text(value: &Option<String>) -> (r: Option<String>)
    ensures
        text_of(r) == text_of(*value),
{
    match value {
        Some(text) => Some(text.clone()),
        None => None,
    }
}

/// The text of a flag that may be absent.
pub(crate) fn flag_to_text(flag: Option<bool>) -> (r: Option<String>)
    ensures
        text_of(r) == flag_text(flag),
{
    match flag {
        Some(b) => Some(bool_to_text(b)),
        None => None,
    }
}

/// Adds the entry of a field under a name that the mapping does not hold
/// yet: one entry at the end where the field has a value, none where it has
/// not.
pub(crate) fn add_field(map: &mut QueryMap, name: &str, value: Option<String>)
    requires
        !has_key(old(map).pairs(), name@),
    ensures
        final(map).wf(),
        final(map).pairs() == old(map).pairs() + field(name@, text_of(value)),
        forall|k: Seq<char>| #[trigger]
            has_key(final(map).pairs(), k) ==> k == name@ || has_key(old(map).pairs(), k),
{
    match value {
        Some(text) => {
            map.insert(name.to_owned(), text);
        },
        None => {
            proof {
                use_type_invariant(&*map);
            }
            assert(map.pairs() + Seq::<Pair>::empty() =~= map.pairs());
        },
    }
}

} // verus!
