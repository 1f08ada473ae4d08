//! Ordered multi-value maps: a sequence of key and value pairs in insertion
//! order, where a key may occur more than once.

use vstd::prelude::*;
use crate::text::{eq_ignore_case, lowered, same_text};

verus! {

/// Whether two keys count as the same: as they stand, or, where `fold` is
/// set, once ASCII letters are taken in lower case.
pub open spec fn key_matches(fold: bool, a: Seq<char>, b: Seq<char>) -> bool {
    if fold {
        lowered(a) == lowered(b)
    } else {
        a == b
    }
}

/// The pairs of `list` by their views.
pub open spec fn entries_of<T: View>(list: Seq<(String, T)>) -> Seq<(Seq<char>, T::V)> {
    Seq::new(list.len(), |i: int| (list[i].0@, list[i].1@))
}

/// The values stored under `key`, in insertion order.
pub open spec fn values_for<V>(entries: Seq<(Seq<char>, V)>, key: Seq<char>, fold: bool) -> Seq<V>
    decreases entries.len(),
{
    if entries.len() == 0 {
        Seq::empty()
    } else if key_matches(fold, entries.last().0, key) {
        values_for(entries.drop_last(), key, fold).push(entries.last().1)
    } else {
        values_for(entries.drop_last(), key, fold)
    }
}

/// The entries that are left, in their order, once every entry under `key`
/// is taken out.
pub open spec fn without_key<V>(entries: Seq<(Seq<char>, V)>, key: Seq<char>, fold: bool) -> Seq<
    (Seq<char>, V),
>
    decreases entries.len(),
{
    if entries.len() == 0 {
        Seq::empty()
    } else if key_matches(fold, entries.last().0, key) {
        without_key(entries.drop_last(), key, fold)
    } else {
        without_key(entries.drop_last(), key, fold).push(entries.last())
    }
}

/// The first value under `key`, if there is one.
pub open spec fn first_for<V>(entries: Seq<(Seq<char>, V)>, key: Seq<char>, fold: bool) -> Option<V> {
    if values_for(entries, key, fold).len() > 0 {
        Some(values_for(entries, key, fold)[0])
    } else {
        None
    }
}

/// The values under a key in a prefix of the entries are a prefix of the
/// values under that key in all of them.
pub proof fn lemma_values_prefix<V>(entries: Seq<(Seq<char>, V)>, key: Seq<char>, fold: bool, k: int)
    requires
        0 <= k <= entries.len(),
    ensures
        values_for(entries.take(k), key, fold).is_prefix_of(values_for(entries, key, fold)),
    decreases entries.len() - k,
{
    if k == entries.len() {
        assert(entries.take(k) == entries);
    } else {
        let longer = entries.take(k + 1);
        assert(longer.drop_last() == entries.take(k));
        lemma_values_prefix(entries, key, fold, k + 1);
    }
}

/// Whether the key `a` counts as the same as `b`.
fn keys_match(fold: bool, a: &str, b: &str) -> (same: bool)
    ensures
        same == key_matches(fold, a@, b@),
{
    if fold {
        eq_ignore_case(a, b)
    } else {
        same_text(a, b)
    }
}

/// The position of the first entry under `key`, or the length of `list`
/// where there is none.
pub(crate) fn find_first<T: View>(list: &Vec<(String, T)>, key: &str, fold: bool) -> (at: usize)
    ensures
        at <= list.len(),
        forall|k: int| 0 <= k < at ==> !key_matches(fold, #[trigger] list@[k].0@, key@),
        at < list.len() ==> key_matches(fold, list@[at as int].0@, key@),
        at < list.len() ==> first_for(entries_of(list@), key@, fold) == Some(list@[at as int].1@),
        at == list.len() ==> first_for(entries_of(list@), key@, fold) is None,
{
    let ghost entries = entries_of(list@);
    let mut i: usize = 0;
    while i < list.len()
        invariant
            i <= list.len(),
            entries == entries_of(list@),
            forall|k: int| 0 <= k < i ==> !key_matches(fold, #[trigger] list@[k].0@, key@),
            values_for(entries.take(i as int), key@, fold).len() == 0,
        decreases list.len() - i,
    {
        proof {
            assert(entries.take(i + 1).drop_last() == entries.take(i as int));
            assert(entries.take(i + 1).last() == entries[i as int]);
        }
        if keys_match(fold, list[i].0.as_str(), key) {
            proof {
                lemma_values_prefix(entries, key@, fold, i + 1);
                assert(values_for(entries.take(i + 1), key@, fold)[0] == list@[i as int].1@);
            }
            return i;
        }
        i += 1;
    }
    proof {
        assert(entries.take(list.len() as int) == entries);
    }
    i
}

/// The values under `key`, in insertion order.
pub(crate) fn find_all<'a, T: View>(list: &'a Vec<(String, T)>, key: &str, fold: bool) -> (out: Vec<
    &'a T,
>)
    ensures
        out@.len() == values_for(entries_of(list@), key@, fold).len(),
        forall|k: int|
            0 <= k < out@.len() ==> (#[trigger] out@[k])@ == values_for(
                entries_of(list@),
                key@,
                fold,
            )[k],
{
    let ghost entries = entries_of(list@);
    let mut out: Vec<&'a T> = Vec::new();
    let mut i: usize = 0;
    while i < list.len()
        invariant
            i <= list.len(),
            entries == entries_of(list@),
            out@.len() == values_for(entries.take(i as int), key@, fold).len(),
            forall|k: int|
                0 <= k < out@.len() ==> (#[trigger] out@[k])@ == values_for(
                    entries.take(i as int),
                    key@,
                    fold,
                )[k],
        decreases list.len() - i,
    {
        proof {
            assert(entries.take(i + 1).drop_last() == entries.take(i as int));
            assert(entries.take(i + 1).last() == entries[i as int]);
        }
        if keys_match(fold, list[i].0.as_str(), key) {
            out.push(&list[i].1);
        }
        i += 1;
    }
    proof {
        assert(entries.take(list.len() as int) == entries);
    }
    out
}

/// Takes every entry under `key` out of `list` and returns the value of
/// the first of them.
pub(crate) fn take_out<T: View>(list: &mut Vec<(String, T)>, key: &str, fold: bool) -> (first: Option<
    T,
>)
    ensures
        entries_of(final(list)@) == without_key(entries_of(old(list)@), key@, fold),
        first is Some == first_for(entries_of(old(list)@), key@, fold) is Some,
        first is Some ==> first->0@ == first_for(entries_of(old(list)@), key@, fold)->0,
{
    let ghost before = entries_of(old(list)@);
    let mut taken: Vec<(String, T)> = Vec::new();
    std::mem::swap(list, &mut taken);
    let mut first: Option<T> = None;
    let ghost total = taken@;
    for entry in it: taken
        invariant
            it.seq() == total,
            before == entries_of(total),
            entries_of(list@) == without_key(before.take(it.index() as int), key@, fold),
            first is Some == (values_for(before.take(it.index() as int), key@, fold).len() > 0),
            first is Some ==> first->0@ == values_for(before.take(it.index() as int), key@, fold)[0],
    {
        let ghost i = it.index() as int;
        proof {
            assert(before.take(i + 1).drop_last() == before.take(i));
            assert(before.take(i + 1).last() == before[i]);
            assert(before[i] == (entry.0@, entry.1@));
        }
        if keys_match(fold, entry.0.as_str(), key) {
            if first.is_none() {
                first = Some(entry.1);
            }
        } else {
            let ghost kept = list@;
            list.push(entry);
            proof {
                assert(entries_of(list@) == entries_of(kept).push(before[i]));
            }
        }
    }
    proof {
        assert(before.take(total.len() as int) == before);
    }
    first
}

/// An ordered multi-value map with case-sensitive keys, used for query
/// arguments, form fields and uploaded files.
pub struct MultiDict<T> {
    list: Vec<(String, T)>,
}

impl<T: View> View for MultiDict<T> {
    type V = Seq<(Seq<char>, T::V)>;

    closed spec fn view(&self) -> Seq<(Seq<char>, T::V)> {
        entries_of(self.list@)
    }
}

impl<T: View> MultiDict<T> {
    /// An empty map.
    pub fn new() -> (dict: MultiDict<T>)
        ensures
            dict@ == Seq::<(Seq<char>, T::V)>::empty(),
    {
        MultiDict { list: Vec::new() }
    }

    /// The number of entries.
    pub fn len(&self) -> (n: usize)
        ensures
            n == self@.len(),
    {
        self.list.len()
    }

    /// Whether the map has no entry.
    pub fn is_empty(&self) -> (empty: bool)
        ensures
            empty == (self@.len() == 0),
    {
        self.list.len() == 0
    }

    /// Appends an entry. Entries already under `key` stay.
    pub fn add(&mut self, key: String, value: T)
        ensures
            final(self)@ == old(self)@.push((key@, value@)),
    {
        self.list.push((key, value));
    }

    /// Takes out every entry under `key`, then appends the one given.
    pub fn set(&mut self, key: String, value: T)
        ensures
            final(self)@ == without_key(old(self)@, key@, false).push((key@, value@)),
    {
        let _ = take_out(&mut self.list, key.as_str(), false);
        self.list.push((key, value));
    }

    /// The first value under `key`.
    pub fn get(&self, key: &str) -> (value: Option<&T>)
        ensures
            value is Some == first_for(self@, key@, false) is Some,
            value is Some ==> value->0@ == first_for(self@, key@, false)->0,
    {
        let at = find_first(&self.list, key, false);
        if at < self.list.len() {
            Some(&self.list[at].1)
        } else {
            None
        }
    }

    /// Every value under `key`, in insertion order.
    pub fn getlist(&self, key: &str) -> (values: Vec<&T>)
        ensures
            values@.len() == values_for(self@, key@, false).len(),
            forall|k: int|
                0 <= k < values@.len() ==> (#[trigger] values@[k])@ == values_for(
                    self@,
                    key@,
                    false,
                )[k],
    {
        find_all(&self.list, key, false)
    }

    /// Takes out every entry under `key` and returns the first value that
    /// was stored under it.
    pub fn remove(&mut self, key: &str) -> (first: Option<T>)
        ensures
            final(self)@ == without_key(old(self)@, key@, false),
            first is Some == first_for(old(self)@, key@, false) is Some,
            first is Some ==> first->0@ == first_for(old(self)@, key@, false)->0,
    {
        take_out(&mut self.list, key, false)
    }

    /// Takes out every entry.
    pub fn clear(&mut self)
        ensures
            final(self)@ == Seq::<(Seq<char>, T::V)>::empty(),
    {
        self.list.clear();
    }

    /// The entries in insertion order.
    pub fn iter(&self) -> (pairs: Vec<(&String, &T)>)
        ensures
            pairs@.len() == self@.len(),
            forall|k: int|
                0 <= k < pairs@.len() ==> ((#[trigger] pairs@[k]).0@, pairs@[k].1@) == self@[k],
    {
        let mut pairs: Vec<(&String, &T)> = Vec::new();
        let mut i: usize = 0;
        while i < self.list.len()
            invariant
                i <= self.list.len(),
                pairs@.len() == i,
                forall|k: int|
                    0 <= k < i ==> ((#[trigger] pairs@[k]).0@, pairs@[k].1@) == entries_of(
                        self.list@,
                    )[k],
            decreases self.list.len() - i,
        {
            pairs.push((&self.list[i].0, &self.list[i].1));
            i += 1;
        }
        pairs
    }
}

/// After every entry under a key is taken out, no value is left under it.
pub proof fn lemma_without_key_leaves_none<V>(entries: Seq<(Seq<char>, V)>, key: Seq<char>, fold: bool)
    ensures
        values_for(without_key(entries, key, fold), key, fold).len() == 0,
    decreases entries.len(),
{
    if entries.len() > 0 {
        lemma_without_key_leaves_none(entries.drop_last(), key, fold);
        if !key_matches(fold, entries.last().0, key) {
            let kept = without_key(entries.drop_last(), key, fold);
            assert(kept.push(entries.last()).drop_last() == kept);
        }
    }
}

/// Taking out the entries under one key leaves the values under every
/// other key as they were, in their order.
pub proof fn lemma_without_key_keeps_others<V>(
    entries: Seq<(Seq<char>, V)>,
    key: Seq<char>,
    other: Seq<char>,
    fold: bool,
)
    requires
        !key_matches(fold, other, key),
    ensures
        values_for(without_key(entries, key, fold), other, fold) == values_for(entries, other, fold),
    decreases entries.len(),
{
    if entries.len() > 0 {
        lemma_without_key_keeps_others(entries.drop_last(), key, other, fold);
        if !key_matches(fold, entries.last().0, key) {
            let kept = without_key(entries.drop_last(), key, fold);
            assert(kept.push(entries.last()).drop_last() == kept);
        }
    }
}

/// Adding never overwrites: after an entry is appended, the values under
/// its key are those from before followed by the new one, and the values
/// under every other key are as before.
pub proof fn lemma_add_never_overwrites<V>(
    entries: Seq<(Seq<char>, V)>,
    key: Seq<char>,
    value: V,
    other: Seq<char>,
    fold: bool,
)
    ensures
        values_for(entries.push((key, value)), key, fold) == values_for(entries, key, fold).push(
            value,
        ),
        !key_matches(fold, key, other) ==> values_for(entries.push((key, value)), other, fold)
            == values_for(entries, other, fold),
{
    assert(entries.push((key, value)).drop_last() == entries);
}

/// Setting leaves exactly one entry under the key: after the entries
/// under a key are taken out and one is appended, the values under the key
/// are that one value, and it is what a lookup finds.
pub proof fn lemma_set_leaves_one<V>(entries: Seq<(Seq<char>, V)>, key: Seq<char>, value: V, fold: bool)
    ensures
        values_for(without_key(entries, key, fold).push((key, value)), key, fold) == seq![value],
        first_for(without_key(entries, key, fold).push((key, value)), key, fold) == Some(value),
{
    lemma_without_key_leaves_none(entries, key, fold);
    let kept = without_key(entries, key, fold);
    assert(kept.push((key, value)).drop_last() == kept);
    assert(values_for(kept, key, fold).push(value) == seq![value]);
}

} // verus!
