//! The header map of requests and responses.

use vstd::prelude::*;
use crate::datastructures::{
    entries_of, find_all, find_first, first_for, take_out, values_for, without_key,
};

verus! {

/// Headers type that stores some headers. It has a map like interface but
/// is ordered and can store the same keys multiple times. Keys are compared
/// without regard to ASCII case.
pub struct Headers {
    list: Vec<(String, String)>,
}

impl View for Headers {
    type V = Seq<(Seq<char>, Seq<char>)>;

    closed spec fn view(&self) -> Seq<(Seq<char>, Seq<char>)> {
        entries_of(self.list@)
    }
}

impl Headers {
    /// Create `Headers`, from a list of pairs or empty.
    pub fn new(list: Option<Vec<(String, String)>>) -> (headers: Headers)
        ensures
            headers@ == match list {
                Some(pairs) => entries_of(pairs@),
                None => Seq::empty(),
            },
    {
        match list {
            Some(list) => Headers { list },
            None => Headers { list: Vec::new() },
        }
    }

    /// Return a reference to the value corresponding to the header key:
    /// the first one stored under it.
    pub fn get(&self, key: String) -> (value: Option<&String>)
        ensures
            value is Some == first_for(self@, key@, true) is Some,
            value is Some ==> value->0@ == first_for(self@, key@, true)->0,
    {
        let at = find_first(&self.list, key.as_str(), true);
        if at < self.list.len() {
            Some(&self.list[at].1)
        } else {
            None
        }
    }

    /// Return a list of all the references to the values for a given key.
    /// If that key is not in the headers, the return value will be an empty
    /// vector.
    pub fn get_all(&self, key: String) -> (values: Vec<&String>)
        ensures
            values@.len() == values_for(self@, key@, true).len(),
            forall|k: int|
                0 <= k < values@.len() ==> (#[trigger] values@[k])@ == values_for(self@, key@, true)[k],
    {
        find_all(&self.list, key.as_str(), true)
    }

    /// All key-value pairs in insertion order.
    pub fn iter(&self) -> (pairs: Vec<(&String, &String)>)
        ensures
            pairs@.len() == self@.len(),
            forall|k: int|
                0 <= k < pairs@.len() ==> ((#[trigger] pairs@[k]).0@, pairs@[k].1@) == self@[k],
    {
        let mut pairs: Vec<(&String, &String)> = Vec::new();
        let mut i: usize = 0;
        while i < self.list.len()
            invariant
                i <= self.list.len(),
                pairs@.len() == i,
                forall|k: int|
                    0 <= k < i ==> ((#[trigger] pairs@[k]).0@, pairs@[k].1@) == entries_of(
                        self.list@,
                    )[k],
            decreases self.list.len() - i,
        {
            pairs.push((&self.list[i].0, &self.list[i].1));
            i += 1;
        }
        pairs
    }

    /// All keys in insertion order.
    pub fn keys(&self) -> (keys: Vec<&String>)
        ensures
            keys@.len() == self@.len(),
            forall|k: int| 0 <= k < keys@.len() ==> (#[trigger] keys@[k])@ == self@[k].0,
    {
        let mut keys: Vec<&String> = Vec::new();
        let mut i: usize = 0;
        while i < self.list.len()
            invariant
                i <= self.list.len(),
                keys@.len() == i,
                forall|k: int| 0 <= k < i ==> (#[trigger] keys@[k])@ == entries_of(self.list@)[k].0,
            decreases self.list.len() - i,
        {
            keys.push(&self.list[i].0);
            i += 1;
        }
        keys
    }

    /// All values in insertion order.
    pub fn values(&self) -> (values: Vec<&String>)
        ensures
            values@.len() == self@.len(),
            forall|k: int| 0 <= k < values@.len() ==> (#[trigger] values@[k])@ == self@[k].1,
    {
        let mut values: Vec<&String> = Vec::new();
        let mut i: usize = 0;
        while i < self.list.len()
            invariant
                i <= self.list.len(),
                values@.len() == i,
                forall|k: int|
                    0 <= k < i ==> (#[trigger] values@[k])@ == entries_of(self.list@)[k].1,
            decreases self.list.len() - i,
        {
            values.push(&self.list[i].1);
            i += 1;
        }
        values
    }

    /// Add a new header key-value pair to headers. Headers already under
    /// the key stay.
    pub fn add(&mut self, key: String, value: String)
        ensures
            final(self)@ == old(self)@.push((key@, value@)),
    {
        self.list.push((key, value));
    }

    /// Removes a key from the headers, returning the first value at the key
    /// if the key was previously in the headers.
    pub fn remove(&mut self, key: String) -> (first: Option<String>)
        ensures
            final(self)@ == without_key(old(self)@, key@, true),
            first is Some == first_for(old(self)@, key@, true) is Some,
            first is Some ==> first->0@ == first_for(old(self)@, key@, true)->0,
    {
        take_out(&mut self.list, key.as_str(), true)
    }

    /// Removes all headers for `key` and adds a new one at the end of the
    /// list.
    pub fn set(&mut self, key: String, value: String)
        ensures
            final(self)@ == without_key(old(self)@, key@, true).push((key@, value@)),
    {
        let _ = take_out(&mut self.list, key.as_str(), true);
        self.list.push((key, value));
    }

    /// Return the number of elements in the headers.
    pub fn len(&self) -> (n: usize)
        ensures
            n == self@.len(),
    {
        self.list.len()
    }

    /// Clears all headers.
    pub fn clear(&mut self)
        ensures
            final(self)@ == Seq::<(Seq<char>, Seq<char>)>::empty(),
    {
        self.list.clear();
    }
}

impl Headers {
    /// A second header list with the same headers.
    pub fn copy(&self) -> (same: Headers)
        ensures
            same@ == self@,
    {
        let mut list: Vec<(String, String)> = Vec::new();
        let mut i: usize = 0;
        while i < self.list.len()
            invariant
                i <= self.list.len(),
                entries_of(list@) == entries_of(self.list@).take(i as int),
            decreases self.list.len() - i,
        {
            let ghost before = list@;
            list.push((self.list[i].0.clone(), self.list[i].1.clone()));
            proof {
                assert(entries_of(list@) == entries_of(before).push(entries_of(self.list@)[i as int]));
                assert(entries_of(self.list@).take(i + 1) == entries_of(self.list@).take(
                    i as int,
                ).push(entries_of(self.list@)[i as int]));
            }
            i += 1;
        }
        proof {
            assert(entries_of(self.list@).take(self.list.len() as int) == entries_of(self.list@));
        }
        Headers { list }
    }
}

} // verus!
