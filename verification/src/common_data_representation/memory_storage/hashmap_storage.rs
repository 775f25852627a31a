//! A storage held in memory.

use vstd::prelude::*;
use vstd::string::StringExecFns;
use crate::keyed::{find_name, holds_name, lemma_named_view_at, named_view, names_distinct, put_named};
use super::MemoryStorage;

verus! {

/// A storage held in memory: one value per key.
pub struct HashMapStorage<V> {
    inner: Vec<(String, V)>,
}

impl<V> HashMapStorage<V> {
    #[verifier::type_invariant]
    spec fn keys_distinct(self) -> bool {
        names_distinct(self.inner@)
    }

    /// The stored values, by the text of their key.
    pub closed spec fn view(&self) -> Map<Seq<char>, V> {
        named_view(self.inner@)
    }

    /// An empty storage.
    pub fn new() -> (s: Self)
        ensures
            s.view() == Map::<Seq<char>, V>::empty(),
    {
        let s = HashMapStorage { inner: Vec::new() };
        proof {
            assert(named_view(s.inner@) =~= Map::<Seq<char>, V>::empty());
        }
        s
    }
}

impl<V: Clone + Send + Sync> MemoryStorage<V> for HashMapStorage<V> {
    /// Stores `value` under `key`, replacing what was stored there.
    fn set(&mut self, key: String, value: V)
        ensures
            final(self).view() == old(self).view().insert(key@, value),
    {
        proof {
            use_type_invariant(&*self);
        }
        let mut inner = Vec::new();
        std::mem::swap(&mut inner, &mut self.inner);
        put_named(&mut inner, key, value);
        self.inner = inner;
    }

    /// A clone of the value stored under `key`, if any.
    fn get(&self, key: &str) -> (r: Option<V>)
        ensures
            r is Some <==> self.view().contains_key(key@),
            r matches Some(v) ==> cloned::<V>(self.view()[key@], v),
    {
        proof {
            use_type_invariant(self);
        }
        let k = String::from_str(key);
        match find_name(&self.inner, &k) {
            Some(i) => {
                proof {
                    lemma_named_view_at(self.inner@, i as int);
                }
                Some(self.inner[i].1.clone())
            },
            None => None,
        }
    }
}

/// A read after a write: with the view a `set` of `value` under `key` leaves, a `get` of `key`
/// gives a clone of `value`, a later write of the key wins, and a `get` of another key gives
/// what that key held before (`r` and `r_other` are what the two `get`s return, as their
/// contract states them).
pub proof fn lemma_read_after_write<V: Clone>(
    before: Map<Seq<char>, V>,
    key: Seq<char>,
    value: V,
    later_value: V,
    other: Seq<char>,
    r: Option<V>,
    r_other: Option<V>,
)
    requires
        r is Some <==> before.insert(key, value).contains_key(key),
        r matches Some(x) ==> cloned::<V>(before.insert(key, value)[key], x),
        r_other is Some <==> before.insert(key, value).contains_key(other),
        r_other matches Some(y) ==> cloned::<V>(before.insert(key, value)[other], y),
    ensures
        r matches Some(x) && cloned::<V>(value, x),
        before.insert(key, value).insert(key, later_value)[key] == later_value,
        other != key ==> (r_other is Some <==> before.contains_key(other)),
        other != key ==> (r_other matches Some(y) ==> cloned::<V>(before[other], y)),
{
}

} // verus!
