//! Lists of (name, value) pairs with distinct names, read as maps from the name's text.
//!
//! The storages and balances are keyed by text. vstd specifies `HashMap` and `BTreeMap`
//! through the view of their keys, and a `String` key does not give the map a view from
//! which `get` and `insert` can be proved; these lists give the same map, with every
//! operation proved.

use vstd::prelude::*;

verus! {

/// No two entries share a name.
pub open spec fn names_distinct<V>(s: Seq<(String, V)>) -> bool {
    forall|i: int, j: int| 0 <= i < j < s.len() ==> s[i].0@ != s[j].0@
}

/// Whether some entry has the name `k`.
pub open spec fn holds_name<V>(s: Seq<(String, V)>, k: Seq<char>) -> bool {
    exists|i: int| 0 <= i < s.len() && #[trigger] s[i].0@ == k
}

/// The entries as a map from name to value.
pub open spec fn named_view<V>(s: Seq<(String, V)>) -> Map<Seq<char>, V> {
    Map::new(
        |k: Seq<char>| holds_name(s, k),
        |k: Seq<char>| s[choose|i: int| 0 <= i < s.len() && #[trigger] s[i].0@ == k].1,
    )
}

/// With distinct names, the entry at index `i` is what the map holds at its name.
pub proof fn lemma_named_view_at<V>(s: Seq<(String, V)>, i: int)
    requires
        names_distinct(s),
        0 <= i < s.len(),
    ensures
        named_view(s).contains_key(s[i].0@),
        named_view(s)[s[i].0@] == s[i].1,
{
    assert(holds_name(s, s[i].0@));
    let j = choose|j: int| 0 <= j < s.len() && #[trigger] s[j].0@ == s[i].0@;
    if j != i {
        if j < i {
            assert(s[j].0@ != s[i].0@);
        } else {
            assert(s[i].0@ != s[j].0@);
        }
    }
}

/// The index of the entry with the given name, if there is one.
pub fn find_name<V>(entries: &Vec<(String, V)>, key: &String) -> (r: Option<usize>)
    ensures
        match r {
            Some(i) => i < entries.len() && entries@[i as int].0@ == key@,
            None => !holds_name(entries@, key@),
        },
{
    let mut i: usize = 0;
    while i < entries.len()
        invariant
            i <= entries.len(),
            forall|j: int| 0 <= j < i ==> #[trigger] entries@[j].0@ != key@,
        decreases entries.len() - i,
    {
        if entries[i].0 == *key {
            return Some(i);
        }
        i = i + 1;
    }
    None
}

/// Takes out the entry at index `i`: the map no longer holds its name.
pub fn take_named<V>(entries: &mut Vec<(String, V)>, i: usize) -> (e: (String, V))
    requires
        names_distinct(old(entries)@),
        i < old(entries)@.len(),
    ensures
        e == old(entries)@[i as int],
        names_distinct(final(entries)@),
        named_view(final(entries)@) == named_view(old(entries)@).remove(e.0@),
        named_view(old(entries)@).contains_key(e.0@),
        named_view(old(entries)@)[e.0@] == e.1,
{
    let ghost s0 = entries@;
    proof {
        lemma_named_view_at(s0, i as int);
    }
    let e = entries.remove(i);
    proof {
        let s1 = entries@;
        let k = e.0@;
        assert forall|a: int, b: int| 0 <= a < b < s1.len() implies s1[a].0@ != s1[b].0@ by {
            let a0 = if a < i { a } else { a + 1 };
            let b0 = if b < i { b } else { b + 1 };
            assert(s1[a] == s0[a0]);
            assert(s1[b] == s0[b0]);
        }
        assert forall|x: Seq<char>| #[trigger] named_view(s1).contains_key(x) == named_view(
            s0,
        ).remove(k).contains_key(x) by {
            if holds_name(s1, x) {
                let j = choose|j: int| 0 <= j < s1.len() && #[trigger] s1[j].0@ == x;
                let j0 = if j < i { j } else { j + 1 };
                assert(s1[j] == s0[j0]);
                assert(holds_name(s0, x));
                if j0 < i {
                    assert(s0[j0].0@ != s0[i as int].0@);
                } else {
                    assert(s0[i as int].0@ != s0[j0].0@);
                }
            }
            if x != k && holds_name(s0, x) {
                let j = choose|j: int| 0 <= j < s0.len() && #[trigger] s0[j].0@ == x;
                let j1 = if j < i { j } else { j - 1 };
                assert(s1[j1] == s0[j]);
                assert(holds_name(s1, x));
            }
        }
        assert forall|x: Seq<char>| #[trigger] named_view(s1).contains_key(x) implies named_view(
            s1,
        )[x] == named_view(s0).remove(k)[x] by {
            let j = choose|j: int| 0 <= j < s1.len() && #[trigger] s1[j].0@ == x;
            let j0 = if j < i { j } else { j + 1 };
            assert(s1[j] == s0[j0]);
            lemma_named_view_at(s1, j);
            lemma_named_view_at(s0, j0);
        }
        assert(named_view(s1) =~= named_view(s0).remove(k));
    }
    e
}

/// Sets the value of a name: the entry with that name is replaced in place, or a new entry
/// is appended at the end.
pub fn put_named<V>(entries: &mut Vec<(String, V)>, key: String, value: V)
    requires
        names_distinct(old(entries)@),
    ensures
        names_distinct(final(entries)@),
        named_view(final(entries)@) == named_view(old(entries)@).insert(key@, value),
        holds_name(old(entries)@, key@) ==> final(entries)@.len() == old(entries)@.len(),
        !holds_name(old(entries)@, key@) ==> final(entries)@ == old(entries)@.push((key, value)),
{
    let ghost s0 = entries@;
    let ghost k = key@;
    match find_name(entries, &key) {
        Some(i) => {
            entries.set(i, (key, value));
            proof {
                let s1 = entries@;
                assert forall|a: int, b: int| 0 <= a < b < s1.len() implies s1[a].0@ != s1[b].0@ by {
                    assert(s1[a].0@ == s0[a].0@);
                    assert(s1[b].0@ == s0[b].0@);
                }
                assert forall|x: Seq<char>| #[trigger] named_view(s1).contains_key(x)
                    == named_view(s0).insert(k, value).contains_key(x) by {
                    if holds_name(s1, x) {
                        let j = choose|j: int| 0 <= j < s1.len() && #[trigger] s1[j].0@ == x;
                        assert(s0[j].0@ == x);
                    }
                    if holds_name(s0, x) {
                        let j = choose|j: int| 0 <= j < s0.len() && #[trigger] s0[j].0@ == x;
                        assert(s1[j].0@ == x);
                    }
                    if x == k {
                        assert(s1[i as int].0@ == x);
                    }
                }
                assert forall|x: Seq<char>| #[trigger] named_view(s1).contains_key(x) implies named_view(
                    s1,
                )[x] == named_view(s0).insert(k, value)[x] by {
                    let j = choose|j: int| 0 <= j < s1.len() && #[trigger] s1[j].0@ == x;
                    lemma_named_view_at(s1, j);
                    if j != i {
                        lemma_named_view_at(s0, j);
                    }
                }
                assert(named_view(s1) =~= named_view(s0).insert(k, value));
            }
        },
        None => {
            entries.push((key, value));
            proof {
                let s1 = entries@;
                assert forall|a: int, b: int| 0 <= a < b < s1.len() implies s1[a].0@ != s1[b].0@ by {
                    if b == s0.len() {
                        assert(s1[a] == s0[a]);
                        if s0[a].0@ == k {
                            assert(holds_name(s0, k));
                        }
                    } else {
                        assert(s1[a] == s0[a]);
                        assert(s1[b] == s0[b]);
                    }
                }
                assert forall|x: Seq<char>| #[trigger] named_view(s1).contains_key(x)
                    == named_view(s0).insert(k, value).contains_key(x) by {
                    if holds_name(s1, x) {
                        let j = choose|j: int| 0 <= j < s1.len() && #[trigger] s1[j].0@ == x;
                        if j < s0.len() {
                            assert(s1[j] == s0[j]);
                            assert(holds_name(s0, x));
                        }
                    }
                    if holds_name(s0, x) {
                        let j = choose|j: int| 0 <= j < s0.len() && #[trigger] s0[j].0@ == x;
                        assert(s1[j] == s0[j]);
                        assert(holds_name(s1, x));
                    }
                    if x == k {
                        assert(s1[s0.len() as int].0@ == x);
                    }
                }
                assert forall|x: Seq<char>| #[trigger] named_view(s1).contains_key(x) implies named_view(
                    s1,
                )[x] == named_view(s0).insert(k, value)[x] by {
                    let j = choose|j: int| 0 <= j < s1.len() && #[trigger] s1[j].0@ == x;
                    lemma_named_view_at(s1, j);
                    if j < s0.len() {
                        assert(s1[j] == s0[j]);
                        lemma_named_view_at(s0, j);
                    }
                }
                assert(named_view(s1) =~= named_view(s0).insert(k, value));
            }
        },
    }
}

} // verus!
