//! A storage held in memory that keeps, per key, the values set within a time window.

use std::collections::VecDeque;
use vstd::prelude::*;
use vstd::string::StringExecFns;
use crate::clock::{instant_now, nanos_since};
use crate::keyed::{find_name, take_named, holds_name, lemma_named_view_at, named_view, names_distinct, put_named};
use super::TtlBufferStorage;

verus! {

/// The time elapsed from `t` to `now`; zero when `now` is earlier.
pub open spec fn elapsed(t: u64, now: u64) -> int {
    if now >= t {
        now - t
    } else {
        0
    }
}

/// Whether a value set at time `t` has expired at `now` under the given time to live.
pub open spec fn expired(t: u64, now: u64, ttl: Option<u64>) -> bool {
    match ttl {
        Some(d) => elapsed(t, now) >= d,
        None => false,
    }
}

/// The values of a key once its expired values at the front are dropped: the front is
/// dropped while it has expired.
pub open spec fn drop_expired_front<V>(q: Seq<(u64, V)>, now: u64, ttl: Option<u64>) -> Seq<(u64, V)>
    decreases q.len(),
{
    if q.len() > 0 && expired(q[0].0, now, ttl) {
        drop_expired_front(q.drop_first(), now, ttl)
    } else {
        q
    }
}

/// The queues after `value` is appended, at time `now`, to the queue of `key`.
pub open spec fn after_set<V>(
    v: Map<Seq<char>, Seq<(u64, V)>>,
    key: Seq<char>,
    value: V,
    now: u64,
) -> Map<Seq<char>, Seq<(u64, V)>> {
    v.insert(
        key,
        (if v.contains_key(key) {
            v[key]
        } else {
            Seq::empty()
        }).push((now, value)),
    )
}

/// The values of `key` left at time `now`.
pub open spec fn values_left<V>(
    v: Map<Seq<char>, Seq<(u64, V)>>,
    key: Seq<char>,
    now: u64,
    ttl: Option<u64>,
) -> Seq<(u64, V)> {
    drop_expired_front(v[key], now, ttl)
}

/// Timestamps never decrease along the queue.
pub open spec fn times_ordered<V>(q: Seq<(u64, V)>) -> bool {
    forall|i: int, j: int| 0 <= i <= j < q.len() ==> q[i].0 <= q[j].0
}

/// A storage held in memory that keeps, per key, the values set within a time window
/// (`ttl` nanoseconds; no window keeps every value). Times are read from a monotonic clock.
pub struct TtlBufferHashMapStorage<V> {
    ttl: Option<u64>,
    origin: std::time::Instant,
    latest: u64,
    inner: Vec<(String, VecDeque<(u64, V)>)>,
}

/// Every value held was set at a time no later than `t`.
pub open spec fn stamped_no_later<V>(v: Map<Seq<char>, Seq<(u64, V)>>, t: u64) -> bool {
    forall|k: Seq<char>, i: int|
        v.contains_key(k) && 0 <= i < v[k].len() ==> #[trigger] v[k][i].0 <= t
}

/// Dropping the expired front keeps only values of the queue.
proof fn lemma_drop_keeps_bound<V>(q: Seq<(u64, V)>, now: u64, ttl: Option<u64>, t: u64)
    requires
        forall|i: int| 0 <= i < q.len() ==> #[trigger] q[i].0 <= t,
    ensures
        forall|i: int|
            0 <= i < drop_expired_front(q, now, ttl).len() ==> #[trigger] drop_expired_front(
                q,
                now,
                ttl,
            )[i].0 <= t,
    decreases q.len(),
{
    if q.len() > 0 && expired(q[0].0, now, ttl) {
        let r = q.drop_first();
        assert forall|i: int| 0 <= i < r.len() implies #[trigger] r[i].0 <= t by {
            assert(r[i] == q[i + 1]);
        }
        lemma_drop_keeps_bound(r, now, ttl, t);
        assert(drop_expired_front(q, now, ttl) == drop_expired_front(r, now, ttl));
    } else {
        assert(drop_expired_front(q, now, ttl) == q);
    }
}

/// The stored queues of a storage, by the text of their key.
pub open spec fn queues_view<V>(inner: Seq<(String, VecDeque<(u64, V)>)>) -> Map<
    Seq<char>,
    Seq<(u64, V)>,
> {
    named_view(inner).map_values(|q: VecDeque<(u64, V)>| q@)
}

impl<V> TtlBufferHashMapStorage<V> {
    #[verifier::type_invariant]
    spec fn keys_distinct(self) -> bool {
        &&& names_distinct(self.inner@)
        &&& stamped_no_later(queues_view(self.inner@), self.latest)
    }

    /// The latest time the storage has read or been given: no value it holds was set later.
    pub closed spec fn latest_reading(&self) -> u64 {
        self.latest
    }

    /// The queue of (time set, value) pairs of each key, oldest first.
    pub closed spec fn view(&self) -> Map<Seq<char>, Seq<(u64, V)>> {
        queues_view(self.inner@)
    }

    /// The time to live of values, in nanoseconds.
    pub closed spec fn ttl_of(&self) -> Option<u64> {
        self.ttl
    }

    /// An empty storage whose values live `ttl` nanoseconds (forever when `None`).
    pub fn new(ttl: Option<u64>) -> (s: Self)
        ensures
            s.view() == Map::<Seq<char>, Seq<(u64, V)>>::empty(),
            s.ttl_of() == ttl,
            s.latest_reading() == 0,
    {
        let ghost empty_inner = Seq::<(String, VecDeque<(u64, V)>)>::empty();
        proof {
            assert(named_view(empty_inner) =~= Map::<Seq<char>, VecDeque<(u64, V)>>::empty());
            assert(queues_view(empty_inner) =~= Map::<Seq<char>, Seq<(u64, V)>>::empty());
        }
        let s = TtlBufferHashMapStorage { ttl, origin: instant_now(), latest: 0, inner: Vec::new() };
        s
    }

    /// Appends `value`, set at time `now`, to the values of `key`.
    pub fn set_at(&mut self, key: String, value: V, now: u64)
        ensures
            final(self).ttl_of() == old(self).ttl_of(),
            final(self).view() == after_set(old(self).view(), key@, value, now),
            final(self).latest_reading() == (if now > old(self).latest_reading() {
                now
            } else {
                old(self).latest_reading()
            }),
            stamped_no_later(final(self).view(), final(self).latest_reading()),
    {
        proof {
            use_type_invariant(&*self);
        }
        if now > self.latest {
            self.latest = now;
        }
        let ghost v0 = self.view();
        let mut inner = Vec::new();
        std::mem::swap(&mut inner, &mut self.inner);
        let ghost n0 = named_view(inner@);
        let mut queue = match find_name(&inner, &key) {
            Some(i) => take_named(&mut inner, i).1,
            None => VecDeque::new(),
        };
        let ghost q0 = queue@;
        queue.push_back((now, value));
        put_named(&mut inner, key, queue);
        proof {
            assert(named_view(inner@) == n0.remove(key@).insert(key@, queue));
            assert(queues_view(inner@) =~= after_set(v0, key@, value, now));
            let v1 = after_set(v0, key@, value, now);
            assert forall|k: Seq<char>, i: int|
                v1.contains_key(k) && 0 <= i < v1[k].len() implies #[trigger] v1[k][i].0
                <= self.latest by {
                if k != key@ {
                    assert(v0.contains_key(k));
                    assert(v1[k][i] == v0[k][i]);
                } else if v0.contains_key(key@) && i < v0[key@].len() {
                    assert(v1[k][i] == v0[key@][i]);
                }
            }
        }
        self.inner = inner;
    }
}

impl<V: Clone> TtlBufferHashMapStorage<V> {
    /// At time `now`: drops the expired values at the front of the queue of `key` and gives
    /// clones of the values left, oldest first; `None` when the key has no value left.
    pub fn get_at(&mut self, key: &str, now: u64) -> (r: Option<Vec<V>>)
        ensures
            final(self).ttl_of() == old(self).ttl_of(),
            !old(self).view().contains_key(key@) ==> r is None && final(self).view() == old(
                self,
            ).view(),
            old(self).view().contains_key(key@) ==> {
                let left = drop_expired_front(old(self).view()[key@], now, old(self).ttl_of());
                &&& final(self).view() == old(self).view().insert(key@, left)
                &&& (left.len() == 0 <==> r is None)
                &&& r matches Some(values) ==> values@.len() == left.len() && forall|i: int|
                    0 <= i < left.len() ==> cloned::<V>(left[i].1, #[trigger] values@[i])
            },
            final(self).latest_reading() == (if now > old(self).latest_reading() {
                now
            } else {
                old(self).latest_reading()
            }),
            stamped_no_later(final(self).view(), final(self).latest_reading()),
    {
        proof {
            use_type_invariant(&*self);
        }
        if now > self.latest {
            self.latest = now;
        }
        let ghost v0 = self.view();
        let k = String::from_str(key);
        let i = match find_name(&self.inner, &k) {
            Some(i) => i,
            None => {
                proof {
                    assert(!v0.contains_key(key@));
                }
                return None;
            },
        };
        let mut inner = Vec::new();
        std::mem::swap(&mut inner, &mut self.inner);
        let ghost n0 = named_view(inner@);
        let (name, mut queue) = take_named(&mut inner, i);
        let ghost q0 = queue@;
        let ttl = self.ttl;
        loop
            invariant
                drop_expired_front(queue@, now, ttl) == drop_expired_front(q0, now, ttl),
            ensures
                queue@ == drop_expired_front(q0, now, ttl),
            decreases queue@.len(),
        {
            if queue.len() == 0 {
                break;
            }
            let t = queue[0].0;
            let age = if now >= t {
                now - t
            } else {
                0
            };
            match ttl {
                Some(d) => {
                    if age >= d {
                        let ghost before = queue@;
                        queue.pop_front();
                        proof {
                            assert(queue@ =~= before.drop_first());
                        }
                    } else {
                        break;
                    }
                },
                None => {
                    break;
                },
            }
        }
        let mut values: Vec<V> = Vec::new();
        let n = queue.len();
        let mut j: usize = 0;
        while j < n
            invariant
                j <= n,
                n == queue@.len(),
                values@.len() == j,
                forall|a: int| 0 <= a < j ==> cloned::<V>(queue@[a].1, #[trigger] values@[a]),
            decreases n - j,
        {
            values.push(queue[j].1.clone());
            j = j + 1;
        }
        let ghost left = queue@;
        put_named(&mut inner, name, queue);
        proof {
            assert(named_view(inner@) == n0.remove(key@).insert(key@, queue));
            assert(queues_view(inner@) =~= v0.insert(key@, left));
            let q = v0[key@];
            assert forall|i: int| 0 <= i < q.len() implies #[trigger] q[i].0 <= self.latest by {
                assert(v0.contains_key(key@));
            }
            lemma_drop_keeps_bound(q, now, ttl, self.latest);
            let v1 = v0.insert(key@, left);
            assert forall|k: Seq<char>, i: int|
                v1.contains_key(k) && 0 <= i < v1[k].len() implies #[trigger] v1[k][i].0
                <= self.latest by {
                if k != key@ {
                    assert(v1[k][i] == v0[k][i]);
                }
            }
        }
        self.inner = inner;
        if n == 0 {
            None
        } else {
            Some(values)
        }
    }
}

impl<V> TtlBufferHashMapStorage<V> {
    /// The time the clock reads, in nanoseconds since the storage was made; never earlier
    /// than a time the storage has already read or been given.
    fn clock_reading(&self) -> (t: u64)
        ensures
            t >= self.latest_reading(),
    {
        let t = nanos_since(&self.origin);
        if t < self.latest {
            self.latest
        } else {
            t
        }
    }
}

impl<V: Clone + Send + Sync> TtlBufferStorage<V> for TtlBufferHashMapStorage<V> {
    /// Appends `value` to the values of `key`, stamped with the time the clock reads: no
    /// earlier than any time the storage read before, nor than the time of any value held.
    fn set(&mut self, key: String, value: V)
        ensures
            final(self).ttl_of() == old(self).ttl_of(),
            exists|now: u64|
                {
                    &&& final(self).view() == #[trigger] after_set(old(self).view(), key@, value, now)
                    &&& now >= old(self).latest_reading()
                    &&& final(self).latest_reading() == now
                    &&& stamped_no_later(old(self).view(), now)
                },
    {
        proof {
            use_type_invariant(&*self);
        }
        let now = self.clock_reading();
        self.set_at(key, value, now);
        proof {
            assert(final(self).view() == after_set(old(self).view(), key@, value, now));
        }
    }

    /// The values of `key` that have not expired by the time the clock reads (no earlier
    /// than any time the storage read before), oldest first; the expired values at the front
    /// are dropped.
    fn get(&mut self, key: &str) -> (r: Option<Vec<V>>)
        ensures
            final(self).ttl_of() == old(self).ttl_of(),
            !old(self).view().contains_key(key@) ==> r is None && final(self).view() == old(
                self,
            ).view(),
            exists|now: u64|
                {
                    let left = #[trigger] values_left(old(self).view(), key@, now, old(self).ttl_of());
                    &&& now >= old(self).latest_reading()
                    &&& final(self).latest_reading() == now
                    &&& old(self).view().contains_key(key@) ==> {
                        &&& final(self).view() == old(self).view().insert(key@, left)
                        &&& (left.len() == 0 <==> r is None)
                        &&& r matches Some(values) ==> values@.len() == left.len() && forall|i: int|
                            0 <= i < left.len() ==> cloned::<V>(left[i].1, #[trigger] values@[i])
                    }
                },
    {
        let now = self.clock_reading();
        let r = self.get_at(key, now);
        proof {
            let _ = values_left(old(self).view(), key@, now, old(self).ttl_of());
        }
        r
    }
}

/// When the times of a queue never decrease, the values left after dropping the expired
/// front are exactly those that have not expired, in their order.
pub proof fn lemma_drop_front_is_filter<V>(q: Seq<(u64, V)>, now: u64, ttl: Option<u64>)
    requires
        times_ordered(q),
    ensures
        drop_expired_front(q, now, ttl) == q.filter(|e: (u64, V)| !expired(e.0, now, ttl)),
    decreases q.len(),
{
    let keep = |e: (u64, V)| !expired(e.0, now, ttl);
    reveal_with_fuel(Seq::filter, 2);
    if q.len() == 0 {
        assert(q.filter(keep) =~= Seq::<(u64, V)>::empty());
    } else if expired(q[0].0, now, ttl) {
        let rest = q.drop_first();
        assert(times_ordered(rest)) by {
            assert forall|i: int, j: int| 0 <= i <= j < rest.len() implies rest[i].0 <= rest[j].0 by {
                assert(rest[i] == q[i + 1]);
                assert(rest[j] == q[j + 1]);
            }
        }
        lemma_drop_front_is_filter(rest, now, ttl);
        lemma_filter_drop_first(q, keep);
    } else {
        // The oldest value has not expired, so no later one has.
        assert forall|i: int| 0 <= i < q.len() implies keep(q[i]) by {
            assert(q[0].0 <= q[i].0);
        }
        lemma_filter_all(q, keep);
    }
}

proof fn lemma_filter_drop_first<A>(q: Seq<A>, keep: spec_fn(A) -> bool)
    requires
        q.len() > 0,
        !keep(q[0]),
    ensures
        q.filter(keep) == q.drop_first().filter(keep),
    decreases q.len(),
{
    reveal_with_fuel(Seq::filter, 1);
    let r = q.drop_first();
    if r.len() == 0 {
        assert(q =~= seq![q[0]]);
        assert(q.drop_last() =~= Seq::<A>::empty());
        assert(q.drop_last().filter(keep) =~= Seq::<A>::empty()) by {
            reveal_with_fuel(Seq::filter, 1);
        }
        assert(q.filter(keep) =~= Seq::<A>::empty());
        assert(r.filter(keep) =~= Seq::<A>::empty());
    } else {
        let q1 = q.drop_last();
        lemma_filter_drop_first(q1, keep);
        assert(q1.drop_first() =~= r.drop_last());
        assert(q.last() == r.last());
    }
}

proof fn lemma_filter_all<A>(q: Seq<A>, keep: spec_fn(A) -> bool)
    requires
        forall|i: int| 0 <= i < q.len() ==> keep(q[i]),
    ensures
        q.filter(keep) == q,
    decreases q.len(),
{
    reveal_with_fuel(Seq::filter, 1);
    if q.len() > 0 {
        lemma_filter_all(q.drop_last(), keep);
        assert(q.drop_last().push(q.last()) =~= q);
    } else {
        assert(q.filter(keep) =~= q);
    }
}

/// Setting a value at a time no earlier than the key's latest keeps its times ordered.
pub proof fn lemma_set_keeps_times_ordered<V>(q: Seq<(u64, V)>, now: u64, value: V)
    requires
        times_ordered(q),
        q.len() > 0 ==> q.last().0 <= now,
    ensures
        times_ordered(q.push((now, value))),
{
    let q1 = q.push((now, value));
    assert forall|i: int, j: int| 0 <= i <= j < q1.len() implies q1[i].0 <= q1[j].0 by {
        if j == q.len() && i < j {
            assert(q[i].0 <= q[q.len() - 1].0);
        }
    }
}

/// Without a time to live nothing expires: after a set, the values of the key are those it
/// held followed by the new one and a get at any later time drops none of them, so two gets
/// with no set between them find the same values; other keys keep theirs.
pub proof fn lemma_no_ttl_keeps_everything<V>(
    v: Map<Seq<char>, Seq<(u64, V)>>,
    key: Seq<char>,
    value: V,
    now: u64,
    later: u64,
    other: Seq<char>,
)
    ensures
        after_set(v, key, value, now)[key] == (if v.contains_key(key) {
            v[key]
        } else {
            Seq::empty()
        }).push((now, value)),
        values_left(after_set(v, key, value, now), key, later, None) == after_set(
            v,
            key,
            value,
            now,
        )[key],
        v.contains_key(other) ==> drop_expired_front(v[other], later, None) == v[other],
        other != key ==> after_set(v, key, value, now).contains_key(other) == v.contains_key(
            other,
        ),
        other != key && v.contains_key(other) ==> after_set(v, key, value, now)[other] == v[other],
{
    lemma_nothing_expires(after_set(v, key, value, now)[key], later);
    if v.contains_key(other) {
        lemma_nothing_expires(v[other], later);
    }
}

/// The values a key held before a write, none when it held none.
pub open spec fn held_values<V>(v: Map<Seq<char>, Seq<(u64, V)>>, key: Seq<char>) -> Seq<(u64, V)> {
    if v.contains_key(key) {
        v[key]
    } else {
        Seq::empty()
    }
}

/// A get after a set, without a time to live: once `set_at` has appended `value` at `now`
/// to the values of `key`, a `get_at` of `key` at any time `later` gives clones of the values
/// the key held followed by a clone of `value`, and leaves the storage as it found it, so a
/// second get with no set between gives the same values (`after_get` and `r` are the view
/// and the result that `get_at`'s contract states).
pub proof fn lemma_get_after_set_without_ttl<V: Clone>(
    before: Map<Seq<char>, Seq<(u64, V)>>,
    key: Seq<char>,
    value: V,
    now: u64,
    later: u64,
    after_get: Map<Seq<char>, Seq<(u64, V)>>,
    r: Option<Vec<V>>,
)
    requires
        after_get == after_set(before, key, value, now).insert(
            key,
            drop_expired_front(after_set(before, key, value, now)[key], later, None),
        ),
        drop_expired_front(after_set(before, key, value, now)[key], later, None).len() == 0
            <==> r is None,
        r matches Some(values) ==> {
            let left = drop_expired_front(after_set(before, key, value, now)[key], later, None);
            &&& values@.len() == left.len()
            &&& forall|i: int| 0 <= i < left.len() ==> cloned::<V>(left[i].1, #[trigger] values@[i])
        },
    ensures
        after_get == after_set(before, key, value, now),
        r matches Some(values) && {
            let held = held_values(before, key);
            &&& values@.len() == held.len() + 1
            &&& forall|i: int| 0 <= i < held.len() ==> cloned::<V>(held[i].1, #[trigger] values@[i])
            &&& cloned::<V>(value, values@[held.len() as int])
        },
{
    let mid = after_set(before, key, value, now);
    let held = held_values(before, key);
    lemma_nothing_expires(mid[key], later);
    assert(mid[key] == held.push((now, value)));
    assert(mid.insert(key, mid[key]) =~= mid);
    let values = r->0;
    assert forall|i: int| 0 <= i < held.len() implies cloned::<V>(held[i].1, #[trigger] values@[i]) by {
        assert(mid[key][i] == held[i]);
    }
    assert(mid[key][held.len() as int] == (now, value));
}

/// A value that has not expired is returned: when the newest value of a queue has not
/// expired at `later`, dropping the expired front keeps it, as the last value left.
pub proof fn lemma_unexpired_last_kept<V>(q: Seq<(u64, V)>, later: u64, ttl: Option<u64>)
    requires
        q.len() > 0,
        !expired(q.last().0, later, ttl),
    ensures
        drop_expired_front(q, later, ttl).len() > 0,
        drop_expired_front(q, later, ttl).last() == q.last(),
    decreases q.len(),
{
    if expired(q[0].0, later, ttl) {
        let r = q.drop_first();
        assert(q.len() > 1);
        assert(r.last() == q.last());
        lemma_unexpired_last_kept(r, later, ttl);
    }
}

/// A value is not returned once its time to live has passed: when every value of a queue
/// was set no later than `t` and `later` is at least `d` after `t`, all of them are dropped.
pub proof fn lemma_expired_all_dropped<V>(q: Seq<(u64, V)>, t: u64, later: u64, d: u64)
    requires
        forall|i: int| 0 <= i < q.len() ==> #[trigger] q[i].0 <= t,
        later >= t + d,
    ensures
        drop_expired_front(q, later, Some(d)).len() == 0,
    decreases q.len(),
{
    if q.len() > 0 {
        assert(q[0].0 <= t);
        let r = q.drop_first();
        assert forall|i: int| 0 <= i < r.len() implies #[trigger] r[i].0 <= t by {
            assert(r[i] == q[i + 1]);
        }
        lemma_expired_all_dropped(r, t, later, d);
    }
}

/// What a get finds after a set stamped at `now`, with a time to live `d`: the value set is
/// the last one returned while the reading is less than `d` after `now`, and once the
/// reading is `d` or more after `now` nothing of the key is returned (every value it held
/// was set no later than `now`).
pub proof fn lemma_get_after_set_with_ttl<V>(
    before: Map<Seq<char>, Seq<(u64, V)>>,
    key: Seq<char>,
    value: V,
    now: u64,
    later: u64,
    d: u64,
)
    requires
        stamped_no_later(before, now),
        later >= now,
    ensures
        later < now + d ==> {
            let left = values_left(after_set(before, key, value, now), key, later, Some(d));
            &&& left.len() > 0
            &&& left.last() == (now, value)
        },
        later >= now + d ==> values_left(after_set(before, key, value, now), key, later, Some(d)).len()
            == 0,
{
    let q = after_set(before, key, value, now)[key];
    let held = held_values(before, key);
    assert(q == held.push((now, value)));
    if later < now + d {
        lemma_unexpired_last_kept(q, later, Some(d));
    } else {
        assert forall|i: int| 0 <= i < q.len() implies #[trigger] q[i].0 <= now by {
            if i < held.len() {
                assert(q[i] == before[key][i]);
                assert(before.contains_key(key));
            }
        }
        lemma_expired_all_dropped(q, now, later, d);
    }
}

/// Without a time to live no value of a queue is dropped.
proof fn lemma_nothing_expires<V>(q: Seq<(u64, V)>, now: u64)
    ensures
        drop_expired_front(q, now, None) == q,
{
}

} // verus!
