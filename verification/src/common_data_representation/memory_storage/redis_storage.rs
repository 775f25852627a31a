//! A storage backed by Redis: values are kept in a local cache, with an expiry when a time
//! to live is set, and every write is queued for the Redis backend.

use vstd::prelude::*;
use vstd::string::StringExecFns;
use crate::clock::{instant_now, nanos_since};
use crate::keyed::{find_name, lemma_named_view_at, named_view, names_distinct, put_named};
use super::MemoryStorage;

verus! {

/// The time at which a value set at `now` expires: `now + ttl`, or never.
pub open spec fn expiry(now: u64, ttl: Option<u64>) -> Option<u128> {
    match ttl {
        Some(d) => Some((now + d) as u128),
        None => None,
    }
}

/// Whether a cached value with the given expiry has expired at `now`.
pub open spec fn has_expired(expires: Option<u128>, now: u64) -> bool {
    match expires {
        Some(e) => e <= now,
        None => false,
    }
}

/// Whether a value is cached under `key` and has not expired at `now`.
pub open spec fn live_at<V>(cache: Map<Seq<char>, (V, Option<u128>)>, key: Seq<char>, now: u64) -> bool {
    cache.contains_key(key) && !has_expired(cache[key].1, now)
}

/// A storage backed by Redis. Reads are answered from the local cache; writes update the
/// cache and are queued (key, value, time to live) for the backend, which drains them with
/// `take_pending`.
pub struct RedisStorage<V> {
    ttl: Option<u64>,
    socket_path: String,
    origin: std::time::Instant,
    latest: u64,
    cache: Vec<(String, (V, Option<u128>))>,
    pending: Vec<(String, V, Option<u64>)>,
}

impl<V> RedisStorage<V> {
    #[verifier::type_invariant]
    spec fn keys_distinct(self) -> bool {
        names_distinct(self.cache@)
    }

    /// The latest time the storage has read or been given: every value it caches was set no
    /// later.
    pub closed spec fn latest_reading(&self) -> u64 {
        self.latest
    }

    /// The cached values with their expiry, by the text of their key.
    pub closed spec fn view(&self) -> Map<Seq<char>, (V, Option<u128>)> {
        named_view(self.cache@)
    }

    /// The writes not yet handed to the backend, oldest first.
    pub closed spec fn pending_writes(&self) -> Seq<(String, V, Option<u64>)> {
        self.pending@
    }

    /// The time to live of values, in nanoseconds.
    pub closed spec fn ttl_of(&self) -> Option<u64> {
        self.ttl
    }

    /// The path of the Redis unix socket.
    pub closed spec fn socket_path_of(&self) -> Seq<char> {
        self.socket_path@
    }

    /// An empty storage for the Redis server at `socket_path`, whose values live `ttl`
    /// nanoseconds (forever when `None`).
    pub fn new(ttl: Option<u64>, socket_path: &str) -> (s: Self)
        ensures
            s.view() == Map::<Seq<char>, (V, Option<u128>)>::empty(),
            s.pending_writes() == Seq::<(String, V, Option<u64>)>::empty(),
            s.ttl_of() == ttl,
            s.socket_path_of() == socket_path@,
            s.latest_reading() == 0,
    {
        let s = RedisStorage {
            ttl,
            socket_path: String::from_str(socket_path),
            origin: instant_now(),
            latest: 0,
            cache: Vec::new(),
            pending: Vec::new(),
        };
        proof {
            assert(named_view(s.cache@) =~= Map::<Seq<char>, (V, Option<u128>)>::empty());
        }
        s
    }

    /// The path of the Redis unix socket.
    pub fn socket_path(&self) -> (p: &str)
        ensures
            p@ == self.socket_path_of(),
    {
        self.socket_path.as_str()
    }

    /// Hands over the queued writes, oldest first, and empties the queue.
    pub fn take_pending(&mut self) -> (w: Vec<(String, V, Option<u64>)>)
        ensures
            w@ == old(self).pending_writes(),
            final(self).pending_writes() == Seq::<(String, V, Option<u64>)>::empty(),
            final(self).view() == old(self).view(),
            final(self).ttl_of() == old(self).ttl_of(),
            final(self).socket_path_of() == old(self).socket_path_of(),
            final(self).latest_reading() == old(self).latest_reading(),
    {
        proof {
            use_type_invariant(&*self);
        }
        let mut w = Vec::new();
        std::mem::swap(&mut w, &mut self.pending);
        w
    }
}

impl<V: Clone> RedisStorage<V> {
    /// At time `now`: caches a clone of `value` under `key`, expiring `ttl` after `now`, and
    /// queues the write for the backend.
    pub fn set_at(&mut self, key: String, value: V, now: u64)
        ensures
            final(self).view().contains_key(key@),
            final(self).view() == old(self).view().insert(key@, final(self).view()[key@]),
            cloned::<V>(value, final(self).view()[key@].0),
            final(self).view()[key@].1 == expiry(now, old(self).ttl_of()),
            final(self).pending_writes() == old(self).pending_writes().push(
                (key, value, old(self).ttl_of()),
            ),
            final(self).ttl_of() == old(self).ttl_of(),
            final(self).socket_path_of() == old(self).socket_path_of(),
            final(self).latest_reading() == (if now > old(self).latest_reading() {
                now
            } else {
                old(self).latest_reading()
            }),
    {
        proof {
            use_type_invariant(&*self);
        }
        if now > self.latest {
            self.latest = now;
        }
        let expires: Option<u128> = match self.ttl {
            Some(d) => Some(now as u128 + d as u128),
            None => None,
        };
        let cached = value.clone();
        let mut cache = Vec::new();
        std::mem::swap(&mut cache, &mut self.cache);
        put_named(&mut cache, key.clone(), (cached, expires));
        self.cache = cache;
        let ttl = self.ttl;
        let mut pending = Vec::new();
        std::mem::swap(&mut pending, &mut self.pending);
        pending.push((key, value, ttl));
        self.pending = pending;
    }

    /// At time `now`: a clone of the value cached under `key`, unless there is none or it
    /// has expired.
    pub fn get_at(&self, key: &str, now: u64) -> (r: Option<V>)
        ensures
            r is Some <==> self.view().contains_key(key@) && !has_expired(
                self.view()[key@].1,
                now,
            ),
            r matches Some(v) ==> cloned::<V>(self.view()[key@].0, v),
    {
        proof {
            use_type_invariant(self);
        }
        let k = String::from_str(key);
        match find_name(&self.cache, &k) {
            Some(i) => {
                proof {
                    lemma_named_view_at(self.cache@, i as int);
                }
                let entry = &self.cache[i].1;
                match entry.1 {
                    Some(expires) => {
                        if expires <= now as u128 {
                            return None;
                        }
                    },
                    None => {},
                }
                Some(entry.0.clone())
            },
            None => None,
        }
    }
}

impl<V> RedisStorage<V> {
    /// The time the clock reads, in nanoseconds since the storage was made; never earlier
    /// than a time the storage has already read or been given.
    fn clock_reading(&self) -> (t: u64)
        ensures
            t >= self.latest_reading(),
    {
        let t = nanos_since(&self.origin);
        if t < self.latest {
            self.latest
        } else {
            t
        }
    }
}

impl<V: Clone + Send + Sync> MemoryStorage<V> for RedisStorage<V> {
    /// Caches `value` under `key` with an expiry counted from the time the clock reads (no
    /// earlier than any time the storage read before), and queues the write.
    fn set(&mut self, key: String, value: V)
        ensures
            final(self).view().contains_key(key@),
            final(self).view() == old(self).view().insert(key@, final(self).view()[key@]),
            cloned::<V>(value, final(self).view()[key@].0),
            exists|now: u64|
                {
                    &&& final(self).view()[key@].1 == #[trigger] expiry(now, old(self).ttl_of())
                    &&& now >= old(self).latest_reading()
                    &&& final(self).latest_reading() == now
                },
            final(self).pending_writes() == old(self).pending_writes().push(
                (key, value, old(self).ttl_of()),
            ),
            final(self).ttl_of() == old(self).ttl_of(),
            final(self).socket_path_of() == old(self).socket_path_of(),
    {
        let now = self.clock_reading();
        self.set_at(key, value, now);
    }

    /// The cached value of `key`, unless there is none or it has expired by the time the
    /// clock reads (no earlier than any time the storage read before).
    fn get(&self, key: &str) -> (r: Option<V>)
        ensures
            exists|now: u64|
                #[trigger] live_at(self.view(), key@, now) == (r is Some) && now
                    >= self.latest_reading(),
            r matches Some(v) ==> cloned::<V>(self.view()[key@].0, v),
    {
        let now = self.clock_reading();
        let r = self.get_at(key, now);
        proof {
            assert(live_at(self.view(), key@, now) == (r is Some));
        }
        r
    }
}

/// A value set at `now` reads back until its time to live has passed, and not from then on;
/// without a time to live it never expires.
pub proof fn lemma_expiry(now: u64, ttl: Option<u64>, later: u64)
    ensures
        ttl is None ==> !has_expired(expiry(now, ttl), later),
        ttl matches Some(d) ==> (has_expired(expiry(now, ttl), later) <==> later >= now + d),
{
}

/// A read after a write of the cache: with the view a `set_at` of `key` at `now` leaves, a
/// `get_at` of `key` at `later` gives a value exactly while the time to live has not passed
/// since `now` (always without one), and that value is a clone of the one cached, itself a
/// clone of the one written (`r` is what `get_at` returns, as its contract states it).
pub proof fn lemma_get_after_set<V: Clone>(
    before: Map<Seq<char>, (V, Option<u128>)>,
    after: Map<Seq<char>, (V, Option<u128>)>,
    key: Seq<char>,
    value: V,
    now: u64,
    later: u64,
    ttl: Option<u64>,
    r: Option<V>,
)
    requires
        after.contains_key(key),
        after == before.insert(key, after[key]),
        cloned::<V>(value, after[key].0),
        after[key].1 == expiry(now, ttl),
        r is Some <==> after.contains_key(key) && !has_expired(after[key].1, later),
        r matches Some(v) ==> cloned::<V>(after[key].0, v),
    ensures
        r is Some <==> (ttl is None || later < now + ttl->0),
        r matches Some(v) ==> cloned::<V>(after[key].0, v) && cloned::<V>(value, after[key].0),
{
    lemma_expiry(now, ttl, later);
}

} // verus!
