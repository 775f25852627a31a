//! Key-value storages for the values a strategy keeps, and the choice of backend.

pub mod hashmap_storage;
pub mod redis_storage;
pub mod ttl_buffer_hashmap_storage;

use vstd::prelude::*;
use vstd::string::StringExecFns;
use crate::config::MemoryStorageConfig;
use self::hashmap_storage::HashMapStorage;
use self::redis_storage::{RedisStorage, expiry, live_at};

verus! {

/// A storage that holds one value per key.
pub trait MemoryStorage<V>: Send + Sync {
    /// Stores `value` under `key`.
    fn set(&mut self, key: String, value: V);

    /// The value stored under `key`, if any.
    fn get(&self, key: &str) -> Option<V>;
}

/// A storage that holds, per key, the values set within a time window.
pub trait TtlBufferStorage<V>: Send + Sync {
    /// Appends `value` to the values of `key`.
    fn set(&mut self, key: String, value: V);

    /// The values of `key` that have not expired, oldest first; `None` when there are none.
    fn get(&mut self, key: &str) -> Option<Vec<V>>;
}

/// A memory storage of either backend.
pub enum Storage<V> {
    HashMap(HashMapStorage<V>),
    Redis(RedisStorage<V>),
}

/// Whether the configuration names a backend that can be built: `hashmap`, or `redis`
/// with its Redis configuration.
pub open spec fn backend_is_known(cfg: MemoryStorageConfig) -> bool {
    cfg.backend@ == "hashmap"@ || (cfg.backend@ == "redis"@ && cfg.redis is Some)
}

/// An empty storage of the configured backend. A Redis storage keeps its values forever.
pub fn new_storage<V>(cfg: &MemoryStorageConfig) -> (s: Storage<V>)
    requires
        backend_is_known(*cfg),
    ensures
        cfg.backend@ == "hashmap"@ ==> s is HashMap && s->HashMap_0.view() == Map::<
            Seq<char>,
            V,
        >::empty(),
        cfg.backend@ == "redis"@ ==> {
            &&& s is Redis
            &&& s->Redis_0.view() == Map::<Seq<char>, (V, Option<u128>)>::empty()
            &&& s->Redis_0.pending_writes() == Seq::<(String, V, Option<u64>)>::empty()
            &&& s->Redis_0.ttl_of() is None
            &&& s->Redis_0.socket_path_of() == cfg.redis->0.socket_path@
        },
{
    let hashmap = String::from_str("hashmap");
    proof {
        reveal_strlit("hashmap");
        reveal_strlit("redis");
        assert("hashmap"@ != "redis"@) by {
            assert("hashmap"@[0] != "redis"@[0]);
        }
    }
    if cfg.backend == hashmap {
        Storage::HashMap(HashMapStorage::new())
    } else {
        match &cfg.redis {
            Some(redis) => Storage::Redis(RedisStorage::new(None, redis.socket_path.as_str())),
            None => {
                proof {
                    assert(false);
                }
                Storage::HashMap(HashMapStorage::new())
            },
        }
    }
}

impl<V: Clone + Send + Sync> MemoryStorage<V> for Storage<V> {
    /// Stores `value` under `key` in the backend.
    fn set(&mut self, key: String, value: V)
        ensures
            *old(self) is HashMap ==> *final(self) is HashMap && (*final(self))->HashMap_0.view() == (
                *old(self)
            )->HashMap_0.view().insert(key@, value),
            *old(self) is Redis ==> {
                let before = (*old(self))->Redis_0;
                let after = (*final(self))->Redis_0;
                &&& *final(self) is Redis
                &&& after.view().contains_key(key@)
                &&& after.view() == before.view().insert(key@, after.view()[key@])
                &&& cloned::<V>(value, after.view()[key@].0)
                &&& exists|now: u64|
                    {
                        &&& after.view()[key@].1 == #[trigger] expiry(now, before.ttl_of())
                        &&& now >= before.latest_reading()
                        &&& after.latest_reading() == now
                    }
                &&& after.pending_writes() == before.pending_writes().push(
                    (key, value, before.ttl_of()),
                )
                &&& after.ttl_of() == before.ttl_of()
            },
    {
        match self {
            Storage::HashMap(s) => s.set(key, value),
            Storage::Redis(s) => s.set(key, value),
        }
    }

    /// The value stored under `key` in the backend.
    fn get(&self, key: &str) -> (r: Option<V>)
        ensures
            *self is HashMap ==> {
                &&& (r is Some <==> (*self)->HashMap_0.view().contains_key(key@))
                &&& r matches Some(v) ==> cloned::<V>((*self)->HashMap_0.view()[key@], v)
            },
            *self is Redis ==> {
                &&& exists|now: u64|
                    #[trigger] live_at((*self)->Redis_0.view(), key@, now) == (r is Some) && now
                        >= (*self)->Redis_0.latest_reading()
                &&& r matches Some(v) ==> cloned::<V>((*self)->Redis_0.view()[key@].0, v)
            },
    {
        match self {
            Storage::HashMap(s) => s.get(key),
            Storage::Redis(s) => s.get(key),
        }
    }
}

} // verus!
