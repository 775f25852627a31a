//! Storages backed by Redis: the address of the server and the key of each buffer.

use vstd::prelude::*;
use vstd::string::StringExecFns;

verus! {

/// The digit for `d` (0 to 9).
pub open spec fn digit_char(d: nat) -> char {
    if d == 0 {
        '0'
    } else if d == 1 {
        '1'
    } else if d == 2 {
        '2'
    } else if d == 3 {
        '3'
    } else if d == 4 {
        '4'
    } else if d == 5 {
        '5'
    } else if d == 6 {
        '6'
    } else if d == 7 {
        '7'
    } else if d == 8 {
        '8'
    } else {
        '9'
    }
}

/// The decimal digits of a number, most significant first, without leading zeros.
pub open spec fn decimal_text(n: nat) -> Seq<char>
    decreases n,
{
    if n < 10 {
        seq![digit_char(n)]
    } else {
        decimal_text(n / 10).push(digit_char(n % 10))
    }
}

/// The number a digit character stands for.
pub open spec fn digit_value(c: char) -> nat {
    if c == '0' {
        0
    } else if c == '1' {
        1
    } else if c == '2' {
        2
    } else if c == '3' {
        3
    } else if c == '4' {
        4
    } else if c == '5' {
        5
    } else if c == '6' {
        6
    } else if c == '7' {
        7
    } else if c == '8' {
        8
    } else {
        9
    }
}

/// The number a text of decimal digits stands for, most significant digit first.
pub open spec fn text_value(s: Seq<char>) -> nat
    decreases s.len(),
{
    if s.len() == 0 {
        0
    } else {
        text_value(s.drop_last()) * 10 + digit_value(s.last())
    }
}

/// The decimal text of a number reads back as that number.
pub proof fn lemma_text_value(n: nat)
    ensures
        text_value(decimal_text(n)) == n,
    decreases n,
{
    let s = decimal_text(n);
    if n < 10 {
        assert(digit_value(digit_char(n)) == n);
        assert(s.drop_last() =~= Seq::<char>::empty());
        assert(s.last() == digit_char(n));
        assert(text_value(s) == text_value(s.drop_last()) * 10 + digit_value(s.last()));
    } else {
        lemma_text_value(n / 10);
        let d = n % 10;
        assert(d < 10);
        assert(digit_value(digit_char(d)) == d);
        assert(s.drop_last() =~= decimal_text(n / 10));
        assert(s.last() == digit_char(d));
        assert(text_value(s) == text_value(s.drop_last()) * 10 + digit_value(s.last()));
        assert((n / 10) * 10 + n % 10 == n);
    }
}

/// The key of buffer number `id`: `mma:expiration_buffer:{id}`.
pub open spec fn buffer_key(id: u64) -> Seq<char> {
    "mma:expiration_buffer:"@ + decimal_text(id as nat)
}

/// Buffers with different numbers have different keys, so what is added to one never shows
/// in another.
pub proof fn lemma_distinct_ids_distinct_keys(a: u64, b: u64)
    requires
        a != b,
    ensures
        buffer_key(a) != buffer_key(b),
{
    lemma_text_value(a as nat);
    lemma_text_value(b as nat);
    let p = "mma:expiration_buffer:"@;
    if buffer_key(a) == buffer_key(b) {
        let ka = buffer_key(a);
        let kb = buffer_key(b);
        assert(ka.subrange(p.len() as int, ka.len() as int) =~= decimal_text(a as nat));
        assert(kb.subrange(p.len() as int, kb.len() as int) =~= decimal_text(b as nat));
    }
}

fn digit_text(d: u64) -> (s: &'static str)
    requires
        d < 10,
    ensures
        s@ == seq![digit_char(d as nat)],
{
    proof {
        reveal_strlit("0");
        reveal_strlit("1");
        reveal_strlit("2");
        reveal_strlit("3");
        reveal_strlit("4");
        reveal_strlit("5");
        reveal_strlit("6");
        reveal_strlit("7");
        reveal_strlit("8");
        reveal_strlit("9");
    }
    let s = if d == 0 {
        "0"
    } else if d == 1 {
        "1"
    } else if d == 2 {
        "2"
    } else if d == 3 {
        "3"
    } else if d == 4 {
        "4"
    } else if d == 5 {
        "5"
    } else if d == 6 {
        "6"
    } else if d == 7 {
        "7"
    } else if d == 8 {
        "8"
    } else {
        "9"
    };
    proof {
        assert(s@ =~= seq![digit_char(d as nat)]);
    }
    s
}

/// A number written in decimal, as `format!("{}")` writes it.
pub fn number_text(n: u64) -> (s: String)
    ensures
        s@ == decimal_text(n as nat),
    decreases n,
{
    if n < 10 {
        String::from_str(digit_text(n))
    } else {
        let mut s = number_text(n / 10);
        s.append(digit_text(n % 10));
        s
    }
}

/// The address of the Redis server at a unix socket: `redis+unix://{socket_path}`.
pub fn redis_url(socket_path: &str) -> (url: String)
    ensures
        url@ == "redis+unix://"@ + socket_path@,
{
    String::from_str("redis+unix://").concat(socket_path)
}

/// The arguments of the `SET` command that writes `value` under `key`: with `EX` and the
/// time to live in whole seconds when there is one (`ttl` is in nanoseconds).
pub open spec fn spec_set_arguments(key: Seq<char>, value: Seq<char>, ttl: Option<u64>) -> Seq<
    Seq<char>,
> {
    match ttl {
        Some(t) => seq![key, value, "EX"@, decimal_text((t / 1_000_000_000) as nat)],
        None => seq![key, value],
    }
}

/// The arguments of the `SET` command that writes `value` under `key`, expiring after `ttl`
/// nanoseconds (counted in whole seconds) when there is one.
pub fn set_arguments(key: &str, value: &str, ttl: Option<u64>) -> (args: Vec<String>)
    ensures
        args@.map_values(|a: String| a@) == spec_set_arguments(key@, value@, ttl),
{
    let mut args: Vec<String> = Vec::new();
    args.push(String::from_str(key));
    args.push(String::from_str(value));
    match ttl {
        Some(t) => {
            args.push(String::from_str("EX"));
            args.push(number_text(t / 1_000_000_000));
        },
        None => {},
    }
    proof {
        assert(args@.map_values(|a: String| a@) =~= spec_set_arguments(key@, value@, ttl));
    }
    args
}

/// A buffer of values that expire, kept in a Redis sorted set scored by the time of each
/// value.
pub struct RedisExpirationBuffer {
    url: String,
    key: String,
    ttl: u64,
}

impl RedisExpirationBuffer {
    /// The server address.
    pub closed spec fn url_view(&self) -> Seq<char> {
        self.url@
    }

    /// The key of the sorted set.
    pub closed spec fn key_view(&self) -> Seq<char> {
        self.key@
    }

    /// How long values are kept, in seconds.
    pub closed spec fn ttl_view(&self) -> u64 {
        self.ttl
    }

    /// The buffer number `id` of the Redis server at `socket_path`, keeping values for
    /// `ttl` seconds; its key is `mma:expiration_buffer:{id}`.
    pub fn new(socket_path: &str, ttl: u64, id: u64) -> (b: Self)
        ensures
            b.url_view() == "redis+unix://"@ + socket_path@,
            b.key_view() == buffer_key(id),
            b.ttl_view() == ttl,
    {
        let key = String::from_str("mma:expiration_buffer:").concat(number_text(id).as_str());
        RedisExpirationBuffer { url: redis_url(socket_path), key, ttl }
    }

    /// The server address.
    pub fn url(&self) -> (u: &str)
        ensures
            u@ == self.url_view(),
    {
        self.url.as_str()
    }

    /// The key of the sorted set.
    pub fn key(&self) -> (k: &str)
        ensures
            k@ == self.key_view(),
    {
        self.key.as_str()
    }

    /// How long values are kept, in seconds.
    pub fn ttl(&self) -> (t: u64)
        ensures
            t == self.ttl_view(),
    {
        self.ttl
    }
}

/// Hands out the numbers of expiration buffers, one after another, so that each buffer of a
/// process gets a key of its own. The count wraps around after `u64::MAX`.
pub struct BufferIds {
    next: u64,
}

impl BufferIds {
    /// The number the next buffer gets.
    pub closed spec fn next_id(&self) -> u64 {
        self.next
    }

    /// Numbers handed out from zero.
    pub fn new() -> (ids: Self)
        ensures
            ids.next_id() == 0,
    {
        BufferIds { next: 0 }
    }

    /// A new buffer of the Redis server at `socket_path`, keeping values for `ttl` seconds,
    /// under the next number. Its key differs from that of every buffer numbered before it.
    pub fn next_buffer(&mut self, socket_path: &str, ttl: u64) -> (b: RedisExpirationBuffer)
        ensures
            b.url_view() == "redis+unix://"@ + socket_path@,
            b.key_view() == buffer_key(old(self).next_id()),
            b.ttl_view() == ttl,
            forall|i: u64| i < old(self).next_id() ==> buffer_key(i) != #[trigger] b.key_view(),
            final(self).next_id() == (if old(self).next_id() == u64::MAX {
                0
            } else {
                old(self).next_id() + 1
            }),
    {
        let id = self.next;
        let b = RedisExpirationBuffer::new(socket_path, ttl, id);
        proof {
            assert forall|i: u64| i < id implies buffer_key(i) != #[trigger] b.key_view() by {
                lemma_distinct_ids_distinct_keys(i, id);
            }
        }
        self.next = if id == u64::MAX {
            0
        } else {
            id + 1
        };
        b
    }
}

} // verus!
