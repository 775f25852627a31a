//! The dYdX v4 exchange: the order book kept from the indexer's orders feed and the
//! conversion of its messages into the unified model.

use vstd::prelude::*;
use vstd::string::StringExecFns;
use crate::ccxt::{
    CcxtBalance,
    CcxtMarginMode,
    CcxtOrderBook,
    CcxtOrderBookLevel,
    CcxtOrderSide,
    CcxtPosition,
    CcxtPositionSide,
    CcxtTrade,
};
use crate::config::DydxConfig;
use crate::decimal::{Decimal, value_key, lemma_value_key};
use crate::exchange::Info;
use crate::keyed::{names_distinct, named_view, put_named};

verus! {

/// One level of an order book feed: a price and the size resting at it. A zero size
/// removes the level.
#[derive(Debug, Clone, Copy)]
pub struct PriceLevel {
    pub price: Decimal,
    pub size: Decimal,
}

/// A level held in the book: its price, its size and the sequence number it was given
/// when it was last set.
#[derive(Debug, Clone, Copy)]
pub struct BookEntry {
    pub price: Decimal,
    pub size: Decimal,
    pub offset: u64,
}

/// The levels of one side, in strictly increasing order of price.
pub open spec fn sorted_by_price(s: Seq<BookEntry>) -> bool {
    forall|i: int, j: int| 0 <= i < j < s.len() ==> value_key(s[i].price) < value_key(s[j].price)
}

/// Whether a side holds a level at the price whose key is `k`.
pub open spec fn holds_key(s: Seq<BookEntry>, k: int) -> bool {
    exists|i: int| 0 <= i < s.len() && #[trigger] value_key(s[i].price) == k
}

/// A side as a map from the price (by its `value_key`) to the level held there.
pub open spec fn side_view(s: Seq<BookEntry>) -> Map<int, BookEntry> {
    Map::new(
        |k: int| holds_key(s, k),
        |k: int| s[choose|i: int| 0 <= i < s.len() && #[trigger] value_key(s[i].price) == k],
    )
}

/// One feed level applied to a side: a zero size removes the price, any other size sets it
/// with the given sequence number (a price already held keeps the decimal it was held with).
pub open spec fn apply_level(m: Map<int, BookEntry>, level: PriceLevel, offset: u64) -> Map<
    int,
    BookEntry,
> {
    let k = value_key(level.price);
    if level.size.mantissa_of() == 0 {
        m.remove(k)
    } else {
        m.insert(
            k,
            BookEntry {
                price: if m.contains_key(k) {
                    m[k].price
                } else {
                    level.price
                },
                size: level.size,
                offset,
            },
        )
    }
}

/// The number of levels with a non-zero size.
pub open spec fn count_set(levels: Seq<PriceLevel>) -> nat
    decreases levels.len(),
{
    if levels.len() == 0 {
        0
    } else {
        count_set(levels.drop_last()) + if levels.last().size.mantissa_of() == 0 {
            0nat
        } else {
            1nat
        }
    }
}

/// Feed levels applied in order to a side; the levels that are set get consecutive
/// sequence numbers starting at `offset`.
pub open spec fn apply_levels(m: Map<int, BookEntry>, levels: Seq<PriceLevel>, offset: int) -> Map<
    int,
    BookEntry,
>
    decreases levels.len(),
{
    if levels.len() == 0 {
        m
    } else {
        let prev = levels.drop_last();
        apply_level(apply_levels(m, prev, offset), levels.last(), (offset + count_set(prev)) as u64)
    }
}

/// A prefix of the levels sets no more levels than all of them.
proof fn lemma_count_set_prefix(levels: Seq<PriceLevel>, i: int)
    requires
        0 <= i <= levels.len(),
    ensures
        count_set(levels.take(i)) <= count_set(levels),
    decreases levels.len(),
{
    if i < levels.len() {
        lemma_count_set_prefix(levels.drop_last(), i);
        assert(levels.drop_last().take(i) =~= levels.take(i));
    } else {
        assert(levels.take(i) =~= levels);
    }
}

/// Whether the sequence numbers of the levels held in the two sides are all below `offset`
/// and no two levels share one.
pub open spec fn offsets_fresh(bids: Map<int, BookEntry>, asks: Map<int, BookEntry>, offset: int) -> bool {
    &&& forall|k: int| #[trigger] bids.contains_key(k) ==> bids[k].offset < offset
    &&& forall|k: int| #[trigger] asks.contains_key(k) ==> asks[k].offset < offset
    &&& forall|k1: int, k2: int|
        #[trigger] bids.contains_key(k1) && #[trigger] bids.contains_key(k2) && k1 != k2
            ==> bids[k1].offset != bids[k2].offset
    &&& forall|k1: int, k2: int|
        #[trigger] asks.contains_key(k1) && #[trigger] asks.contains_key(k2) && k1 != k2
            ==> asks[k1].offset != asks[k2].offset
    &&& forall|k1: int, k2: int|
        #[trigger] bids.contains_key(k1) && #[trigger] asks.contains_key(k2) ==> bids[k1].offset
            != asks[k2].offset
}

proof fn lemma_fresh_symmetric(a: Map<int, BookEntry>, b: Map<int, BookEntry>, offset: int)
    ensures
        offsets_fresh(a, b, offset) == offsets_fresh(b, a, offset),
{
    if offsets_fresh(a, b, offset) {
        assert forall|k1: int, k2: int| #[trigger] b.contains_key(k1) && #[trigger] a.contains_key(k2)
            implies b[k1].offset != a[k2].offset by {
            assert(a.contains_key(k2) && b.contains_key(k1));
        }
    }
    if offsets_fresh(b, a, offset) {
        assert forall|k1: int, k2: int| #[trigger] a.contains_key(k1) && #[trigger] b.contains_key(k2)
            implies a[k1].offset != b[k2].offset by {
            assert(b.contains_key(k2) && a.contains_key(k1));
        }
    }
}

proof fn lemma_apply_level_fresh(
    side: Map<int, BookEntry>,
    other: Map<int, BookEntry>,
    level: PriceLevel,
    offset: u64,
)
    requires
        offsets_fresh(side, other, offset as int),
    ensures
        offsets_fresh(
            apply_level(side, level, offset),
            other,
            offset + (if level.size.mantissa_of() == 0 { 0int } else { 1int }),
        ),
{
    let m = apply_level(side, level, offset);
    let o = offset + (if level.size.mantissa_of() == 0 { 0int } else { 1int });
    let k = value_key(level.price);
    assert forall|j: int| #[trigger] m.contains_key(j) implies m[j].offset < o by {
        if j != k {
            assert(side.contains_key(j));
        }
    }
    assert forall|k1: int, k2: int| #[trigger] m.contains_key(k1) && #[trigger] m.contains_key(k2)
        && k1 != k2 implies m[k1].offset != m[k2].offset by {
        if k1 != k && k2 != k {
            assert(side.contains_key(k1) && side.contains_key(k2));
        } else if k1 == k {
            assert(side.contains_key(k2));
        } else {
            assert(side.contains_key(k1));
        }
    }
    assert forall|k1: int, k2: int| #[trigger] m.contains_key(k1) && #[trigger] other.contains_key(k2)
        implies m[k1].offset != other[k2].offset by {
        if k1 != k {
            assert(side.contains_key(k1));
        }
    }
    assert forall|j: int| #[trigger] other.contains_key(j) implies other[j].offset < o by {
        assert(other.contains_key(j));
    }
}

/// Applying feed levels to one side of a book keeps its sequence numbers fresh: every number
/// held in either side stays below the new offset and no two levels share one, since each
/// level set takes the next number.
pub proof fn lemma_updates_keep_offsets_fresh(
    side: Map<int, BookEntry>,
    other: Map<int, BookEntry>,
    levels: Seq<PriceLevel>,
    offset: int,
)
    requires
        offsets_fresh(side, other, offset),
        0 <= offset,
        offset + count_set(levels) <= u64::MAX,
    ensures
        offsets_fresh(apply_levels(side, levels, offset), other, offset + count_set(levels)),
        offsets_fresh(other, apply_levels(side, levels, offset), offset + count_set(levels)),
    decreases levels.len(),
{
    if levels.len() > 0 {
        let prev = levels.drop_last();
        lemma_updates_keep_offsets_fresh(side, other, prev, offset);
        lemma_apply_level_fresh(
            apply_levels(side, prev, offset),
            other,
            levels.last(),
            (offset + count_set(prev)) as u64,
        );
    }
    lemma_fresh_symmetric(
        apply_levels(side, levels, offset),
        other,
        offset + count_set(levels),
    );
}

/// In a sorted side the level at index `i` is the one the view holds at its price.
proof fn lemma_view_at(s: Seq<BookEntry>, i: int)
    requires
        sorted_by_price(s),
        0 <= i < s.len(),
    ensures
        side_view(s).contains_key(value_key(s[i].price)),
        side_view(s)[value_key(s[i].price)] == s[i],
{
    let k = value_key(s[i].price);
    assert(holds_key(s, k));
    let j = choose|j: int| 0 <= j < s.len() && #[trigger] value_key(s[j].price) == k;
    if j < i {
        assert(value_key(s[j].price) < value_key(s[i].price));
    } else if i < j {
        assert(value_key(s[i].price) < value_key(s[j].price));
    }
}

/// The index at which a price belongs in a sorted side: every level before it is cheaper,
/// every level from it on is at least as expensive.
fn position_of(side: &Vec<BookEntry>, price: Decimal) -> (i: usize)
    requires
        sorted_by_price(side@),
    ensures
        i <= side.len(),
        forall|j: int| 0 <= j < i ==> value_key(#[trigger] side@[j].price) < value_key(price),
        forall|j: int| i <= j < side.len() ==> value_key(#[trigger] side@[j].price) >= value_key(price),
{
    let mut i: usize = 0;
    while i < side.len() && side[i].price < price
        invariant
            i <= side.len(),
            sorted_by_price(side@),
            forall|j: int| 0 <= j < i ==> value_key(#[trigger] side@[j].price) < value_key(price),
        decreases side.len() - i,
    {
        proof {
            lemma_value_key(side@[i as int].price, price);
        }
        i = i + 1;
    }
    if i < side.len() {
        proof {
            lemma_value_key(side@[i as int].price, price);
            assert forall|j: int| i <= j < side.len() implies value_key(
                #[trigger] side@[j].price,
            ) >= value_key(price) by {
                if j > i {
                    assert(value_key(side@[i as int].price) < value_key(side@[j].price));
                }
            }
        }
    }
    i
}

/// Applies one feed level to a side.
fn set_level(side: &mut Vec<BookEntry>, level: PriceLevel, offset: u64)
    requires
        sorted_by_price(old(side)@),
    ensures
        sorted_by_price(final(side)@),
        side_view(final(side)@) == apply_level(side_view(old(side)@), level, offset),
{
    let ghost s0 = side@;
    let ghost k = value_key(level.price);
    let i = position_of(side, level.price);
    let found = i < side.len() && side[i].price == level.price;
    proof {
        if i < side.len() {
            lemma_value_key(side@[i as int].price, level.price);
        }
    }
    if level.size.is_zero() {
        if found {
            side.remove(i);
            proof {
                let s1 = side@;
                assert(s1 =~= s0.remove(i as int));
                assert forall|a: int, b: int| 0 <= a < b < s1.len() implies value_key(
                    s1[a].price,
                ) < value_key(s1[b].price) by {
                    let a0 = if a < i { a } else { a + 1 };
                    let b0 = if b < i { b } else { b + 1 };
                    assert(s1[a] == s0[a0]);
                    assert(s1[b] == s0[b0]);
                }
                lemma_remove_view(s0, i as int);
            }
        } else {
            proof {
                lemma_absent(s0, i as int, k);
                assert(side_view(s0).remove(k) =~= side_view(s0));
            }
        }
    } else {
        if found {
            let held = side[i].price;
            side.set(i, BookEntry { price: held, size: level.size, offset });
            proof {
                lemma_set_view(s0, i as int, side@[i as int]);
            }
        } else {
            side.insert(i, BookEntry { price: level.price, size: level.size, offset });
            proof {
                lemma_absent(s0, i as int, k);
                lemma_insert_view(s0, i as int, side@[i as int]);
            }
        }
    }
}

/// The order book kept from the orders feed of one market. Each side holds its levels in
/// increasing order of price; `offset` numbers the levels as they are set. The sides are
/// sorted lists rather than ordered maps: a price is a decimal, ordered by the number it
/// denotes rather than by its representation, which is no key an ordered map of integers
/// could hold.
#[derive(Debug, Clone)]
pub struct OrderBook {
    pub bids: Vec<BookEntry>,
    pub asks: Vec<BookEntry>,
    pub offset: u64,
}

impl OrderBook {
    /// Both sides are sorted by price.
    pub open spec fn wf(&self) -> bool {
        sorted_by_price(self.bids@) && sorted_by_price(self.asks@)
    }

    /// An empty book whose numbering starts at zero.
    pub fn new() -> (book: OrderBook)
        ensures
            book.wf(),
            book.bids@.len() == 0,
            book.asks@.len() == 0,
            book.offset == 0,
    {
        OrderBook { bids: Vec::new(), asks: Vec::new(), offset: 0 }
    }

    /// Applies the levels of a bids update, in order.
    pub fn update_bids(&mut self, bids: Vec<PriceLevel>)
        requires
            old(self).wf(),
            old(self).offset + count_set(bids@) <= u64::MAX,
        ensures
            final(self).wf(),
            side_view(final(self).bids@) == apply_levels(
                side_view(old(self).bids@),
                bids@,
                old(self).offset as int,
            ),
            final(self).asks == old(self).asks,
            final(self).offset == old(self).offset + count_set(bids@),
    {
        Self::update(&mut self.bids, bids, &mut self.offset);
    }

    /// Applies the levels of an asks update, in order.
    pub fn update_asks(&mut self, asks: Vec<PriceLevel>)
        requires
            old(self).wf(),
            old(self).offset + count_set(asks@) <= u64::MAX,
        ensures
            final(self).wf(),
            side_view(final(self).asks@) == apply_levels(
                side_view(old(self).asks@),
                asks@,
                old(self).offset as int,
            ),
            final(self).bids == old(self).bids,
            final(self).offset == old(self).offset + count_set(asks@),
    {
        Self::update(&mut self.asks, asks, &mut self.offset);
    }

    /// Applies feed levels to one side: a zero size removes the price, any other size sets
    /// it and takes the next sequence number.
    fn update(map: &mut Vec<BookEntry>, levels: Vec<PriceLevel>, offset: &mut u64)
        requires
            sorted_by_price(old(map)@),
            *old(offset) + count_set(levels@) <= u64::MAX,
        ensures
            sorted_by_price(final(map)@),
            side_view(final(map)@) == apply_levels(
                side_view(old(map)@),
                levels@,
                *old(offset) as int,
            ),
            *final(offset) == *old(offset) + count_set(levels@),
    {
        let ghost m0 = side_view(map@);
        let ghost o0 = *offset as int;
        let mut idx: usize = 0;
        while idx < levels.len()
            invariant
                idx <= levels.len(),
                sorted_by_price(map@),
                side_view(map@) == apply_levels(m0, levels@.take(idx as int), o0),
                *offset == o0 + count_set(levels@.take(idx as int)),
                o0 + count_set(levels@) <= u64::MAX,
            decreases levels.len() - idx,
        {
            let level = levels[idx];
            proof {
                let t = levels@.take(idx as int + 1);
                assert(t.drop_last() =~= levels@.take(idx as int));
                assert(t.last() == level);
                lemma_count_set_prefix(levels@, idx as int + 1);
            }
            set_level(map, level, *offset);
            if !level.size.is_zero() {
                *offset = *offset + 1;
            }
            idx = idx + 1;
        }
        proof {
            assert(levels@.take(levels.len() as int) =~= levels@);
        }
    }
}

/// The unified level for a book entry.
pub open spec fn ccxt_level(e: BookEntry) -> CcxtOrderBookLevel {
    CcxtOrderBookLevel { price: e.price, amount: e.size }
}

/// The best bid of a side sorted by price: its last (highest) level, if any.
pub open spec fn best_bid(bids: Seq<BookEntry>) -> Seq<CcxtOrderBookLevel> {
    if bids.len() == 0 {
        Seq::empty()
    } else {
        seq![ccxt_level(bids.last())]
    }
}

/// The best ask of a side sorted by price: its first (lowest) level, if any.
pub open spec fn best_ask(asks: Seq<BookEntry>) -> Seq<CcxtOrderBookLevel> {
    if asks.len() == 0 {
        Seq::empty()
    } else {
        seq![ccxt_level(asks[0])]
    }
}

/// Whether `level` is a level held in the side whose price is the highest held.
pub open spec fn is_highest(side: Map<int, BookEntry>, level: CcxtOrderBookLevel) -> bool {
    let k = value_key(level.price);
    &&& side.contains_key(k)
    &&& ccxt_level(side[k]) == level
    &&& forall|j: int| #[trigger] side.contains_key(j) ==> j <= k
}

/// Whether `level` is a level held in the side whose price is the lowest held.
pub open spec fn is_lowest(side: Map<int, BookEntry>, level: CcxtOrderBookLevel) -> bool {
    let k = value_key(level.price);
    &&& side.contains_key(k)
    &&& ccxt_level(side[k]) == level
    &&& forall|j: int| #[trigger] side.contains_key(j) ==> k <= j
}

/// The unified order book of the best levels: the highest bid and the lowest ask.
pub fn book_to_ccxt(order_book: &OrderBook, symbol: &str, nonce: u64) -> (ob: CcxtOrderBook)
    requires
        order_book.wf(),
    ensures
        ob.bids@ == best_bid(order_book.bids@),
        ob.asks@ == best_ask(order_book.asks@),
        ob.bids@.len() == 1 <==> order_book.bids@.len() > 0,
        ob.asks@.len() == 1 <==> order_book.asks@.len() > 0,
        ob.bids@.len() == 1 ==> is_highest(side_view(order_book.bids@), ob.bids@[0]),
        ob.asks@.len() == 1 ==> is_lowest(side_view(order_book.asks@), ob.asks@[0]),
        ob.symbol@ == symbol@,
        ob.timestamp is None,
        ob.datetime is None,
        ob.nonce == Some(nonce),
{
    let mut bids: Vec<CcxtOrderBookLevel> = Vec::new();
    let nb = order_book.bids.len();
    if nb > 0 {
        let e = order_book.bids[nb - 1];
        bids.push(CcxtOrderBookLevel { price: e.price, amount: e.size });
    }
    let mut asks: Vec<CcxtOrderBookLevel> = Vec::new();
    if order_book.asks.len() > 0 {
        let e = order_book.asks[0];
        asks.push(CcxtOrderBookLevel { price: e.price, amount: e.size });
    }
    proof {
        assert(bids@ =~= best_bid(order_book.bids@));
        assert(asks@ =~= best_ask(order_book.asks@));
        if order_book.bids@.len() > 0 {
            lemma_best_levels(order_book.bids@);
        }
        if order_book.asks@.len() > 0 {
            lemma_best_levels(order_book.asks@);
        }
    }
    CcxtOrderBook {
        bids,
        asks,
        symbol: String::from_str(symbol),
        timestamp: None,
        datetime: None,
        nonce: Some(nonce),
    }
}

/// The last level of a sorted side is held in its view and no price held there is higher;
/// the first level is held and no price held is lower.
pub proof fn lemma_best_levels(s: Seq<BookEntry>)
    requires
        sorted_by_price(s),
        s.len() > 0,
    ensures
        side_view(s).contains_key(value_key(s.last().price)),
        side_view(s)[value_key(s.last().price)] == s.last(),
        side_view(s).contains_key(value_key(s[0].price)),
        side_view(s)[value_key(s[0].price)] == s[0],
        forall|k: int| #[trigger]
            side_view(s).contains_key(k) ==> value_key(s[0].price) <= k <= value_key(
                s.last().price,
            ),
{
    lemma_view_at(s, s.len() - 1);
    lemma_view_at(s, 0);
    assert forall|k: int| #[trigger] side_view(s).contains_key(k) implies value_key(s[0].price)
        <= k <= value_key(s.last().price) by {
        let j = choose|j: int| 0 <= j < s.len() && #[trigger] value_key(s[j].price) == k;
        if j > 0 {
            assert(value_key(s[0].price) < value_key(s[j].price));
        }
        if j < s.len() - 1 {
            assert(value_key(s[j].price) < value_key(s[s.len() - 1].price));
        }
    }
}

/// A message of the orders feed: a snapshot of both sides, or an update of either.
#[derive(Debug, Clone)]
pub enum BookFeedMessage {
    Initial { bids: Vec<PriceLevel>, asks: Vec<PriceLevel>, message_id: u64 },
    Update { bids: Option<Vec<PriceLevel>>, asks: Option<Vec<PriceLevel>>, message_id: u64 },
}

/// The levels of an optional update; none when the side is not updated.
pub open spec fn levels_or_empty(levels: Option<Vec<PriceLevel>>) -> Seq<PriceLevel> {
    match levels {
        Some(l) => l@,
        None => Seq::empty(),
    }
}

/// The number of levels a feed message sets (levels with a non-zero size), each of which
/// takes a sequence number.
pub open spec fn message_set_count(message: BookFeedMessage) -> nat {
    match message {
        BookFeedMessage::Initial { bids, asks, .. } => count_set(bids@) + count_set(asks@),
        BookFeedMessage::Update { bids, asks, .. } => count_set(levels_or_empty(bids)) + count_set(
            levels_or_empty(asks),
        ),
    }
}

/// The number of levels with a non-zero size.
fn count_set_levels(levels: &Vec<PriceLevel>) -> (n: u64)
    ensures
        n == count_set(levels@),
{
    let mut n: u64 = 0;
    let mut i: usize = 0;
    while i < levels.len()
        invariant
            i <= levels@.len(),
            n == count_set(levels@.take(i as int)),
            n <= i,
        decreases levels@.len() - i,
    {
        proof {
            let t = levels@.take(i as int + 1);
            assert(t.drop_last() =~= levels@.take(i as int));
            assert(t.last() == levels@[i as int]);
        }
        if !levels[i].size.is_zero() {
            n = n + 1;
        }
        i = i + 1;
    }
    proof {
        assert(levels@.take(levels@.len() as int) =~= levels@);
    }
    n
}

/// The number of levels of an optional update with a non-zero size.
fn count_set_optional(levels: &Option<Vec<PriceLevel>>) -> (n: u64)
    ensures
        n == count_set(levels_or_empty(*levels)),
{
    match levels {
        Some(l) => count_set_levels(l),
        None => 0,
    }
}

impl OrderBook {
    /// Applies one message of the orders feed and gives the book to publish: a snapshot
    /// clears both sides before it is applied; bids are applied before asks.
    pub fn handle_feed_message(&mut self, message: BookFeedMessage, symbol: &str) -> (ob:
        CcxtOrderBook)
        requires
            old(self).wf(),
            old(self).offset + message_set_count(message) <= u64::MAX,
        ensures
            final(self).wf(),
            ob.bids@ == best_bid(final(self).bids@),
            ob.asks@ == best_ask(final(self).asks@),
            ob.symbol@ == symbol@,
            ob.timestamp is None,
            ob.datetime is None,
            match message {
                BookFeedMessage::Initial { bids, asks, message_id } => {
                    &&& ob.nonce == Some(message_id)
                    &&& side_view(final(self).bids@) == apply_levels(
                        Map::empty(),
                        bids@,
                        old(self).offset as int,
                    )
                    &&& side_view(final(self).asks@) == apply_levels(
                        Map::empty(),
                        asks@,
                        old(self).offset + count_set(bids@),
                    )
                    &&& final(self).offset == old(self).offset + count_set(bids@) + count_set(
                        asks@,
                    )
                },
                BookFeedMessage::Update { bids, asks, message_id } => {
                    let bids_levels = levels_or_empty(bids);
                    let asks_levels = levels_or_empty(asks);
                    &&& ob.nonce == Some(message_id)
                    &&& side_view(final(self).bids@) == apply_levels(
                        side_view(old(self).bids@),
                        bids_levels,
                        old(self).offset as int,
                    )
                    &&& side_view(final(self).asks@) == apply_levels(
                        side_view(old(self).asks@),
                        asks_levels,
                        old(self).offset + count_set(bids_levels),
                    )
                    &&& final(self).offset == old(self).offset + count_set(bids_levels)
                        + count_set(asks_levels)
                },
            },
    {
        match message {
            BookFeedMessage::Initial { bids, asks, message_id } => {
                self.bids = Vec::new();
                self.asks = Vec::new();
                proof {
                    assert(side_view(self.bids@) =~= Map::empty());
                    assert(side_view(self.asks@) =~= Map::empty());
                }
                self.update_bids(bids);
                self.update_asks(asks);
                book_to_ccxt(self, symbol, message_id)
            },
            BookFeedMessage::Update { bids, asks, message_id } => {
                let ghost bids_levels = levels_or_empty(bids);
                proof {
                    assert(apply_levels(side_view(self.bids@), Seq::empty(), self.offset as int)
                        == side_view(self.bids@));
                    assert(count_set(Seq::<PriceLevel>::empty()) == 0);
                }
                if let Some(b) = bids {
                    self.update_bids(b);
                }
                if let Some(a) = asks {
                    self.update_asks(a);
                }
                proof {
                    assert(apply_levels(side_view(self.asks@), Seq::empty(), self.offset as int)
                        == side_view(self.asks@));
                }
                book_to_ccxt(self, symbol, message_id)
            },
        }
    }
}

impl OrderBook {
    /// Whether the numbering of the book can take the levels a feed message sets.
    pub fn fits_offset(&self, message: &BookFeedMessage) -> (b: bool)
        ensures
            b == (self.offset + message_set_count(*message) <= u64::MAX),
    {
        let (set_bids, set_asks) = match message {
            BookFeedMessage::Initial { bids, asks, .. } => (
                count_set_levels(bids),
                count_set_levels(asks),
            ),
            BookFeedMessage::Update { bids, asks, .. } => (
                count_set_optional(bids),
                count_set_optional(asks),
            ),
        };
        (self.offset as u128) + (set_bids as u128) + (set_asks as u128) <= (u64::MAX as u128)
    }
}

/// The address of account 0 of the wallet that `dydx`'s `Wallet::from_mnemonic` makes of a
/// mnemonic, or `None` where the mnemonic or the derivation is refused.
pub uninterp spec fn dydx_account_address(mnemonic: Seq<char>) -> Option<Seq<char>>;

/// Calls `dydx::node::Wallet::from_mnemonic` and then `account_offline(0)` on the wallet,
/// and gives the account's address as text. The result is named `dydx_account_address`; an
/// error of either call gives `None`.
#[verifier::external_body]
fn derive_account_address(mnemonic: &str) -> (r: Option<String>)
    ensures
        match r {
            Some(a) => dydx_account_address(mnemonic@) == Some(a@),
            None => dydx_account_address(mnemonic@) is None,
        },
{
    match dydx::node::Wallet::from_mnemonic(mnemonic) {
        Ok(wallet) => match wallet.account_offline(0) {
            Ok(account) => Some(account.address().to_string()),
            Err(_) => None,
        },
        Err(_) => None,
    }
}

/// The account side of the dYdX exchange: the markets followed, the wallet address and the
/// subaccount.
pub struct Dydx {
    symbols: Vec<String>,
    address: String,
    subaccount_number: u32,
}

impl Dydx {
    /// The wallet address.
    pub closed spec fn address_view(&self) -> Seq<char> {
        self.address@
    }

    /// The subaccount number.
    pub closed spec fn subaccount_view(&self) -> u32 {
        self.subaccount_number
    }

    /// The exchange for the configured subaccount of the account derived from the
    /// configured mnemonic, following no market yet. The mnemonic must give an account.
    pub fn new(cfg: &DydxConfig) -> (d: Self)
        requires
            dydx_account_address(cfg.mnemonic@) is Some,
        ensures
            d.symbols_view() == Seq::<Seq<char>>::empty(),
            d.address_view() == dydx_account_address(cfg.mnemonic@)->0,
            d.subaccount_view() == cfg.subaccount_number,
    {
        let address = match derive_account_address(cfg.mnemonic.as_str()) {
            Some(a) => a,
            None => {
                proof {
                    assert(false);
                }
                String::new()
            },
        };
        let d = Dydx { symbols: Vec::new(), address, subaccount_number: cfg.subaccount_number };
        proof {
            assert(d.symbols@.map_values(|c: String| c@) =~= Seq::<Seq<char>>::empty());
        }
        d
    }

    /// The exchange for the configuration, or `None` when no account can be derived from
    /// its mnemonic.
    pub fn from_config(cfg: &DydxConfig) -> (r: Option<Self>)
        ensures
            r is Some <==> dydx_account_address(cfg.mnemonic@) is Some,
            r matches Some(d) ==> {
                &&& d.symbols_view() == Seq::<Seq<char>>::empty()
                &&& d.address_view() == dydx_account_address(cfg.mnemonic@)->0
                &&& d.subaccount_view() == cfg.subaccount_number
            },
    {
        match derive_account_address(cfg.mnemonic.as_str()) {
            Some(_) => Some(Dydx::new(cfg)),
            None => None,
        }
    }

    /// The wallet address.
    pub fn address(&self) -> (a: &str)
        ensures
            a@ == self.address_view(),
    {
        self.address.as_str()
    }

    /// The subaccount number.
    pub fn subaccount_number(&self) -> (n: u32)
        ensures
            n == self.subaccount_view(),
    {
        self.subaccount_number
    }
}

impl Info for Dydx {
    open spec fn name_view(&self) -> Seq<char> {
        "dydx"@
    }

    closed spec fn symbols_view(&self) -> Seq<Seq<char>> {
        self.symbols@.map_values(|c: String| c@)
    }

    fn add_symbol(&mut self, symbol: String) {
        self.symbols.push(symbol);
        proof {
            assert(self.symbols@.map_values(|c: String| c@) =~= old(self).symbols@.map_values(
                |c: String| c@,
            ).push(symbol@));
        }
    }

    fn symbols(&self) -> (s: Vec<String>) {
        let mut s: Vec<String> = Vec::new();
        let mut i: usize = 0;
        while i < self.symbols.len()
            invariant
                i <= self.symbols@.len(),
                s@.len() == i,
                forall|j: int| 0 <= j < i ==> (#[trigger] s@[j])@ == self.symbols@[j]@,
            decreases self.symbols@.len() - i,
        {
            s.push(self.symbols[i].clone());
            i = i + 1;
        }
        proof {
            assert(s@.map_values(|x: String| x@) =~= self.symbols@.map_values(|c: String| c@));
        }
        s
    }

    fn name(&self) -> (n: String) {
        String::from_str("dydx")
    }
}

/// A trade of the indexer's trades feed.
#[derive(Debug, Clone)]
pub struct IndexerTrade {
    pub id: String,
    pub created_at_millis: i64,
    pub side: CcxtOrderSide,
    pub price: Decimal,
    pub size: Decimal,
}

/// Whether `t` is the unified trade for an indexer trade of `symbol`.
pub open spec fn is_ccxt_trade(t: CcxtTrade, trade: IndexerTrade, symbol: Seq<char>) -> bool {
    &&& t.id@ == trade.id@
    &&& t.timestamp == trade.created_at_millis
    &&& t.datetime == trade.created_at_millis
    &&& t.symbol@ == symbol
    &&& t.order matches Some(o) && o@ == trade.id@
    &&& t.order_type is None
    &&& t.side == Some(trade.side)
    &&& t.taker_or_maker is None
    &&& t.price == trade.price
    &&& t.amount == trade.size
    &&& t.cost is None
    &&& t.fee is None
    &&& t.fees is None
}

/// The unified trades for the trades of one message of the feed, in order.
pub fn trades_to_ccxt(trades: &Vec<IndexerTrade>, symbol: &str) -> (ts: Vec<CcxtTrade>)
    ensures
        ts@.len() == trades@.len(),
        forall|i: int| 0 <= i < ts@.len() ==> is_ccxt_trade(#[trigger] ts@[i], trades@[i], symbol@),
{
    let mut ts: Vec<CcxtTrade> = Vec::new();
    let mut i: usize = 0;
    while i < trades.len()
        invariant
            i <= trades@.len(),
            ts@.len() == i,
            forall|j: int| 0 <= j < i ==> is_ccxt_trade(#[trigger] ts@[j], trades@[j], symbol@),
        decreases trades@.len() - i,
    {
        let trade = &trades[i];
        ts.push(
            CcxtTrade {
                id: trade.id.clone(),
                timestamp: trade.created_at_millis,
                datetime: trade.created_at_millis,
                symbol: String::from_str(symbol),
                order: Some(trade.id.clone()),
                order_type: None,
                side: Some(trade.side),
                taker_or_maker: None,
                price: trade.price,
                amount: trade.size,
                cost: None,
                fee: None,
                fees: None,
            },
        );
        i = i + 1;
    }
    ts
}

/// A message of the trades feed: the trades of the snapshot, or the trades of each content
/// of an update.
#[derive(Debug, Clone)]
pub enum TradesFeedMessage {
    Initial { trades: Vec<IndexerTrade> },
    Update { contents: Vec<Vec<IndexerTrade>> },
}

/// The trades of the contents of an update, content after content.
pub open spec fn flatten_trades(contents: Seq<Vec<IndexerTrade>>) -> Seq<IndexerTrade>
    decreases contents.len(),
{
    if contents.len() == 0 {
        Seq::empty()
    } else {
        flatten_trades(contents.drop_last()) + contents.last()@
    }
}

/// The trades a message of the trades feed carries, in order.
pub open spec fn message_trades(message: TradesFeedMessage) -> Seq<IndexerTrade> {
    match message {
        TradesFeedMessage::Initial { trades } => trades@,
        TradesFeedMessage::Update { contents } => flatten_trades(contents@),
    }
}

/// The unified trades for one message of the trades feed of `symbol`: one per trade it
/// carries, in order.
pub fn trades_of_message(message: &TradesFeedMessage, symbol: &str) -> (ts: Vec<CcxtTrade>)
    ensures
        ts@.len() == message_trades(*message).len(),
        forall|i: int|
            0 <= i < ts@.len() ==> is_ccxt_trade(
                #[trigger] ts@[i],
                message_trades(*message)[i],
                symbol@,
            ),
{
    match message {
        TradesFeedMessage::Initial { trades } => trades_to_ccxt(trades, symbol),
        TradesFeedMessage::Update { contents } => {
            let mut ts: Vec<CcxtTrade> = Vec::new();
            let mut i: usize = 0;
            while i < contents.len()
                invariant
                    i <= contents@.len(),
                    ts@.len() == flatten_trades(contents@.take(i as int)).len(),
                    forall|j: int|
                        0 <= j < ts@.len() ==> is_ccxt_trade(
                            #[trigger] ts@[j],
                            flatten_trades(contents@.take(i as int))[j],
                            symbol@,
                        ),
                decreases contents@.len() - i,
            {
                let ghost before = ts@;
                let mut part = trades_to_ccxt(&contents[i], symbol);
                ts.append(&mut part);
                proof {
                    let t = contents@.take(i as int + 1);
                    assert(t.drop_last() =~= contents@.take(i as int));
                    assert(t.last() == contents@[i as int]);
                    let f = flatten_trades(t);
                    assert(f == flatten_trades(contents@.take(i as int)) + contents@[i as int]@);
                    assert forall|j: int| 0 <= j < ts@.len() implies is_ccxt_trade(
                        #[trigger] ts@[j],
                        f[j],
                        symbol@,
                    ) by {
                        if j < before.len() {
                            assert(ts@[j] == before[j]);
                        }
                    }
                }
                i = i + 1;
            }
            proof {
                assert(contents@.take(contents@.len() as int) =~= contents@);
            }
            ts
        },
    }
}

/// The USDC balance of a subaccount snapshot: the size of its USDC asset position (the last
/// one listed, if several are), otherwise its free collateral.
pub open spec fn spec_usdc_balance(free_collateral: Decimal, assets: Seq<(String, Decimal)>) -> Decimal
    decreases assets.len(),
{
    if assets.len() == 0 {
        free_collateral
    } else if assets.last().0@ == "USDC"@ {
        assets.last().1
    } else {
        spec_usdc_balance(free_collateral, assets.drop_last())
    }
}

/// The USDC balance of a subaccount snapshot.
pub fn usdc_balance(free_collateral: Decimal, assets: &Vec<(String, Decimal)>) -> (b: Decimal)
    ensures
        b == spec_usdc_balance(free_collateral, assets@),
{
    let usdc = String::from_str("USDC");
    let mut balance = free_collateral;
    let mut i: usize = 0;
    while i < assets.len()
        invariant
            i <= assets@.len(),
            usdc@ == "USDC"@,
            balance == spec_usdc_balance(free_collateral, assets@.take(i as int)),
        decreases assets@.len() - i,
    {
        proof {
            assert(assets@.take(i as int + 1).drop_last() =~= assets@.take(i as int));
        }
        if assets[i].0 == usdc {
            balance = assets[i].1;
        }
        i = i + 1;
    }
    proof {
        assert(assets@.take(assets@.len() as int) =~= assets@);
    }
    balance
}

/// Whether `b` is a balance report of free amounts only, at the given time.
pub open spec fn is_free_balance(b: CcxtBalance, timestamp: u64, datetime: Seq<char>) -> bool {
    &&& b.timestamp == timestamp
    &&& b.datetime@ == datetime
    &&& names_distinct(b.free@)
    &&& b.used@.len() == 0
    &&& b.total@.len() == 0
    &&& b.debt@.len() == 0
    &&& b.currencies@.len() == 0
}

/// The balance reported for a subaccount snapshot: its USDC balance, free.
pub fn snapshot_balance(
    free_collateral: Decimal,
    assets: &Vec<(String, Decimal)>,
    timestamp: u64,
    datetime: String,
) -> (b: CcxtBalance)
    ensures
        is_free_balance(b, timestamp, datetime@),
        named_view(b.free@) == Map::<Seq<char>, Decimal>::empty().insert(
            "USDC"@,
            spec_usdc_balance(free_collateral, assets@),
        ),
{
    let balance = usdc_balance(free_collateral, assets);
    let mut free: Vec<(String, Decimal)> = Vec::new();
    proof {
        assert(named_view(free@) =~= Map::<Seq<char>, Decimal>::empty());
    }
    put_named(&mut free, String::from_str("USDC"), balance);
    CcxtBalance {
        timestamp,
        datetime,
        free,
        used: Vec::new(),
        total: Vec::new(),
        debt: Vec::new(),
        currencies: Vec::new(),
    }
}

/// The free amounts of the asset positions of a subaccount update: each asset's size, a later
/// position of the same asset replacing an earlier one.
pub open spec fn spec_free_amounts(assets: Seq<(String, Decimal)>) -> Map<Seq<char>, Decimal>
    decreases assets.len(),
{
    if assets.len() == 0 {
        Map::empty()
    } else {
        spec_free_amounts(assets.drop_last()).insert(assets.last().0@, assets.last().1)
    }
}

/// The balance reported for a subaccount update: the free amounts of its asset positions;
/// `None` when it has none.
pub fn update_balance(assets: &Vec<(String, Decimal)>, timestamp: u64, datetime: String) -> (b:
    Option<CcxtBalance>)
    ensures
        b is None <==> assets@.len() == 0,
        b matches Some(bal) ==> is_free_balance(bal, timestamp, datetime@) && named_view(bal.free@)
            == spec_free_amounts(assets@),
{
    let mut free: Vec<(String, Decimal)> = Vec::new();
    proof {
        assert(named_view(free@) =~= Map::<Seq<char>, Decimal>::empty());
    }
    let mut i: usize = 0;
    while i < assets.len()
        invariant
            i <= assets@.len(),
            names_distinct(free@),
            named_view(free@) == spec_free_amounts(assets@.take(i as int)),
            (i == 0) == (free@.len() == 0),
        decreases assets@.len() - i,
    {
        proof {
            assert(assets@.take(i as int + 1).drop_last() =~= assets@.take(i as int));
        }
        put_named(&mut free, assets[i].0.clone(), assets[i].1);
        i = i + 1;
    }
    proof {
        assert(assets@.take(assets@.len() as int) =~= assets@);
    }
    if free.len() == 0 {
        None
    } else {
        Some(
            CcxtBalance {
                timestamp,
                datetime,
                free,
                used: Vec::new(),
                total: Vec::new(),
                debt: Vec::new(),
                currencies: Vec::new(),
            },
        )
    }
}

/// A perpetual position of a subaccount, as the feed reports it.
#[derive(Debug, Clone)]
pub struct PerpetualPosition {
    pub id: String,
    pub market: String,
    pub side: CcxtPositionSide,
    pub size: Decimal,
    pub entry_price: Decimal,
    pub unrealized_pnl: Decimal,
}

/// An open perpetual position of a subaccount snapshot. The snapshot keys positions by their
/// market, and the market is what identifies the position.
#[derive(Debug, Clone)]
pub struct SnapshotPosition {
    pub market: String,
    pub side: CcxtPositionSide,
    pub size: Decimal,
    pub entry_price: Decimal,
    pub unrealized_pnl: Decimal,
}

/// A perpetual position of a subaccount update, identified by its position id; the update
/// may leave out the unrealized profit and loss.
#[derive(Debug, Clone)]
pub struct PositionUpdate {
    pub position_id: String,
    pub market: String,
    pub side: CcxtPositionSide,
    pub size: Decimal,
    pub entry_price: Decimal,
    pub unrealized_pnl: Option<Decimal>,
}

/// The position a snapshot reports: its id is its market.
pub open spec fn snapshot_position(p: SnapshotPosition) -> PerpetualPosition {
    PerpetualPosition {
        id: p.market,
        market: p.market,
        side: p.side,
        size: p.size,
        entry_price: p.entry_price,
        unrealized_pnl: p.unrealized_pnl,
    }
}

/// The position an update reports: its id is its position id, and a missing unrealized
/// profit and loss counts as zero.
pub open spec fn updated_position(p: PositionUpdate) -> PerpetualPosition {
    PerpetualPosition {
        id: p.position_id,
        market: p.market,
        side: p.side,
        size: p.size,
        entry_price: p.entry_price,
        unrealized_pnl: match p.unrealized_pnl {
            Some(v) => v,
            None => Decimal::from_parts(0, 0),
        },
    }
}

/// Whether `p` is the unified position for a perpetual position, reported at the given
/// time: contracts of size one, no liquidation price, every other amount zero.
pub open spec fn is_ccxt_position(
    p: CcxtPosition,
    position: PerpetualPosition,
    timestamp: u64,
    datetime: Seq<char>,
) -> bool {
    &&& p.id@ == position.id@
    &&& p.symbol@ == position.market@
    &&& p.timestamp == timestamp
    &&& p.datetime@ == datetime
    &&& !p.isolated
    &&& !p.hedged
    &&& p.side == position.side
    &&& p.contracts == position.size
    &&& p.contract_size == Decimal::from_parts(1, 0)
    &&& p.entry_price == position.entry_price
    &&& p.unrealized_pnl == position.unrealized_pnl
    &&& p.liquidation_price == Decimal::from_parts(0, 0)
    &&& p.mark_price == Decimal::from_parts(0, 0)
    &&& p.notional == Decimal::from_parts(0, 0)
    &&& p.leverage == Decimal::from_parts(0, 0)
    &&& p.collateral == Decimal::from_parts(0, 0)
    &&& p.initial_margin == Decimal::from_parts(0, 0)
    &&& p.maintenance_margin == Decimal::from_parts(0, 0)
    &&& p.initial_margin_percentage == Decimal::from_parts(0, 0)
    &&& p.maintenance_margin_percentage == Decimal::from_parts(0, 0)
    &&& p.margin_mode == CcxtMarginMode::Cross
    &&& p.percentage == Decimal::from_parts(0, 0)
}

/// The unified position for a perpetual position of the subaccount feed.
pub fn position_to_ccxt(position: &PerpetualPosition, timestamp: u64, datetime: String) -> (p:
    CcxtPosition)
    ensures
        is_ccxt_position(p, *position, timestamp, datetime@),
{
    CcxtPosition {
        id: position.id.clone(),
        symbol: position.market.clone(),
        timestamp,
        datetime,
        isolated: false,
        hedged: false,
        side: position.side,
        contracts: position.size,
        contract_size: Decimal::one(),
        entry_price: position.entry_price,
        mark_price: Decimal::zero(),
        notional: Decimal::zero(),
        leverage: Decimal::zero(),
        collateral: Decimal::zero(),
        initial_margin: Decimal::zero(),
        maintenance_margin: Decimal::zero(),
        initial_margin_percentage: Decimal::zero(),
        maintenance_margin_percentage: Decimal::zero(),
        unrealized_pnl: position.unrealized_pnl,
        liquidation_price: Decimal::zero(),
        margin_mode: CcxtMarginMode::Cross,
        percentage: Decimal::zero(),
    }
}

/// An update of a subaccount: the asset positions and the perpetual positions it reports,
/// when it reports them.
#[derive(Debug, Clone)]
pub struct SubaccountUpdate {
    pub asset_positions: Option<Vec<(String, Decimal)>>,
    pub perpetual_positions: Option<Vec<PositionUpdate>>,
}

/// A message of the subaccount feed: a snapshot of the subaccount, or its updates.
#[derive(Debug, Clone)]
pub enum SubaccountFeedMessage {
    Initial {
        free_collateral: Decimal,
        asset_positions: Vec<(String, Decimal)>,
        perpetual_positions: Vec<SnapshotPosition>,
    },
    Update { contents: Vec<SubaccountUpdate> },
}

/// What one message of the subaccount feed reports: a balance, if there is one, and the
/// positions.
#[derive(Debug, Clone)]
pub struct SubaccountReports {
    pub balance: Option<CcxtBalance>,
    pub positions: Vec<CcxtPosition>,
}

/// The asset positions of an update, none when it reports none.
pub open spec fn assets_or_empty(a: Option<Vec<(String, Decimal)>>) -> Seq<(String, Decimal)> {
    match a {
        Some(v) => v@,
        None => Seq::empty(),
    }
}

/// The positions the perpetual positions of an update report, none when it reports none.
pub open spec fn positions_or_empty(p: Option<Vec<PositionUpdate>>) -> Seq<PerpetualPosition> {
    match p {
        Some(v) => v@.map_values(|u: PositionUpdate| updated_position(u)),
        None => Seq::empty(),
    }
}

/// The asset positions of the contents of an update, content after content.
pub open spec fn update_assets(contents: Seq<SubaccountUpdate>) -> Seq<(String, Decimal)>
    decreases contents.len(),
{
    if contents.len() == 0 {
        Seq::empty()
    } else {
        update_assets(contents.drop_last()) + assets_or_empty(contents.last().asset_positions)
    }
}

/// The perpetual positions of the contents of an update, content after content.
pub open spec fn update_positions(contents: Seq<SubaccountUpdate>) -> Seq<PerpetualPosition>
    decreases contents.len(),
{
    if contents.len() == 0 {
        Seq::empty()
    } else {
        update_positions(contents.drop_last()) + positions_or_empty(
            contents.last().perpetual_positions,
        )
    }
}

/// The perpetual positions a message of the subaccount feed reports, in order.
pub open spec fn message_positions(message: SubaccountFeedMessage) -> Seq<PerpetualPosition> {
    match message {
        SubaccountFeedMessage::Initial { perpetual_positions, .. } => perpetual_positions@.map_values(
            |p: SnapshotPosition| snapshot_position(p),
        ),
        SubaccountFeedMessage::Update { contents } => update_positions(contents@),
    }
}

/// The unified positions for the positions of a snapshot, in order, all reported at the
/// given time.
pub fn snapshot_positions_to_ccxt(
    positions: &Vec<SnapshotPosition>,
    timestamp: u64,
    datetime: &String,
) -> (ps: Vec<CcxtPosition>)
    ensures
        ps@.len() == positions@.len(),
        forall|i: int|
            0 <= i < ps@.len() ==> is_ccxt_position(
                #[trigger] ps@[i],
                snapshot_position(positions@[i]),
                timestamp,
                datetime@,
            ),
{
    let mut ps: Vec<CcxtPosition> = Vec::new();
    let mut i: usize = 0;
    while i < positions.len()
        invariant
            i <= positions@.len(),
            ps@.len() == i,
            forall|j: int|
                0 <= j < i ==> is_ccxt_position(
                    #[trigger] ps@[j],
                    snapshot_position(positions@[j]),
                    timestamp,
                    datetime@,
                ),
        decreases positions@.len() - i,
    {
        let p = &positions[i];
        let position = PerpetualPosition {
            id: p.market.clone(),
            market: p.market.clone(),
            side: p.side,
            size: p.size,
            entry_price: p.entry_price,
            unrealized_pnl: p.unrealized_pnl,
        };
        ps.push(position_to_ccxt(&position, timestamp, datetime.clone()));
        i = i + 1;
    }
    ps
}

/// The unified positions for the positions of an update, in order, all reported at the
/// given time.
pub fn updated_positions_to_ccxt(
    positions: &Vec<PositionUpdate>,
    timestamp: u64,
    datetime: &String,
) -> (ps: Vec<CcxtPosition>)
    ensures
        ps@.len() == positions@.len(),
        forall|i: int|
            0 <= i < ps@.len() ==> is_ccxt_position(
                #[trigger] ps@[i],
                updated_position(positions@[i]),
                timestamp,
                datetime@,
            ),
{
    let mut ps: Vec<CcxtPosition> = Vec::new();
    let mut i: usize = 0;
    while i < positions.len()
        invariant
            i <= positions@.len(),
            ps@.len() == i,
            forall|j: int|
                0 <= j < i ==> is_ccxt_position(
                    #[trigger] ps@[j],
                    updated_position(positions@[j]),
                    timestamp,
                    datetime@,
                ),
        decreases positions@.len() - i,
    {
        let p = &positions[i];
        let pnl = match p.unrealized_pnl {
            Some(v) => v,
            None => Decimal::zero(),
        };
        let position = PerpetualPosition {
            id: p.position_id.clone(),
            market: p.market.clone(),
            side: p.side,
            size: p.size,
            entry_price: p.entry_price,
            unrealized_pnl: pnl,
        };
        ps.push(position_to_ccxt(&position, timestamp, datetime.clone()));
        i = i + 1;
    }
    ps
}

/// What a message of the subaccount feed reports. A snapshot reports the USDC balance of the
/// subaccount, free, and each open perpetual position, identified by its market. An update
/// reports each perpetual position of its contents, identified by its position id and with a
/// missing unrealized profit and loss counted as zero, and a balance of the free amounts of
/// their asset positions when there is at least one.
pub fn subaccount_reports(message: &SubaccountFeedMessage, timestamp: u64, datetime: String) -> (r:
    SubaccountReports)
    ensures
        r.positions@.len() == message_positions(*message).len(),
        forall|i: int|
            0 <= i < r.positions@.len() ==> is_ccxt_position(
                #[trigger] r.positions@[i],
                message_positions(*message)[i],
                timestamp,
                datetime@,
            ),
        match *message {
            SubaccountFeedMessage::Initial { free_collateral, asset_positions, .. } => {
                &&& r.balance matches Some(b)
                &&& is_free_balance(b, timestamp, datetime@)
                &&& named_view(b.free@) == Map::<Seq<char>, Decimal>::empty().insert(
                    "USDC"@,
                    spec_usdc_balance(free_collateral, asset_positions@),
                )
            },
            SubaccountFeedMessage::Update { contents } => {
                &&& (r.balance is None <==> update_assets(contents@).len() == 0)
                &&& r.balance matches Some(b) ==> is_free_balance(b, timestamp, datetime@)
                    && named_view(b.free@) == spec_free_amounts(update_assets(contents@))
            },
        },
{
    match message {
        SubaccountFeedMessage::Initial { free_collateral, asset_positions, perpetual_positions } => {
            let positions = snapshot_positions_to_ccxt(perpetual_positions, timestamp, &datetime);
            let balance = snapshot_balance(*free_collateral, asset_positions, timestamp, datetime);
            SubaccountReports { balance: Some(balance), positions }
        },
        SubaccountFeedMessage::Update { contents } => {
            let mut positions: Vec<CcxtPosition> = Vec::new();
            let mut free: Vec<(String, Decimal)> = Vec::new();
            proof {
                assert(named_view(free@) =~= Map::<Seq<char>, Decimal>::empty());
            }
            let mut i: usize = 0;
            while i < contents.len()
                invariant
                    i <= contents@.len(),
                    names_distinct(free@),
                    named_view(free@) == spec_free_amounts(update_assets(contents@.take(i as int))),
                    (update_assets(contents@.take(i as int)).len() == 0) == (free@.len() == 0),
                    positions@.len() == update_positions(contents@.take(i as int)).len(),
                    forall|j: int|
                        0 <= j < positions@.len() ==> is_ccxt_position(
                            #[trigger] positions@[j],
                            update_positions(contents@.take(i as int))[j],
                            timestamp,
                            datetime@,
                        ),
                decreases contents@.len() - i,
            {
                let ghost done_assets = update_assets(contents@.take(i as int));
                let ghost done_positions = update_positions(contents@.take(i as int));
                proof {
                    let t = contents@.take(i as int + 1);
                    assert(t.drop_last() =~= contents@.take(i as int));
                    assert(t.last() == contents@[i as int]);
                }
                match &contents[i].asset_positions {
                    Some(assets) => {
                        let mut k: usize = 0;
                        while k < assets.len()
                            invariant
                                k <= assets@.len(),
                                names_distinct(free@),
                                named_view(free@) == spec_free_amounts(
                                    done_assets + assets@.take(k as int),
                                ),
                                ((done_assets + assets@.take(k as int)).len() == 0) == (free@.len()
                                    == 0),
                            decreases assets@.len() - k,
                        {
                            proof {
                                let u = done_assets + assets@.take(k as int + 1);
                                assert(u.drop_last() =~= done_assets + assets@.take(k as int));
                                assert(u.last() == assets@[k as int]);
                            }
                            put_named(&mut free, assets[k].0.clone(), assets[k].1);
                            k = k + 1;
                        }
                        proof {
                            assert(assets@.take(assets@.len() as int) =~= assets@);
                        }
                    },
                    None => {
                        proof {
                            assert(done_assets + Seq::<(String, Decimal)>::empty() =~= done_assets);
                        }
                    },
                }
                let ghost before = positions@;
                match &contents[i].perpetual_positions {
                    Some(perps) => {
                        let mut part = updated_positions_to_ccxt(perps, timestamp, &datetime);
                        positions.append(&mut part);
                    },
                    None => {},
                }
                proof {
                    let f = update_positions(contents@.take(i as int + 1));
                    assert(f == done_positions + positions_or_empty(
                        contents@[i as int].perpetual_positions,
                    ));
                    assert forall|j: int| 0 <= j < positions@.len() implies is_ccxt_position(
                        #[trigger] positions@[j],
                        f[j],
                        timestamp,
                        datetime@,
                    ) by {
                        if j < before.len() {
                            assert(positions@[j] == before[j]);
                        }
                    }
                }
                i = i + 1;
            }
            proof {
                assert(contents@.take(contents@.len() as int) =~= contents@);
            }
            let balance = if free.len() == 0 {
                None
            } else {
                Some(
                    CcxtBalance {
                        timestamp,
                        datetime,
                        free,
                        used: Vec::new(),
                        total: Vec::new(),
                        debt: Vec::new(),
                        currencies: Vec::new(),
                    },
                )
            };
            SubaccountReports { balance, positions }
        },
    }
}

/// A price that falls between the levels before and after `i` is not held.
proof fn lemma_absent(s: Seq<BookEntry>, i: int, k: int)
    requires
        sorted_by_price(s),
        0 <= i <= s.len(),
        forall|j: int| 0 <= j < i ==> value_key(#[trigger] s[j].price) < k,
        forall|j: int| i <= j < s.len() ==> value_key(#[trigger] s[j].price) >= k,
        i < s.len() ==> value_key(s[i].price) != k,
    ensures
        !side_view(s).contains_key(k),
{
    if holds_key(s, k) {
        let j = choose|j: int| 0 <= j < s.len() && #[trigger] value_key(s[j].price) == k;
        if j > i {
            assert(value_key(s[i].price) < value_key(s[j].price));
        }
    }
}

/// Removing the level at index `i` removes its price from the view.
proof fn lemma_remove_view(s: Seq<BookEntry>, i: int)
    requires
        sorted_by_price(s),
        sorted_by_price(s.remove(i)),
        0 <= i < s.len(),
    ensures
        side_view(s.remove(i)) =~= side_view(s).remove(value_key(s[i].price)),
{
    let s1 = s.remove(i);
    let k = value_key(s[i].price);
    assert forall|x: int| #[trigger] side_view(s1).contains_key(x) == side_view(s).remove(
        k,
    ).contains_key(x) by {
        if holds_key(s1, x) {
            let j = choose|j: int| 0 <= j < s1.len() && #[trigger] value_key(s1[j].price) == x;
            let j0 = if j < i { j } else { j + 1 };
            assert(s1[j] == s[j0]);
            assert(holds_key(s, x));
            if j < i {
                assert(value_key(s[j0].price) < value_key(s[i].price));
            } else {
                assert(value_key(s[i].price) < value_key(s[j0].price));
            }
        }
        if x != k && holds_key(s, x) {
            let j = choose|j: int| 0 <= j < s.len() && #[trigger] value_key(s[j].price) == x;
            assert(j != i);
            let j1 = if j < i { j } else { j - 1 };
            assert(s1[j1] == s[j]);
            assert(holds_key(s1, x));
        }
    }
    assert forall|x: int| #[trigger] side_view(s1).contains_key(x) implies side_view(s1)[x]
        == side_view(s).remove(k)[x] by {
        let j = choose|j: int| 0 <= j < s1.len() && #[trigger] value_key(s1[j].price) == x;
        let j0 = if j < i { j } else { j + 1 };
        assert(s1[j] == s[j0]);
        lemma_view_at(s1, j);
        lemma_view_at(s, j0);
    }
}

/// Replacing the level at index `i` by one at the same price replaces it in the view.
proof fn lemma_set_view(s: Seq<BookEntry>, i: int, e: BookEntry)
    requires
        sorted_by_price(s),
        0 <= i < s.len(),
        value_key(e.price) == value_key(s[i].price),
    ensures
        sorted_by_price(s.update(i, e)),
        side_view(s.update(i, e)) =~= side_view(s).insert(value_key(e.price), e),
{
    let s1 = s.update(i, e);
    let k = value_key(e.price);
    assert forall|a: int, b: int| 0 <= a < b < s1.len() implies value_key(s1[a].price)
        < value_key(s1[b].price) by {
        assert(value_key(s1[a].price) == value_key(s[a].price));
        assert(value_key(s1[b].price) == value_key(s[b].price));
    }
    assert forall|x: int| #[trigger] side_view(s1).contains_key(x) == side_view(s).insert(
        k,
        e,
    ).contains_key(x) by {
        if holds_key(s1, x) {
            let j = choose|j: int| 0 <= j < s1.len() && #[trigger] value_key(s1[j].price) == x;
            assert(value_key(s[j].price) == x);
        }
        if holds_key(s, x) {
            let j = choose|j: int| 0 <= j < s.len() && #[trigger] value_key(s[j].price) == x;
            assert(value_key(s1[j].price) == x);
        }
        if x == k {
            assert(value_key(s1[i].price) == x);
        }
    }
    assert forall|x: int| #[trigger] side_view(s1).contains_key(x) implies side_view(s1)[x]
        == side_view(s).insert(k, e)[x] by {
        let j = choose|j: int| 0 <= j < s1.len() && #[trigger] value_key(s1[j].price) == x;
        lemma_view_at(s1, j);
        if j != i {
            lemma_view_at(s, j);
        }
    }
}

/// Inserting a level at its sorted place `i`, for a price not held, adds it to the view.
proof fn lemma_insert_view(s: Seq<BookEntry>, i: int, e: BookEntry)
    requires
        sorted_by_price(s),
        0 <= i <= s.len(),
        forall|j: int| 0 <= j < i ==> value_key(#[trigger] s[j].price) < value_key(e.price),
        forall|j: int| i <= j < s.len() ==> value_key(#[trigger] s[j].price) > value_key(e.price),
    ensures
        sorted_by_price(s.insert(i, e)),
        side_view(s.insert(i, e)) =~= side_view(s).insert(value_key(e.price), e),
{
    let s1 = s.insert(i, e);
    let k = value_key(e.price);
    assert forall|a: int, b: int| 0 <= a < b < s1.len() implies value_key(s1[a].price)
        < value_key(s1[b].price) by {
        if a < i {
            assert(s1[a] == s[a]);
        } else if a > i {
            assert(s1[a] == s[a - 1]);
        }
        if b < i {
            assert(s1[b] == s[b]);
        } else if b > i {
            assert(s1[b] == s[b - 1]);
        }
    }
    assert forall|x: int| #[trigger] side_view(s1).contains_key(x) == side_view(s).insert(
        k,
        e,
    ).contains_key(x) by {
        if holds_key(s1, x) {
            let j = choose|j: int| 0 <= j < s1.len() && #[trigger] value_key(s1[j].price) == x;
            if j < i {
                assert(s1[j] == s[j]);
                assert(holds_key(s, x));
            } else if j > i {
                assert(s1[j] == s[j - 1]);
                assert(holds_key(s, x));
            }
        }
        if holds_key(s, x) {
            let j = choose|j: int| 0 <= j < s.len() && #[trigger] value_key(s[j].price) == x;
            if j < i {
                assert(s1[j] == s[j]);
            } else {
                assert(s1[j + 1] == s[j]);
            }
            assert(holds_key(s1, x));
        }
        if x == k {
            assert(s1[i] == e);
            assert(holds_key(s1, x));
        }
    }
    assert forall|x: int| #[trigger] side_view(s1).contains_key(x) implies side_view(s1)[x]
        == side_view(s).insert(k, e)[x] by {
        let j = choose|j: int| 0 <= j < s1.len() && #[trigger] value_key(s1[j].price) == x;
        lemma_view_at(s1, j);
        if j < i {
            assert(s1[j] == s[j]);
            lemma_view_at(s, j);
        } else if j > i {
            assert(s1[j] == s[j - 1]);
            lemma_view_at(s, j - 1);
        }
    }
}

} // verus!
