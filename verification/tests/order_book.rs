use mma::decimal::Decimal;
use mma::exchange::dydx::{book_to_ccxt, BookFeedMessage, OrderBook, PriceLevel};

fn level(price: i64, scale: u32, size: i64) -> PriceLevel {
    PriceLevel { price: Decimal::new(price, scale), size: Decimal::new(size, 0) }
}

#[test]
fn levels_are_kept_sorted_by_price() {
    let mut book = OrderBook::new();
    book.update_bids(vec![level(100, 0, 1), level(101, 0, 2), level(99, 0, 3)]);
    let prices: Vec<Decimal> = book.bids.iter().map(|e| e.price).collect();
    assert_eq!(prices, vec![Decimal::new(99, 0), Decimal::new(100, 0), Decimal::new(101, 0)]);
    assert_eq!(book.offset, 3);
    let offsets: Vec<u64> = book.bids.iter().map(|e| e.offset).collect();
    assert_eq!(offsets, vec![2, 0, 1]);
}

#[test]
fn zero_size_removes_a_level() {
    let mut book = OrderBook::new();
    book.update_asks(vec![level(100, 0, 1), level(101, 0, 2)]);
    book.update_asks(vec![level(100, 0, 0)]);
    assert_eq!(book.asks.len(), 1);
    assert_eq!(book.asks[0].price, Decimal::new(101, 0));
    assert_eq!(book.offset, 2);
}

#[test]
fn removing_an_absent_price_changes_nothing() {
    let mut book = OrderBook::new();
    book.update_bids(vec![level(100, 0, 1)]);
    book.update_bids(vec![level(50, 0, 0)]);
    assert_eq!(book.bids.len(), 1);
    assert_eq!(book.offset, 1);
}

#[test]
fn equal_price_of_another_scale_replaces_the_level() {
    let mut book = OrderBook::new();
    book.update_bids(vec![level(100, 0, 1)]);
    book.update_bids(vec![level(1000, 1, 7)]);
    assert_eq!(book.bids.len(), 1);
    assert_eq!(book.bids[0].size, Decimal::new(7, 0));
    assert_eq!(book.bids[0].offset, 1);
    assert_eq!(book.bids[0].price.scale(), 0);
}

#[test]
fn book_to_ccxt_gives_highest_bid_and_lowest_ask() {
    let mut book = OrderBook::new();
    book.update_bids(vec![level(99, 0, 1), level(100, 0, 2)]);
    book.update_asks(vec![level(102, 0, 3), level(101, 0, 4)]);
    let ob = book_to_ccxt(&book, "BTC-USD", 9);
    assert_eq!(ob.bids.len(), 1);
    assert_eq!(ob.bids[0].price, Decimal::new(100, 0));
    assert_eq!(ob.bids[0].amount, Decimal::new(2, 0));
    assert_eq!(ob.asks.len(), 1);
    assert_eq!(ob.asks[0].price, Decimal::new(101, 0));
    assert_eq!(ob.asks[0].amount, Decimal::new(4, 0));
    assert_eq!(ob.symbol, "BTC-USD");
    assert_eq!(ob.nonce, Some(9));
    assert_eq!(ob.timestamp, None);
}

#[test]
fn book_to_ccxt_of_an_empty_book() {
    let book = OrderBook::new();
    let ob = book_to_ccxt(&book, "ETH-USD", 0);
    assert!(ob.bids.is_empty());
    assert!(ob.asks.is_empty());
}

#[test]
fn snapshot_replaces_the_book_and_updates_apply_to_it() {
    let mut book = OrderBook::new();
    book.update_bids(vec![level(90, 0, 1)]);
    let ob = book.handle_feed_message(
        BookFeedMessage::Initial {
            bids: vec![level(100, 0, 1)],
            asks: vec![level(105, 0, 1)],
            message_id: 1,
        },
        "BTC-USD",
    );
    assert_eq!(book.bids.len(), 1);
    assert_eq!(ob.bids[0].price, Decimal::new(100, 0));
    assert_eq!(ob.asks[0].price, Decimal::new(105, 0));
    assert_eq!(ob.nonce, Some(1));
    assert_eq!(book.offset, 3);
    let ob = book.handle_feed_message(
        BookFeedMessage::Update { bids: Some(vec![level(101, 0, 2)]), asks: None, message_id: 2 },
        "BTC-USD",
    );
    assert_eq!(ob.bids[0].price, Decimal::new(101, 0));
    assert_eq!(ob.asks[0].price, Decimal::new(105, 0));
    assert_eq!(ob.nonce, Some(2));
    assert_eq!(book.offset, 4);
}

#[test]
fn offset_bound_counts_only_levels_set() {
    let mut book = OrderBook::new();
    book.offset = u64::MAX - 1;
    let removals_and_one = BookFeedMessage::Update {
        bids: Some(vec![level(100, 0, 0), level(101, 0, 0), level(102, 0, 5)]),
        asks: None,
        message_id: 1,
    };
    assert!(book.fits_offset(&removals_and_one));
    let ob = book.handle_feed_message(removals_and_one, "BTC-USD");
    assert_eq!(book.offset, u64::MAX);
    assert_eq!(ob.bids.len(), 1);
    let one_more = BookFeedMessage::Update { bids: None, asks: Some(vec![level(103, 0, 1)]), message_id: 2 };
    assert!(!book.fits_offset(&one_more));
    let snapshot = BookFeedMessage::Initial { bids: vec![level(1, 0, 0)], asks: vec![], message_id: 3 };
    assert!(book.fits_offset(&snapshot));
}

#[test]
fn offsets_stay_distinct_across_sides() {
    let mut book = OrderBook::new();
    book.update_bids(vec![level(99, 0, 1), level(98, 0, 1)]);
    book.update_asks(vec![level(101, 0, 1), level(102, 0, 1)]);
    book.update_bids(vec![level(99, 0, 2)]);
    let mut offsets: Vec<u64> = book.bids.iter().chain(book.asks.iter()).map(|e| e.offset).collect();
    assert!(offsets.iter().all(|o| *o < book.offset));
    offsets.sort();
    offsets.dedup();
    assert_eq!(offsets.len(), 4);
}
