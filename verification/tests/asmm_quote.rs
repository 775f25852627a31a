use mma::decimal::Decimal;
use mma::exchange::types::message::asmm_quote::AsmmQuote;

#[test]
fn asmm_quote_construction_and_fields() {
    let q = AsmmQuote {
        exchange: "hyperliquid".into(),
        symbol: "BTC".into(),
        reservation_price: Decimal::new(50000, 0),
        asmm_bid_price: Decimal::new(49950, 0),
        asmm_ask_price: Decimal::new(50050, 0),
    };
    assert_eq!(q.exchange, "hyperliquid");
    assert_eq!(q.symbol, "BTC");
    assert_eq!(q.reservation_price, Decimal::new(50000, 0));
    assert_eq!(q.asmm_bid_price, Decimal::new(49950, 0));
    assert_eq!(q.asmm_ask_price, Decimal::new(50050, 0));
}

#[test]
fn asmm_quote_clone_equality() {
    let q = AsmmQuote {
        exchange: "binance".into(),
        symbol: "ETH".into(),
        reservation_price: Decimal::new(3000, 0),
        asmm_bid_price: Decimal::new(2990, 0),
        asmm_ask_price: Decimal::new(3010, 0),
    };
    let c = q.clone();
    assert_eq!(q.exchange, c.exchange);
    assert_eq!(q.symbol, c.symbol);
    assert_eq!(q.reservation_price, c.reservation_price);
    assert_eq!(q.asmm_bid_price, c.asmm_bid_price);
    assert_eq!(q.asmm_ask_price, c.asmm_ask_price);
}

#[test]
fn asmm_quote_debug_format() {
    let q = AsmmQuote {
        exchange: "test".into(),
        symbol: "XRP".into(),
        reservation_price: Decimal::new(1, 0),
        asmm_bid_price: Decimal::new(1, 1),
        asmm_ask_price: Decimal::new(2, 0),
    };
    let fmt = format!("{q:?}");
    assert!(fmt.contains("AsmmQuote"));
    assert!(fmt.contains("test"));
    assert!(fmt.contains("XRP"));
}

#[test]
fn asmm_quote_bid_below_ask() {
    let q = AsmmQuote {
        exchange: "hyperliquid".into(),
        symbol: "SOL".into(),
        reservation_price: Decimal::new(100, 0),
        asmm_bid_price: Decimal::new(99, 0),
        asmm_ask_price: Decimal::new(101, 0),
    };
    assert!(q.asmm_bid_price < q.asmm_ask_price);
}

#[test]
fn asmm_quote_zero_values_accepted() {
    let q = AsmmQuote {
        exchange: String::new(),
        symbol: String::new(),
        reservation_price: Decimal::zero(),
        asmm_bid_price: Decimal::zero(),
        asmm_ask_price: Decimal::zero(),
    };
    assert_eq!(q.reservation_price, Decimal::zero());
    assert_eq!(q.asmm_bid_price, Decimal::zero());
    assert_eq!(q.asmm_ask_price, Decimal::zero());
}
