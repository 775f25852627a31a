use mma::common_data_representation::message::Message;
use mma::config::HyperliquidConfig;
use mma::decimal::Decimal;
use mma::exchange::hyperliquid::{
    bbo_message, feed_channel, trade_message, FeedChannel, trade_messages, Hyperliquid, WsBbo, WsLevel, WsTrade,
    WS_URL_MAINNET, WS_URL_TESTNET,
};
use mma::exchange::Info;

fn config(mainnet: bool) -> HyperliquidConfig {
    HyperliquidConfig {
        coins: vec!["BTC".to_string(), "ETH".to_string()],
        mainnet,
        address: "0xabc".to_string(),
    }
}

fn trade(price: &str, size: &str) -> WsTrade {
    WsTrade {
        coin: "BTC".to_string(),
        side: "B".to_string(),
        price: price.to_string(),
        size: size.to_string(),
        time: 7,
    }
}

#[test]
fn network_selects_the_websocket() {
    assert_eq!(Hyperliquid::new(config(true)).ws_url(), WS_URL_MAINNET);
    assert_eq!(Hyperliquid::new(config(false)).ws_url(), WS_URL_TESTNET);
    assert_eq!(WS_URL_MAINNET, "wss://api.hyperliquid.xyz/ws");
}

#[test]
fn info_of_hyperliquid() {
    let mut h = Hyperliquid::new(config(true));
    assert_eq!(h.name(), "hyperliquid");
    assert_eq!(h.symbols(), vec!["BTC".to_string(), "ETH".to_string()]);
    h.add_symbol("SOL".to_string());
    assert_eq!(h.symbols().len(), 3);
}

#[test]
fn subscriptions_are_trades_then_bbo() {
    let subs = Hyperliquid::new(config(true)).subscriptions();
    let kinds: Vec<(String, String)> = subs
        .iter()
        .map(|s| (s.subscription.kind.clone(), s.subscription.coin.clone()))
        .collect();
    assert_eq!(
        kinds,
        vec![
            ("trades".to_string(), "BTC".to_string()),
            ("trades".to_string(), "ETH".to_string()),
            ("bbo".to_string(), "BTC".to_string()),
            ("bbo".to_string(), "ETH".to_string()),
        ]
    );
    assert!(subs.iter().all(|s| s.method == "subscribe"));
}

#[test]
fn balance_request_names_the_account() {
    let r = Hyperliquid::new(config(true)).balance_of("USDC".to_string());
    assert_eq!(r.method, "post");
    assert_eq!(r.request_type, "info");
    assert_eq!(r.payload_type, "clearinghouseState");
    assert_eq!(r.user, "0xabc");
}

#[test]
fn trade_is_parsed() {
    match trade_message(trade("50000.5", "0.01")) {
        Some(Message::TradeUpdate(t)) => {
            assert_eq!(t.exchange, "hyperliquid");
            assert_eq!(t.symbol, "BTC");
            assert_eq!(t.side, "B");
            assert_eq!(t.price, Decimal::new(500005, 1));
            assert_eq!(t.size, Decimal::new(1, 2));
            assert_eq!(t.time, 7);
        }
        _ => panic!("expected a trade"),
    }
}

#[test]
fn unparsable_trades_are_skipped() {
    assert!(trade_message(trade("x", "1")).is_none());
    assert!(trade_message(trade("1", "")).is_none());
    let ms = trade_messages(vec![trade("1", "1"), trade("bad", "1"), trade("2", "1")]);
    assert_eq!(ms.len(), 2);
    match &ms[1] {
        Message::TradeUpdate(t) => assert_eq!(t.price, Decimal::new(2, 0)),
        _ => panic!("expected a trade"),
    }
}

#[test]
fn bbo_needs_both_sides() {
    let lvl = |px: &str, sz: &str| WsLevel { px: px.to_string(), sz: sz.to_string() };
    let full = WsBbo { coin: "ETH".to_string(), time: 3, bbo: [Some(lvl("99", "1")), Some(lvl("101", "2"))] };
    match bbo_message(full) {
        Some(Message::BboUpdate(b)) => {
            assert_eq!(b.bid_price, Decimal::new(99, 0));
            assert_eq!(b.bid_size, Decimal::new(1, 0));
            assert_eq!(b.ask_price, Decimal::new(101, 0));
            assert_eq!(b.ask_size, Decimal::new(2, 0));
            assert_eq!(b.mid_price, Decimal::zero());
            assert_eq!(b.symbol, "ETH");
            assert_eq!(b.time, 3);
        }
        _ => panic!("expected a bbo"),
    }
    let half = WsBbo { coin: "ETH".to_string(), time: 3, bbo: [Some(lvl("99", "1")), None] };
    assert!(bbo_message(half).is_none());
    let bad = WsBbo { coin: "ETH".to_string(), time: 3, bbo: [Some(lvl("99", "1")), Some(lvl("?", "2"))] };
    assert!(bbo_message(bad).is_none());
}

#[test]
fn channels_select_the_feed() {
    assert_eq!(feed_channel("trades"), FeedChannel::Trades);
    assert_eq!(feed_channel("bbo"), FeedChannel::Bbo);
    assert_eq!(feed_channel("subscriptionResponse"), FeedChannel::Other);
    assert_eq!(feed_channel(""), FeedChannel::Other);
}
