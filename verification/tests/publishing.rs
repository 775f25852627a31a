use mma::common_data_representation::message::{BboUpdate, Message, TradeUpdate};
use mma::config::MqttConfig;
use mma::data::storage::backend::redis::{number_text, redis_url, set_arguments, BufferIds, RedisExpirationBuffer};
use mma::data::transception::mqtt::MqttPublisher;
use mma::decimal::Decimal;
use mma::mqtt::topic_for;
use mma::types::message as typed;

fn config() -> MqttConfig {
    MqttConfig {
        enabled: true,
        broker: "localhost".to_string(),
        port: 1883,
        topic_prefix: "mma".to_string(),
        client_id: "c".to_string(),
    }
}

#[test]
fn topics_of_hyperliquid_feeds() {
    let t = Message::TradeUpdate(TradeUpdate {
        exchange: "hyperliquid".to_string(),
        symbol: "BTC".to_string(),
        side: "B".to_string(),
        price: Decimal::one(),
        size: Decimal::one(),
        time: 0,
    });
    assert_eq!(topic_for(&config(), &t), Some("mma/hyperliquid/trades/BTC".to_string()));
    let b = Message::BboUpdate(BboUpdate {
        exchange: "hyperliquid".to_string(),
        symbol: "ETH".to_string(),
        bid_price: Decimal::one(),
        bid_size: Decimal::one(),
        ask_price: Decimal::one(),
        ask_size: Decimal::one(),
        time: 0,
        mid_price: Decimal::one(),
    });
    assert_eq!(topic_for(&config(), &b), Some("mma/hyperliquid/bbo/ETH".to_string()));
    assert_eq!(topic_for(&config(), &Message::empty()), None);
}

#[test]
fn publications_of_each_message() {
    let q = typed::Message::AsmmQuote(typed::AsmmQuote {
        exchange: "dydx".to_string(),
        symbol: "BTC-USD".to_string(),
        reservation_price: Decimal::new(100, 0),
        asmm_bid_price: Decimal::new(99, 0),
        asmm_ask_price: Decimal::new(101, 0),
    });
    let ps = MqttPublisher::publications(&config(), &q);
    let topics: Vec<String> = ps.iter().map(|p| p.topic.clone()).collect();
    assert_eq!(
        topics,
        vec![
            "mma/dydx/reservation_price/BTC-USD".to_string(),
            "mma/dydx/asmm_bid_price/BTC-USD".to_string(),
            "mma/dydx/asmm_ask_price/BTC-USD".to_string(),
        ]
    );
    assert_eq!(ps[1].price, Decimal::new(99, 0));
    assert_eq!(ps[2].kind, "asmm_ask_price");
    let t = typed::Message::TradeUpdate(typed::TradeUpdate {
        exchange: "dydx".to_string(),
        symbol: "ETH-USD".to_string(),
        side: "sell".to_string(),
        price: Decimal::new(3000, 0),
        size: Decimal::one(),
        time: 1,
    });
    let ps = MqttPublisher::publications(&config(), &t);
    assert_eq!(ps.len(), 1);
    assert_eq!(ps[0].topic, "mma/dydx/price/ETH-USD");
    assert!(MqttPublisher::publications(&config(), &typed::Message::empty()).is_empty());
}

#[test]
fn redis_names() {
    assert_eq!(number_text(0), "0");
    assert_eq!(number_text(1234567890), "1234567890");
    assert_eq!(number_text(u64::MAX), u64::MAX.to_string());
    assert_eq!(redis_url("/tmp/r.sock"), "redis+unix:///tmp/r.sock");
    let b = RedisExpirationBuffer::new("/tmp/r.sock", 300, 42);
    assert_eq!(b.key(), "mma:expiration_buffer:42");
    assert_eq!(b.url(), "redis+unix:///tmp/r.sock");
    assert_eq!(b.ttl(), 300);
    assert_ne!(RedisExpirationBuffer::new("/tmp/r.sock", 300, 4).key(), RedisExpirationBuffer::new("/tmp/r.sock", 300, 42).key());
    assert_ne!(RedisExpirationBuffer::new("/tmp/r.sock", 300, 1).key(), RedisExpirationBuffer::new("/tmp/r.sock", 300, 10).key());
}

#[test]
fn set_command_arguments() {
    assert_eq!(set_arguments("k", "v", None), vec!["k".to_string(), "v".to_string()]);
    assert_eq!(
        set_arguments("k", "v", Some(300_000_000_000)),
        vec!["k".to_string(), "v".to_string(), "EX".to_string(), "300".to_string()]
    );
    assert_eq!(set_arguments("k", "v", Some(1_999_999_999))[3], "1");
    assert_eq!(set_arguments("k", "v", Some(999))[3], "0");
}

#[test]
fn buffer_ids_give_each_buffer_its_own_key() {
    let mut ids = BufferIds::new();
    let a = ids.next_buffer("/tmp/r.sock", 60);
    let b = ids.next_buffer("/tmp/r.sock", 60);
    assert_eq!(a.key(), "mma:expiration_buffer:0");
    assert_eq!(b.key(), "mma:expiration_buffer:1");
    assert_eq!(b.ttl(), 60);
    assert_eq!(b.url(), "redis+unix:///tmp/r.sock");
}
