//! `mqtt` publishes data to the broker; data is only published, never read.

use vstd::prelude::*;
use vstd::string::StringExecFns;
use crate::config::MqttConfig;
use crate::decimal::Decimal;
use crate::types::message::Message;

verus! {

/// Publishes the messages of the disruptor to the MQTT broker.
pub struct MqttPublisher;

/// One value to publish: a price under a topic, with the name of what it is.
#[derive(Debug, Clone)]
pub struct Publication {
    pub topic: String,
    pub kind: String,
    pub price: Decimal,
}

/// The topic of a value: `{prefix}/{exchange}/{kind}/{symbol}`.
pub open spec fn value_topic(prefix: Seq<char>, exchange: Seq<char>, kind: Seq<char>, symbol: Seq<char>) -> Seq<char> {
    prefix + "/"@ + exchange + "/"@ + kind + "/"@ + symbol
}

/// Whether `p` publishes `price` as `kind` for a market of an exchange.
pub open spec fn is_publication(
    p: Publication,
    prefix: Seq<char>,
    exchange: Seq<char>,
    symbol: Seq<char>,
    kind: Seq<char>,
    price: Decimal,
) -> bool {
    &&& p.topic@ == value_topic(prefix, exchange, kind, symbol)
    &&& p.kind@ == kind
    &&& p.price == price
}

/// The publication of one value of a message.
fn publication(config: &MqttConfig, exchange: &str, symbol: &str, kind: &str, price: Decimal) -> (p:
    Publication)
    ensures
        is_publication(p, config.topic_prefix@, exchange@, symbol@, kind@, price),
{
    let topic = config.topic_prefix.clone().concat("/").concat(exchange).concat("/").concat(
        kind,
    ).concat("/").concat(symbol);
    Publication { topic, kind: String::from_str(kind), price }
}

impl MqttPublisher {
    /// The values a message publishes, in order: the price of a trade; the bid, the ask and
    /// the mid price of a best bid and offer; the reservation price and the bid and ask of
    /// the strategy's quotes. Balances and empty messages publish nothing.
    pub fn publications(config: &MqttConfig, msg: &Message) -> (ps: Vec<Publication>)
        ensures
            match *msg {
                Message::TradeUpdate(t) => ps@.len() == 1 && is_publication(
                    ps@[0],
                    config.topic_prefix@,
                    t.exchange@,
                    t.symbol@,
                    "price"@,
                    t.price,
                ),
                Message::BboUpdate(b) => {
                    &&& ps@.len() == 3
                    &&& is_publication(ps@[0], config.topic_prefix@, b.exchange@, b.symbol@, "bid"@, b.bid_price)
                    &&& is_publication(ps@[1], config.topic_prefix@, b.exchange@, b.symbol@, "ask"@, b.ask_price)
                    &&& is_publication(
                        ps@[2],
                        config.topic_prefix@,
                        b.exchange@,
                        b.symbol@,
                        "mid_price"@,
                        b.mid_price,
                    )
                },
                Message::AsmmQuote(q) => {
                    &&& ps@.len() == 3
                    &&& is_publication(
                        ps@[0],
                        config.topic_prefix@,
                        q.exchange@,
                        q.symbol@,
                        "reservation_price"@,
                        q.reservation_price,
                    )
                    &&& is_publication(
                        ps@[1],
                        config.topic_prefix@,
                        q.exchange@,
                        q.symbol@,
                        "asmm_bid_price"@,
                        q.asmm_bid_price,
                    )
                    &&& is_publication(
                        ps@[2],
                        config.topic_prefix@,
                        q.exchange@,
                        q.symbol@,
                        "asmm_ask_price"@,
                        q.asmm_ask_price,
                    )
                },
                Message::BalanceUpdate(_) => ps@.len() == 0,
                Message::Empty => ps@.len() == 0,
            },
    {
        let mut ps: Vec<Publication> = Vec::new();
        match msg {
            Message::TradeUpdate(t) => {
                ps.push(publication(config, t.exchange.as_str(), t.symbol.as_str(), "price", t.price));
            },
            Message::BboUpdate(b) => {
                let ex = b.exchange.as_str();
                let sym = b.symbol.as_str();
                ps.push(publication(config, ex, sym, "bid", b.bid_price));
                ps.push(publication(config, ex, sym, "ask", b.ask_price));
                ps.push(publication(config, ex, sym, "mid_price", b.mid_price));
            },
            Message::AsmmQuote(q) => {
                let ex = q.exchange.as_str();
                let sym = q.symbol.as_str();
                ps.push(publication(config, ex, sym, "reservation_price", q.reservation_price));
                ps.push(publication(config, ex, sym, "asmm_bid_price", q.asmm_bid_price));
                ps.push(publication(config, ex, sym, "asmm_ask_price", q.asmm_ask_price));
            },
            Message::BalanceUpdate(_) => {},
            Message::Empty => {},
        }
        ps
    }
}

} // verus!
