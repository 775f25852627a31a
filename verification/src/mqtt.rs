//! Publishing messages to the MQTT broker: which topic each message goes to.

use vstd::prelude::*;
use vstd::string::StringExecFns;
use crate::common_data_representation::message::Message;
use crate::config::MqttConfig;

verus! {

/// Publishes the messages of the disruptor to the MQTT broker.
pub struct MqttPublisher;

/// The topic of a Hyperliquid feed: `{prefix}/hyperliquid/{kind}/{symbol}`.
pub open spec fn feed_topic(prefix: Seq<char>, kind: Seq<char>, symbol: Seq<char>) -> Seq<char> {
    prefix + "/hyperliquid/"@ + kind + "/"@ + symbol
}

/// The topic a message is published to: trades under `trades`, best bids and offers under
/// `bbo`; an empty message is not published.
pub fn topic_for(config: &MqttConfig, msg: &Message) -> (t: Option<String>)
    ensures
        match *msg {
            Message::TradeUpdate(tr) => t matches Some(s) && s@ == feed_topic(
                config.topic_prefix@,
                "trades"@,
                tr.symbol@,
            ),
            Message::BboUpdate(b) => t matches Some(s) && s@ == feed_topic(
                config.topic_prefix@,
                "bbo"@,
                b.symbol@,
            ),
            Message::Empty => t is None,
        },
{
    let (kind, symbol) = match msg {
        Message::TradeUpdate(t) => ("trades", t.symbol.as_str()),
        Message::BboUpdate(b) => ("bbo", b.symbol.as_str()),
        Message::Empty => {
            return None;
        },
    };
    Some(
        config.topic_prefix.clone().concat("/hyperliquid/").concat(kind).concat("/").concat(
            symbol,
        ),
    )
}

} // verus!
