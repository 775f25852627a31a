//! The Hyperliquid exchange: the subscriptions made on its websocket and the turning of its
//! trades and best-bid-and-offer data into messages.
//!
//! <https://hyperliquid.gitbook.io/hyperliquid-docs/for-developers/api/>

use vstd::prelude::*;
use vstd::string::StringExecFns;
use crate::common_data_representation::message::{BboUpdate, Message, TradeUpdate};
use crate::config::HyperliquidConfig;
use crate::decimal::{Decimal, decimal_from_str};
use crate::exchange::Info;

verus! {

/// The websocket of the main network.
pub const WS_URL_MAINNET: &'static str = "wss://api.hyperliquid.xyz/ws";

/// The websocket of the test network.
pub const WS_URL_TESTNET: &'static str = "wss://api.hyperliquid-testnet.xyz/ws";

/// The connection to Hyperliquid: the coins followed, the websocket and the account.
pub struct Hyperliquid {
    coins: Vec<String>,
    ws_url: String,
    address: String,
}

/// A subscription message: `{"method": "subscribe", "subscription": {"type": .., "coin": ..}}`.
#[derive(Debug, Clone)]
pub struct Subscription {
    pub method: String,
    pub subscription: SubscriptionParams,
}

/// What a subscription asks for: a feed (`trades`, `bbo`) of one coin.
#[derive(Debug, Clone)]
pub struct SubscriptionParams {
    pub kind: String,
    pub coin: String,
}

/// One trade of the `trades` feed, prices and sizes as text.
#[derive(Debug, Clone)]
pub struct WsTrade {
    pub coin: String,
    pub side: String,
    pub price: String,
    pub size: String,
    pub time: u64,
}

/// One price level of the `bbo` feed, as text.
#[derive(Debug, Clone)]
pub struct WsLevel {
    pub px: String,
    pub sz: String,
}

/// The best bid and offer of the `bbo` feed; either side may be missing.
#[derive(Debug, Clone)]
pub struct WsBbo {
    pub coin: String,
    pub time: u64,
    pub bbo: [Option<WsLevel>; 2],
}

/// A request for the balances of an account (`clearinghouseState`), posted on the websocket.
#[derive(Debug, Clone)]
pub struct BalanceRequest {
    pub method: String,
    pub id: u64,
    pub request_type: String,
    pub payload_type: String,
    pub user: String,
}

impl Hyperliquid {
    /// The coins followed.
    pub closed spec fn coins_view(&self) -> Seq<Seq<char>> {
        self.coins@.map_values(|c: String| c@)
    }

    /// The websocket address.
    pub closed spec fn ws_url_view(&self) -> Seq<char> {
        self.ws_url@
    }

    /// The account address.
    pub closed spec fn address_view(&self) -> Seq<char> {
        self.address@
    }

    /// A connection for the configured coins and account, on the main network or the test
    /// network.
    pub fn new(cfg: HyperliquidConfig) -> (h: Self)
        ensures
            h.coins_view() == cfg.coins@.map_values(|c: String| c@),
            h.symbols_view() == cfg.coins@.map_values(|c: String| c@),
            h.address_view() == cfg.address@,
            h.ws_url_view() == (if cfg.mainnet {
                WS_URL_MAINNET@
            } else {
                WS_URL_TESTNET@
            }),
    {
        let ws_url = if cfg.mainnet {
            WS_URL_MAINNET
        } else {
            WS_URL_TESTNET
        };
        Self { coins: cfg.coins, ws_url: String::from_str(ws_url), address: cfg.address }
    }

    /// The websocket address.
    pub fn ws_url(&self) -> (u: &str)
        ensures
            u@ == self.ws_url_view(),
    {
        self.ws_url.as_str()
    }

    /// The subscriptions made once connected: the trades of every coin, then the best bid
    /// and offer of every coin.
    pub fn subscriptions(&self) -> (subs: Vec<Subscription>)
        ensures
            subs@.len() == 2 * self.coins_view().len(),
            forall|i: int|
                0 <= i < subs@.len() ==> {
                    let n = self.coins_view().len() as int;
                    &&& (#[trigger] subs@[i]).method@ == "subscribe"@
                    &&& subs@[i].subscription.kind@ == (if i < n {
                        "trades"@
                    } else {
                        "bbo"@
                    })
                    &&& subs@[i].subscription.coin@ == self.coins_view()[if i < n {
                        i
                    } else {
                        i - n
                    }]
                },
    {
        let mut subs: Vec<Subscription> = Vec::new();
        let n = self.coins.len();
        let mut i: usize = 0;
        while i < n
            invariant
                i <= n,
                n == self.coins@.len(),
                subs@.len() == i,
                forall|j: int|
                    0 <= j < i ==> {
                        &&& (#[trigger] subs@[j]).method@ == "subscribe"@
                        &&& subs@[j].subscription.kind@ == "trades"@
                        &&& subs@[j].subscription.coin@ == self.coins@[j]@
                    },
            decreases n - i,
        {
            subs.push(
                Subscription {
                    method: String::from_str("subscribe"),
                    subscription: SubscriptionParams {
                        kind: String::from_str("trades"),
                        coin: self.coins[i].clone(),
                    },
                },
            );
            i = i + 1;
        }
        let mut i: usize = 0;
        while i < n
            invariant
                i <= n,
                n == self.coins@.len(),
                subs@.len() == n + i,
                forall|j: int|
                    0 <= j < n + i ==> {
                        &&& (#[trigger] subs@[j]).method@ == "subscribe"@
                        &&& subs@[j].subscription.kind@ == (if j < n {
                            "trades"@
                        } else {
                            "bbo"@
                        })
                        &&& subs@[j].subscription.coin@ == self.coins@[if j < n {
                            j
                        } else {
                            j - n
                        }]@
                    },
            decreases n - i,
        {
            subs.push(
                Subscription {
                    method: String::from_str("subscribe"),
                    subscription: SubscriptionParams {
                        kind: String::from_str("bbo"),
                        coin: self.coins[i].clone(),
                    },
                },
            );
            i = i + 1;
        }
        subs
    }

    /// The request for the balances of the account (the symbol is not used).
    pub fn balance_of(&self, _symbol: String) -> (req: BalanceRequest)
        ensures
            req.method@ == "post"@,
            req.id == 0,
            req.request_type@ == "info"@,
            req.payload_type@ == "clearinghouseState"@,
            req.user@ == self.address_view(),
    {
        BalanceRequest {
            method: String::from_str("post"),
            id: 0,
            request_type: String::from_str("info"),
            payload_type: String::from_str("clearinghouseState"),
            user: self.address.clone(),
        }
    }
}

impl Info for Hyperliquid {
    open spec fn name_view(&self) -> Seq<char> {
        "hyperliquid"@
    }

    closed spec fn symbols_view(&self) -> Seq<Seq<char>> {
        self.coins_view()
    }

    fn add_symbol(&mut self, symbol: String) {
        self.coins.push(symbol);
        proof {
            assert(self.coins@.map_values(|c: String| c@) =~= old(self).coins@.map_values(
                |c: String| c@,
            ).push(symbol@));
        }
    }

    fn symbols(&self) -> (s: Vec<String>) {
        let mut s: Vec<String> = Vec::new();
        let mut i: usize = 0;
        while i < self.coins.len()
            invariant
                i <= self.coins@.len(),
                s@.len() == i,
                forall|j: int| 0 <= j < i ==> (#[trigger] s@[j])@ == self.coins@[j]@,
            decreases self.coins@.len() - i,
        {
            s.push(self.coins[i].clone());
            i = i + 1;
        }
        proof {
            assert(s@.map_values(|x: String| x@) =~= self.coins@.map_values(|c: String| c@));
        }
        s
    }

    fn name(&self) -> (n: String) {
        String::from_str("hyperliquid")
    }
}

/// The feeds a websocket message can come from.
#[derive(Debug, Clone, Copy, PartialEq, Eq, Structural)]
pub enum FeedChannel {
    Trades,
    Bbo,
    Other,
}

/// The feed of a websocket message, by the name of its channel: `trades`, `bbo`, or another
/// one, which is ignored.
pub fn feed_channel(channel: &str) -> (c: FeedChannel)
    ensures
        channel@ == "trades"@ ==> c == FeedChannel::Trades,
        channel@ == "bbo"@ ==> c == FeedChannel::Bbo,
        channel@ != "trades"@ && channel@ != "bbo"@ ==> c == FeedChannel::Other,
{
    let name = String::from_str(channel);
    proof {
        reveal_strlit("trades");
        reveal_strlit("bbo");
        assert("trades"@ != "bbo"@) by {
            assert("trades"@[0] != "bbo"@[0]);
        }
    }
    if name == String::from_str("trades") {
        FeedChannel::Trades
    } else if name == String::from_str("bbo") {
        FeedChannel::Bbo
    } else {
        FeedChannel::Other
    }
}

/// A copy of a trade.
fn copy_trade(t: &WsTrade) -> (r: WsTrade)
    ensures
        r == *t,
{
    WsTrade {
        coin: t.coin.clone(),
        side: t.side.clone(),
        price: t.price.clone(),
        size: t.size.clone(),
        time: t.time,
    }
}

/// Whether `m` is the trade message for `trade` at the parsed price and size.
pub open spec fn is_trade_message(m: Message, trade: WsTrade, price: Decimal, size: Decimal) -> bool {
    &&& m is TradeUpdate
    &&& m->TradeUpdate_0.exchange@ == "hyperliquid"@
    &&& m->TradeUpdate_0.symbol@ == trade.coin@
    &&& m->TradeUpdate_0.side@ == trade.side@
    &&& m->TradeUpdate_0.price == price
    &&& m->TradeUpdate_0.size == size
    &&& m->TradeUpdate_0.time == trade.time
}

/// Whether the price and the size of a trade both parse.
pub open spec fn trade_parses(trade: WsTrade) -> bool {
    decimal_from_str(trade.price@) is Some && decimal_from_str(trade.size@) is Some
}

/// The trades whose price and size both parse, in order.
pub open spec fn parsed_trades(trades: Seq<WsTrade>) -> Seq<WsTrade>
    decreases trades.len(),
{
    if trades.len() == 0 {
        Seq::empty()
    } else if trade_parses(trades.last()) {
        parsed_trades(trades.drop_last()).push(trades.last())
    } else {
        parsed_trades(trades.drop_last())
    }
}

/// The message for a trade whose price and size were parsed (`None` where either did not
/// parse: such a trade is skipped).
pub fn trade_message_from(trade: WsTrade, price: Option<Decimal>, size: Option<Decimal>) -> (m:
    Option<Message>)
    ensures
        m is Some <==> price is Some && size is Some,
        m matches Some(msg) ==> is_trade_message(msg, trade, price->0, size->0),
{
    let price = match price {
        Some(p) => p,
        None => {
            return None;
        },
    };
    let size = match size {
        Some(s) => s,
        None => {
            return None;
        },
    };
    Some(
        Message::TradeUpdate(
            TradeUpdate {
                exchange: String::from_str("hyperliquid"),
                symbol: trade.coin,
                side: trade.side,
                price,
                size,
                time: trade.time,
            },
        ),
    )
}

/// The message for a trade of the `trades` feed; `None` when its price or size does not
/// parse as a decimal.
pub fn trade_message(trade: WsTrade) -> (m: Option<Message>)
    ensures
        m is Some <==> trade_parses(trade),
        m matches Some(msg) ==> is_trade_message(
            msg,
            trade,
            decimal_from_str(trade.price@)->0,
            decimal_from_str(trade.size@)->0,
        ),
{
    let price = Decimal::from_str(trade.price.as_str());
    let size = Decimal::from_str(trade.size.as_str());
    trade_message_from(trade, price, size)
}

/// The messages for the trades of one `trades` update: one per trade whose price and size
/// parse, in order.
pub fn trade_messages(trades: Vec<WsTrade>) -> (ms: Vec<Message>)
    ensures
        ms@.len() == parsed_trades(trades@).len(),
        forall|i: int|
            0 <= i < ms@.len() ==> is_trade_message(
                #[trigger] ms@[i],
                parsed_trades(trades@)[i],
                decimal_from_str(parsed_trades(trades@)[i].price@)->0,
                decimal_from_str(parsed_trades(trades@)[i].size@)->0,
            ),
{
    let mut ms: Vec<Message> = Vec::new();
    let mut i: usize = 0;
    while i < trades.len()
        invariant
            i <= trades@.len(),
            ms@.len() == parsed_trades(trades@.take(i as int)).len(),
            forall|j: int|
                0 <= j < ms@.len() ==> is_trade_message(
                    #[trigger] ms@[j],
                    parsed_trades(trades@.take(i as int))[j],
                    decimal_from_str(parsed_trades(trades@.take(i as int))[j].price@)->0,
                    decimal_from_str(parsed_trades(trades@.take(i as int))[j].size@)->0,
                ),
        decreases trades@.len() - i,
    {
        let ghost before = parsed_trades(trades@.take(i as int));
        proof {
            assert(trades@.take(i as int + 1).drop_last() =~= trades@.take(i as int));
            assert(trades@.take(i as int + 1).last() == trades@[i as int]);
        }
        let trade = copy_trade(&trades[i]);
        match trade_message(trade) {
            Some(m) => {
                ms.push(m);
            },
            None => {},
        }
        i = i + 1;
    }
    proof {
        assert(trades@.take(trades@.len() as int) =~= trades@);
    }
    ms
}

/// The four decimals of a best bid and offer, when both sides are present and every price
/// and size parses: (bid price, bid size, ask price, ask size).
pub open spec fn parsed_bbo(bbo: WsBbo) -> Option<(Decimal, Decimal, Decimal, Decimal)> {
    match (bbo.bbo[0], bbo.bbo[1]) {
        (Some(bid), Some(ask)) => match (
            decimal_from_str(bid.px@),
            decimal_from_str(bid.sz@),
            decimal_from_str(ask.px@),
            decimal_from_str(ask.sz@),
        ) {
            (Some(bp), Some(bs), Some(ap), Some(az)) => Some((bp, bs, ap, az)),
            _ => None,
        },
        _ => None,
    }
}

/// Whether `m` is the best-bid-and-offer message for `bbo` with the given decimals; the mid
/// price is left at zero.
pub open spec fn is_bbo_message(m: Message, bbo: WsBbo, d: (Decimal, Decimal, Decimal, Decimal)) -> bool {
    &&& m is BboUpdate
    &&& m->BboUpdate_0.exchange@ == "hyperliquid"@
    &&& m->BboUpdate_0.symbol@ == bbo.coin@
    &&& m->BboUpdate_0.bid_price == d.0
    &&& m->BboUpdate_0.bid_size == d.1
    &&& m->BboUpdate_0.ask_price == d.2
    &&& m->BboUpdate_0.ask_size == d.3
    &&& m->BboUpdate_0.time == bbo.time
    &&& m->BboUpdate_0.mid_price.mantissa_of() == 0
    &&& m->BboUpdate_0.mid_price.scale_of() == 0
}

/// The message for an update of the `bbo` feed; `None` when a side is missing or a price or
/// size does not parse (such an update is skipped).
pub fn bbo_message(bbo: WsBbo) -> (m: Option<Message>)
    ensures
        m is Some <==> parsed_bbo(bbo) is Some,
        m matches Some(msg) ==> is_bbo_message(msg, bbo, parsed_bbo(bbo)->0),
{
    let (bid, ask) = match (&bbo.bbo[0], &bbo.bbo[1]) {
        (Some(b), Some(a)) => (b, a),
        _ => {
            return None;
        },
    };
    let bid_price = match Decimal::from_str(bid.px.as_str()) {
        Some(p) => p,
        None => {
            return None;
        },
    };
    let bid_size = match Decimal::from_str(bid.sz.as_str()) {
        Some(p) => p,
        None => {
            return None;
        },
    };
    let ask_price = match Decimal::from_str(ask.px.as_str()) {
        Some(p) => p,
        None => {
            return None;
        },
    };
    let ask_size = match Decimal::from_str(ask.sz.as_str()) {
        Some(p) => p,
        None => {
            return None;
        },
    };
    Some(
        Message::BboUpdate(
            BboUpdate {
                exchange: String::from_str("hyperliquid"),
                symbol: bbo.coin.clone(),
                bid_price,
                bid_size,
                ask_price,
                ask_size,
                time: bbo.time,
                mid_price: Decimal::zero(),
            },
        ),
    )
}

} // verus!
