//! The market making strategy of Avellaneda and Stoikov.
//!
//! <https://people.orie.cornell.edu/sfs33/LimitOrderBook.pdf>
//! <https://doi.org/10.1080/14697680701381228>

use vstd::prelude::*;
use vstd::string::StringExecFns;
use crate::ccxt::{CcxtMessage, CcxtOrderBook};
use crate::common_data_representation::memory_storage::hashmap_storage::HashMapStorage;
use crate::common_data_representation::memory_storage::ttl_buffer_hashmap_storage::{
    TtlBufferHashMapStorage,
    after_set,
    stamped_no_later,
};
use crate::common_data_representation::memory_storage::{MemoryStorage, TtlBufferStorage};
use crate::config::AppConfig;
use crate::decimal::{
    Decimal,
    decimal_checked_add,
    decimal_checked_div,
    decimal_checked_ln,
    decimal_checked_mul,
    decimal_checked_powi,
    decimal_checked_sub,
};
use crate::exchange::Info;

verus! {

/// The reservation price `s - q γ σ²`, each step done by `rust_decimal`; `None` where a
/// step overflows.
pub open spec fn spec_reservation_price(s: Decimal, q: Decimal, gamma: Decimal, sigma: Decimal) -> Option<
    Decimal,
> {
    match decimal_checked_mul(q, gamma) {
        Some(qg) => match decimal_checked_powi(sigma, 2) {
            Some(sigma2) => match decimal_checked_mul(qg, sigma2) {
                Some(risk) => decimal_checked_sub(s, risk),
                None => None,
            },
            None => None,
        },
        None => None,
    }
}

/// The optimal spread `2 / γ * ln(1 + γ / κ)`, each step done by `rust_decimal`; `None`
/// where a step fails (a division by zero, an overflow, a logarithm of a number that is
/// not positive).
pub open spec fn spec_optimal_spread(gamma: Decimal, kappa: Decimal) -> Option<Decimal> {
    match decimal_checked_div(Decimal::from_parts(2, 0), gamma) {
        Some(a) => match decimal_checked_div(gamma, kappa) {
            Some(b) => match decimal_checked_add(Decimal::from_parts(1, 0), b) {
                Some(c) => match decimal_checked_ln(c) {
                    Some(l) => decimal_checked_mul(a, l),
                    None => None,
                },
                None => None,
            },
            None => None,
        },
        None => None,
    }
}

/// The inventory risk `q·γ·σ²`: the inventory times the risk aversion, then times the
/// square of the volatility, each step done by `rust_decimal`.
pub open spec fn inventory_risk(q: Decimal, gamma: Decimal, sigma: Decimal) -> Option<Decimal> {
    match decimal_checked_mul(q, gamma) {
        Some(qg) => match decimal_checked_powi(sigma, 2) {
            Some(sigma2) => decimal_checked_mul(qg, sigma2),
            None => None,
        },
        None => None,
    }
}

/// The reservation price is the mid price `s` minus the inventory risk `q·γ·σ²`: whatever
/// the sign of the inventory, the risk is subtracted from `s` (a short inventory has a
/// negative risk and so raises the price, a long one lowers it), and the price exists
/// exactly when the risk and that subtraction do. The mid price enters only through the
/// subtraction: two mid prices with the same inventory, risk aversion and volatility are
/// moved by the same risk.
pub proof fn lemma_reservation_price_subtracts_risk(
    s: Decimal,
    s2: Decimal,
    q: Decimal,
    gamma: Decimal,
    sigma: Decimal,
)
    ensures
        spec_reservation_price(s, q, gamma, sigma) == (match inventory_risk(q, gamma, sigma) {
            Some(risk) => decimal_checked_sub(s, risk),
            None => None,
        }),
        inventory_risk(q, gamma, sigma) matches Some(risk) ==> spec_reservation_price(
            s,
            q,
            gamma,
            sigma,
        ) == decimal_checked_sub(s, risk) && spec_reservation_price(s2, q, gamma, sigma)
            == decimal_checked_sub(s2, risk),
{
}

/// The first factor of the optimal spread, `2/γ`: it depends on the risk aversion alone.
pub open spec fn spread_scale(gamma: Decimal) -> Option<Decimal> {
    decimal_checked_div(Decimal::from_parts(2, 0), gamma)
}

/// The second factor of the optimal spread, `ln(1 + γ/κ)`: the logarithm of one plus the
/// risk aversion divided by the liquidity.
pub open spec fn spread_log(gamma: Decimal, kappa: Decimal) -> Option<Decimal> {
    match decimal_checked_div(gamma, kappa) {
        Some(ratio) => match decimal_checked_add(Decimal::from_parts(1, 0), ratio) {
            Some(c) => decimal_checked_ln(c),
            None => None,
        },
        None => None,
    }
}

/// The optimal spread is the product of `2/γ` and `ln(1 + γ/κ)`, with `γ` the first
/// argument and `κ` the second: it exists exactly when both factors and their product do.
/// The first factor is the same for every liquidity, so two spreads at the same risk
/// aversion differ only through their logarithms.
pub proof fn lemma_optimal_spread_factors(gamma: Decimal, kappa: Decimal, kappa2: Decimal)
    ensures
        spec_optimal_spread(gamma, kappa) == (match spread_scale(gamma) {
            Some(a) => match spread_log(gamma, kappa) {
                Some(l) => decimal_checked_mul(a, l),
                None => None,
            },
            None => None,
        }),
        spec_optimal_spread(gamma, kappa) is Some && spec_optimal_spread(gamma, kappa2) is Some
            ==> {
            let a = spread_scale(gamma)->0;
            &&& spread_scale(gamma) is Some
            &&& spec_optimal_spread(gamma, kappa) == decimal_checked_mul(a, spread_log(gamma, kappa)->0)
            &&& spec_optimal_spread(gamma, kappa2) == decimal_checked_mul(
                a,
                spread_log(gamma, kappa2)->0,
            )
        },
{
}

/// The reservation price of the strategy: the mid price moved against the inventory `q`,
/// by the risk aversion `γ` and the volatility `σ`. `None` where `rust_decimal` overflows.
pub fn reservation_price(s: Decimal, q: Decimal, gamma: Decimal, sigma: Decimal) -> (r: Option<
    Decimal,
>)
    ensures
        r == spec_reservation_price(s, q, gamma, sigma),
{
    let qg = match q.checked_mul(gamma) {
        Some(x) => x,
        None => {
            return None;
        },
    };
    let sigma2 = match sigma.checked_powi(2) {
        Some(x) => x,
        None => {
            return None;
        },
    };
    let risk = match qg.checked_mul(sigma2) {
        Some(x) => x,
        None => {
            return None;
        },
    };
    s.checked_sub(risk)
}

/// The optimal spread of the strategy, from the risk aversion `γ` and the order book
/// liquidity `κ` (the volatility `σ` does not enter it). `None` where `rust_decimal` fails.
pub fn optimal_spread(gamma: Decimal, kappa: Decimal) -> (r: Option<Decimal>)
    ensures
        r == spec_optimal_spread(gamma, kappa),
{
    let one = Decimal::one();
    let two = Decimal::two();
    let a = match two.checked_div(gamma) {
        Some(x) => x,
        None => {
            return None;
        },
    };
    let b = match gamma.checked_div(kappa) {
        Some(x) => x,
        None => {
            return None;
        },
    };
    let c = match one.checked_add(b) {
        Some(x) => x,
        None => {
            return None;
        },
    };
    let l = match c.checked_ln() {
        Some(x) => x,
        None => {
            return None;
        },
    };
    a.checked_mul(l)
}

/// The key of a value of the state: `{exchange}_{symbol}` followed by a suffix.
pub open spec fn state_key(exchange: Seq<char>, symbol: Seq<char>, suffix: Seq<char>) -> Seq<char> {
    exchange + "_"@ + symbol + suffix
}

/// The key under which a value of the state is kept: `{exchange}_{symbol}{suffix}`.
pub fn key_for(exchange: &str, symbol: &str, suffix: &str) -> (k: String)
    ensures
        k@ == state_key(exchange@, symbol@, suffix@),
{
    String::from_str(exchange).concat("_").concat(symbol).concat(suffix)
}

/// How long traded prices are kept: five minutes, in nanoseconds.
pub open spec fn trades_window() -> u64 {
    300_000_000_000
}

/// The state of the strategy: the latest value of each variable (γ, σ, κ, q, best bid
/// and ask, mid price, last traded price) and the prices traded in the last five minutes.
pub struct AvellanedaStoikovState {
    pub state: HashMapStorage<Decimal>,
    pub trades: TtlBufferHashMapStorage<Decimal>,
}

/// The variables of one symbol once initialized: γ from the configuration, σ and κ at
/// one, no inventory (q at zero).
pub open spec fn init_symbol(
    m: Map<Seq<char>, Decimal>,
    exchange: Seq<char>,
    symbol: Seq<char>,
    gamma: Decimal,
) -> Map<Seq<char>, Decimal> {
    m.insert(state_key(exchange, symbol, "_γ"@), gamma).insert(
        state_key(exchange, symbol, "_σ"@),
        Decimal::from_parts(1, 0),
    ).insert(state_key(exchange, symbol, "_κ"@), Decimal::from_parts(1, 0)).insert(
        state_key(exchange, symbol, "_q"@),
        Decimal::from_parts(0, 0),
    )
}

/// The variables of every symbol, initialized in order.
pub open spec fn init_symbols(
    m: Map<Seq<char>, Decimal>,
    exchange: Seq<char>,
    symbols: Seq<Seq<char>>,
    gamma: Decimal,
) -> Map<Seq<char>, Decimal>
    decreases symbols.len(),
{
    if symbols.len() == 0 {
        m
    } else {
        init_symbol(
            init_symbols(m, exchange, symbols.drop_last(), gamma),
            exchange,
            symbols.last(),
            gamma,
        )
    }
}

/// Whether the state holds the four variables the quotes of a symbol need.
pub open spec fn holds_quote_inputs(m: Map<Seq<char>, Decimal>, exchange: Seq<char>, symbol: Seq<
    char,
>) -> bool {
    &&& m.contains_key(state_key(exchange, symbol, "_q"@))
    &&& m.contains_key(state_key(exchange, symbol, "_γ"@))
    &&& m.contains_key(state_key(exchange, symbol, "_σ"@))
    &&& m.contains_key(state_key(exchange, symbol, "_κ"@))
}

/// The mid price `(bid + ask) / 2`, each step done by `rust_decimal`.
pub open spec fn spec_mid_price(bid: Decimal, ask: Decimal) -> Option<Decimal> {
    match decimal_checked_add(bid, ask) {
        Some(sum) => decimal_checked_div(sum, Decimal::from_parts(2, 0)),
        None => None,
    }
}

/// The quotes around the mid price: (reservation price, bid, ask), the bid and the ask half
/// an optimal spread away from the reservation price.
pub open spec fn spec_quotes(mid: Decimal, q: Decimal, gamma: Decimal, sigma: Decimal, kappa: Decimal) -> Option<
    (Decimal, Decimal, Decimal),
> {
    match spec_reservation_price(mid, q, gamma, sigma) {
        Some(r) => match spec_optimal_spread(gamma, kappa) {
            Some(d) => match decimal_checked_div(d, Decimal::from_parts(2, 0)) {
                Some(half) => match decimal_checked_sub(r, half) {
                    Some(bid) => match decimal_checked_add(r, half) {
                        Some(ask) => Some((r, bid, ask)),
                        None => None,
                    },
                    None => None,
                },
                None => None,
            },
            None => None,
        },
        None => None,
    }
}

/// Whether every step of quoting an order book succeeds: the mid price of its best levels,
/// then the quotes from the symbol's variables.
pub open spec fn book_quotable(
    m: Map<Seq<char>, Decimal>,
    exchange: Seq<char>,
    symbol: Seq<char>,
    bid: Decimal,
    ask: Decimal,
) -> bool {
    match spec_mid_price(bid, ask) {
        Some(mid) => spec_quotes(
            mid,
            m[state_key(exchange, symbol, "_q"@)],
            m[state_key(exchange, symbol, "_γ"@)],
            m[state_key(exchange, symbol, "_σ"@)],
            m[state_key(exchange, symbol, "_κ"@)],
        ) is Some,
        None => false,
    }
}

/// The state once the best levels of a book are recorded: bid price and size, ask price and
/// size, mid price.
pub open spec fn record_book(
    m: Map<Seq<char>, Decimal>,
    exchange: Seq<char>,
    symbol: Seq<char>,
    bid_price: Decimal,
    bid_size: Decimal,
    ask_price: Decimal,
    ask_size: Decimal,
    mid: Decimal,
) -> Map<Seq<char>, Decimal> {
    m.insert(state_key(exchange, symbol, "_bid_price"@), bid_price).insert(
        state_key(exchange, symbol, "_bid_size"@),
        bid_size,
    ).insert(state_key(exchange, symbol, "_ask_price"@), ask_price).insert(
        state_key(exchange, symbol, "_ask_size"@),
        ask_size,
    ).insert(state_key(exchange, symbol, "_mid_price"@), mid)
}

/// Whether the strategy can take a message: an empty slot or an order are not handled, and
/// an order book needs a level on each side, the symbol's variables, and every step of its
/// quotes to succeed.
pub open spec fn message_handled(m: Map<Seq<char>, Decimal>, message: CcxtMessage, exchange: Seq<char>) -> bool {
    match message {
        CcxtMessage::CcxtEmpty => false,
        CcxtMessage::CcxtOrder(_) => false,
        CcxtMessage::CcxtOrderBook(book) => {
            &&& book.bids@.len() > 0
            &&& book.asks@.len() > 0
            &&& holds_quote_inputs(m, exchange, book.symbol@)
            &&& book_quotable(m, exchange, book.symbol@, book.bids@[0].price, book.asks@[0].price)
        },
        _ => true,
    }
}

/// The key of the buffer of traded prices: one buffer holds the prices of every trade.
pub open spec fn traded_prices_key() -> Seq<char> {
    "traded_prices"@
}

/// What handling a message does to the state. A trade records its price as the last price
/// of its symbol and adds it to the traded prices; an order book records its best levels and
/// its mid price; any other message changes nothing.
pub open spec fn message_effect(
    before: AvellanedaStoikovState,
    after: AvellanedaStoikovState,
    message: CcxtMessage,
    exchange: Seq<char>,
) -> bool {
    match message {
        CcxtMessage::CcxtTrade(t) => {
            &&& after.state.view() == before.state.view().insert(
                state_key(exchange, t.symbol@, Seq::empty()),
                t.price,
            )
            &&& after.trades.ttl_of() == before.trades.ttl_of()
            &&& exists|now: u64|
                {
                    &&& after.trades.view() == #[trigger] after_set(
                        before.trades.view(),
                        traded_prices_key(),
                        t.price,
                        now,
                    )
                    &&& now >= before.trades.latest_reading()
                    &&& after.trades.latest_reading() == now
                    &&& stamped_no_later(before.trades.view(), now)
                }
        },
        CcxtMessage::CcxtOrderBook(book) => {
            let bid = book.bids@[0];
            let ask = book.asks@[0];
            &&& after.state.view() == record_book(
                before.state.view(),
                exchange,
                book.symbol@,
                bid.price,
                bid.amount,
                ask.price,
                ask.amount,
                spec_mid_price(bid.price, ask.price)->0,
            )
            &&& after.trades == before.trades
        },
        _ => after.state.view() == before.state.view() && after.trades == before.trades,
    }
}

/// Once the state of an exchange is initialized, it holds the variables that quoting any of
/// its symbols needs.
pub proof fn lemma_init_provides_quote_inputs(
    m: Map<Seq<char>, Decimal>,
    exchange: Seq<char>,
    symbols: Seq<Seq<char>>,
    gamma: Decimal,
    i: int,
)
    requires
        0 <= i < symbols.len(),
    ensures
        holds_quote_inputs(init_symbols(m, exchange, symbols, gamma), exchange, symbols[i]),
    decreases symbols.len(),
{
    if i < symbols.len() - 1 {
        lemma_init_provides_quote_inputs(m, exchange, symbols.drop_last(), gamma, i);
    }
}

/// Inserting into the state never loses the variables quoting a symbol needs: they stay
/// there as more messages are handled.
pub proof fn lemma_inserts_keep_quote_inputs(
    m: Map<Seq<char>, Decimal>,
    exchange: Seq<char>,
    symbol: Seq<char>,
    key: Seq<char>,
    value: Decimal,
)
    requires
        holds_quote_inputs(m, exchange, symbol),
    ensures
        holds_quote_inputs(m.insert(key, value), exchange, symbol),
{
}

/// Recording the best levels of a book keeps the variables quoting any symbol needs.
pub proof fn lemma_record_book_keeps_quote_inputs(
    m: Map<Seq<char>, Decimal>,
    exchange: Seq<char>,
    symbol: Seq<char>,
    other: Seq<char>,
    bid_price: Decimal,
    bid_size: Decimal,
    ask_price: Decimal,
    ask_size: Decimal,
    mid: Decimal,
)
    requires
        holds_quote_inputs(m, exchange, other),
    ensures
        holds_quote_inputs(
            record_book(m, exchange, symbol, bid_price, bid_size, ask_price, ask_size, mid),
            exchange,
            other,
        ),
{
}

proof fn lemma_cloned_decimal(a: Decimal, b: Decimal)
    requires
        cloned::<Decimal>(a, b),
    ensures
        a == b,
{
}

impl AvellanedaStoikovState {
    /// An empty state that keeps traded prices for five minutes.
    pub fn new() -> (st: Self)
        ensures
            st.state.view() == Map::<Seq<char>, Decimal>::empty(),
            st.trades.view() == Map::<Seq<char>, Seq<(u64, Decimal)>>::empty(),
            st.trades.ttl_of() == Some(trades_window()),
            st.trades.latest_reading() == 0,
    {
        AvellanedaStoikovState {
            state: HashMapStorage::new(),
            trades: TtlBufferHashMapStorage::new(Some(300_000_000_000)),
        }
    }

    /// Initializes the variables of every symbol of the exchange: γ from the strategy's
    /// configuration, σ and κ at one, q at zero.
    pub fn init_state<E: Info>(&mut self, exchange: &E, cfg: &AppConfig)
        requires
            exchange.symbols_view().len() > 0 ==> cfg.strategy.avellaneda_stoikov_market_making is Some,
        ensures
            final(self).state.view() == init_symbols(
                old(self).state.view(),
                exchange.name_view(),
                exchange.symbols_view(),
                cfg.strategy.avellaneda_stoikov_market_making->0.gamma,
            ),
            final(self).trades == old(self).trades,
    {
        let symbols = exchange.symbols();
        let gamma = match &cfg.strategy.avellaneda_stoikov_market_making {
            Some(c) => c.gamma,
            None => {
                proof {
                    assert(symbols@.map_values(|x: String| x@).len() == symbols@.len());
                    assert(init_symbols(
                        self.state.view(),
                        exchange.name_view(),
                        exchange.symbols_view(),
                        cfg.strategy.avellaneda_stoikov_market_making->0.gamma,
                    ) == self.state.view());
                }
                return;
            },
        };
        let name = exchange.name();
        let ghost m0 = self.state.view();
        let ghost syms = symbols@.map_values(|x: String| x@);
        let mut i: usize = 0;
        while i < symbols.len()
            invariant
                i <= symbols@.len(),
                syms == symbols@.map_values(|x: String| x@),
                self.state.view() == init_symbols(m0, name@, syms.take(i as int), gamma),
                self.trades == old(self).trades,
            decreases symbols@.len() - i,
        {
            let symbol = symbols[i].as_str();
            let gamma_key = key_for(name.as_str(), symbol, "_γ");
            self.state.set(gamma_key, gamma);
            let sigma_key = key_for(name.as_str(), symbol, "_σ");
            self.state.set(sigma_key, Decimal::one());
            let kappa_key = key_for(name.as_str(), symbol, "_κ");
            self.state.set(kappa_key, Decimal::one());
            let q_key = key_for(name.as_str(), symbol, "_q");
            self.state.set(q_key, Decimal::zero());
            proof {
                assert(syms.take(i as int + 1).drop_last() =~= syms.take(i as int));
                assert(syms.take(i as int + 1).last() == symbols@[i as int]@);
            }
            i = i + 1;
        }
        proof {
            assert(syms.take(symbols@.len() as int) =~= syms);
        }
    }

    /// Handles one message of the disruptor: a trade records its price as the last price of
    /// its symbol and among the traded prices; an order book records its best levels and mid
    /// price, once its quotes are computed; balances and positions change nothing.
    pub fn handle_message(&mut self, message: &CcxtMessage, exchange_name: &str)
        requires
            message_handled(old(self).state.view(), *message, exchange_name@),
        ensures
            message_effect(*old(self), *final(self), *message, exchange_name@),
    {
        match message {
            CcxtMessage::CcxtTrade(update) => {
                let key = key_for(exchange_name, update.symbol.as_str(), "");
                proof {
                    reveal_strlit("");
                    assert(""@ =~= Seq::<char>::empty());
                    reveal_strlit("traded_prices");
                }
                self.state.set(key, update.price);
                let trades_key = String::from_str("traded_prices");
                let ghost before = self.trades.view();
                let ghost latest = self.trades.latest_reading();
                self.trades.set(trades_key, update.price);
                proof {
                    let now = choose|now: u64|
                        {
                            &&& self.trades.view() == #[trigger] after_set(
                                before,
                                trades_key@,
                                update.price,
                                now,
                            )
                            &&& now >= latest
                            &&& self.trades.latest_reading() == now
                            &&& stamped_no_later(before, now)
                        };
                    assert(self.trades.view() == after_set(
                        before,
                        traded_prices_key(),
                        update.price,
                        now,
                    ));
                }
            },
            CcxtMessage::CcxtOrderBook(update) => {
                let bid_price = update.bids[0].price;
                let ask_price = update.asks[0].price;
                let bid_size = update.bids[0].amount;
                let ask_size = update.asks[0].amount;
                let symbol = update.symbol.as_str();
                let mid_price = match self.quotes(update, exchange_name) {
                    Some(mid) => mid,
                    None => {
                        proof {
                            assert(false);
                        }
                        return;
                    },
                };
                self.state.set(key_for(exchange_name, symbol, "_bid_price"), bid_price);
                self.state.set(key_for(exchange_name, symbol, "_bid_size"), bid_size);
                self.state.set(key_for(exchange_name, symbol, "_ask_price"), ask_price);
                self.state.set(key_for(exchange_name, symbol, "_ask_size"), ask_size);
                self.state.set(key_for(exchange_name, symbol, "_mid_price"), mid_price);
            },
            CcxtMessage::CcxtBalance(_) => {},
            CcxtMessage::CcxtPosition(_) => {},
            CcxtMessage::CcxtEmpty => {
                proof {
                    assert(false);
                }
            },
            CcxtMessage::CcxtOrder(_) => {
                proof {
                    assert(false);
                }
            },
        }
    }

    /// Computes the quotes of an order book from the variables of its symbol: the mid price
    /// of its best levels, the reservation price, and the bid and ask half an optimal spread
    /// away from it. Gives the mid price, or `None` where a variable is missing or a step of
    /// `rust_decimal` fails.
    fn quotes(&self, book: &CcxtOrderBook, exchange_name: &str) -> (r: Option<Decimal>)
        requires
            book.bids@.len() > 0,
            book.asks@.len() > 0,
        ensures
            r is Some <==> holds_quote_inputs(self.state.view(), exchange_name@, book.symbol@)
                && book_quotable(
                self.state.view(),
                exchange_name@,
                book.symbol@,
                book.bids@[0].price,
                book.asks@[0].price,
            ),
            r matches Some(mid) ==> spec_mid_price(book.bids@[0].price, book.asks@[0].price)
                == Some(mid),
    {
        let bid_price = book.bids[0].price;
        let ask_price = book.asks[0].price;
        let two = Decimal::two();
        let symbol = book.symbol.as_str();
        let q_key = key_for(exchange_name, symbol, "_q");
        let gamma_key = key_for(exchange_name, symbol, "_γ");
        let sigma_key = key_for(exchange_name, symbol, "_σ");
        let kappa_key = key_for(exchange_name, symbol, "_κ");
        let q = match self.state.get(q_key.as_str()) {
            Some(v) => v,
            None => {
                return None;
            },
        };
        let gamma = match self.state.get(gamma_key.as_str()) {
            Some(v) => v,
            None => {
                return None;
            },
        };
        let sigma = match self.state.get(sigma_key.as_str()) {
            Some(v) => v,
            None => {
                return None;
            },
        };
        let kappa = match self.state.get(kappa_key.as_str()) {
            Some(v) => v,
            None => {
                return None;
            },
        };
        proof {
            let m = self.state.view();
            lemma_cloned_decimal(m[q_key@], q);
            lemma_cloned_decimal(m[gamma_key@], gamma);
            lemma_cloned_decimal(m[sigma_key@], sigma);
            lemma_cloned_decimal(m[kappa_key@], kappa);
        }
        let mid_price = match bid_price.checked_add(ask_price) {
            Some(sum) => match sum.checked_div(two) {
                Some(m) => m,
                None => {
                    return None;
                },
            },
            None => {
                return None;
            },
        };
        let reservation = match reservation_price(mid_price, q, gamma, sigma) {
            Some(r) => r,
            None => {
                return None;
            },
        };
        let spread = match optimal_spread(gamma, kappa) {
            Some(d) => d,
            None => {
                return None;
            },
        };
        let half_spread = match spread.checked_div(two) {
            Some(h) => h,
            None => {
                return None;
            },
        };
        let _asmm_bid_price = match reservation.checked_sub(half_spread) {
            Some(b) => b,
            None => {
                return None;
            },
        };
        let _asmm_ask_price = match reservation.checked_add(half_spread) {
            Some(a) => a,
            None => {
                return None;
            },
        };
        Some(mid_price)
    }

    /// Handles a message where the strategy can take it, and gives whether it did: an empty
    /// slot, an order, or an order book without a level on a side, without its symbol's
    /// variables or whose quotes `rust_decimal` cannot compute leave the state unchanged.
    pub fn try_handle_message(&mut self, message: &CcxtMessage, exchange_name: &str) -> (applied:
        bool)
        ensures
            applied == message_handled(old(self).state.view(), *message, exchange_name@),
            applied ==> message_effect(*old(self), *final(self), *message, exchange_name@),
            !applied ==> *final(self) == *old(self),
    {
        let handled = match message {
            CcxtMessage::CcxtEmpty => false,
            CcxtMessage::CcxtOrder(_) => false,
            CcxtMessage::CcxtOrderBook(book) => {
                if book.bids.len() == 0 || book.asks.len() == 0 {
                    false
                } else {
                    self.quotes(book, exchange_name).is_some()
                }
            },
            _ => true,
        };
        if handled {
            self.handle_message(message, exchange_name);
        }
        handled
    }
}

} // verus!
