use mma::ccxt::{CcxtMessage, CcxtOrderBook, CcxtOrderBookLevel, CcxtPosition, CcxtTrade};
use mma::common_data_representation::memory_storage::{MemoryStorage, TtlBufferStorage};
use mma::config::{
    AppConfig, AvellanedaStoikovConfig, DisruptorConfig, ExchangeConfigs, HyperliquidConfig,
    MemoryStorageConfig, MqttConfig, RuntimeConfig, StrategyConfigs,
};
use mma::decimal::Decimal;
use mma::exchange::hyperliquid::Hyperliquid;
use mma::exchange::Info;
use mma::strategy::avellaneda_stoikov_market_making::{
    key_for, optimal_spread, reservation_price, AvellanedaStoikovState,
};

fn config(gamma: Decimal) -> AppConfig {
    AppConfig {
        runtime: RuntimeConfig { exchanges: vec!["hyperliquid".to_string()], strategy: "avellaneda_stoikov_market_making".to_string() },
        exchange: ExchangeConfigs { hyperliquid: None, dydx: None },
        strategy: StrategyConfigs {
            avellaneda_stoikov_market_making: Some(AvellanedaStoikovConfig {
                gamma,
                kappa: Decimal::one(),
                sigma: Decimal::one(),
            }),
        },
        disruptor: DisruptorConfig { buffer_size: 1024 },
        mqtt: MqttConfig {
            enabled: false,
            broker: "localhost".to_string(),
            port: 1883,
            topic_prefix: "mma".to_string(),
            client_id: "mma".to_string(),
        },
        memory_storage: MemoryStorageConfig { backend: "hashmap".to_string(), redis: None },
    }
}

fn exchange() -> Hyperliquid {
    Hyperliquid::new(HyperliquidConfig {
        coins: vec!["BTC".to_string()],
        mainnet: true,
        address: "0x1".to_string(),
    })
}

fn book(symbol: &str, bid: Decimal, ask: Decimal) -> CcxtMessage {
    CcxtMessage::CcxtOrderBook(CcxtOrderBook {
        bids: vec![CcxtOrderBookLevel { price: bid, amount: Decimal::new(3, 0) }],
        asks: vec![CcxtOrderBookLevel { price: ask, amount: Decimal::new(4, 0) }],
        symbol: symbol.to_string(),
        timestamp: None,
        datetime: None,
        nonce: Some(1),
    })
}

#[test]
fn state_keys() {
    assert_eq!(key_for("dydx", "BTC-USD", "_γ"), "dydx_BTC-USD_γ");
    assert_eq!(key_for("dydx", "BTC-USD", ""), "dydx_BTC-USD");
}

#[test]
fn reservation_price_moves_against_inventory() {
    let s = Decimal::new(100, 0);
    assert_eq!(reservation_price(s, Decimal::zero(), Decimal::one(), Decimal::one()), Some(s));
    assert_eq!(
        reservation_price(s, Decimal::new(2, 0), Decimal::new(1, 1), Decimal::new(3, 0)),
        Some(Decimal::new(982, 1))
    );
}

#[test]
fn optimal_spread_values() {
    let d = optimal_spread(Decimal::one(), Decimal::one()).unwrap();
    assert!(Decimal::new(1386, 3) < d && d < Decimal::new(1387, 3));
    assert_eq!(optimal_spread(Decimal::zero(), Decimal::one()), None);
    assert_eq!(optimal_spread(Decimal::one(), Decimal::zero()), None);
    assert_eq!(optimal_spread(Decimal::new(-1, 0), Decimal::one()), None);
}

#[test]
fn init_state_without_symbols_needs_no_config() {
    let mut st = AvellanedaStoikovState::new();
    let mut cfg = config(Decimal::one());
    cfg.strategy.avellaneda_stoikov_market_making = None;
    let ex = Hyperliquid::new(HyperliquidConfig { coins: vec![], mainnet: true, address: String::new() });
    st.init_state(&ex, &cfg);
    assert_eq!(st.state.get("hyperliquid_BTC_q"), None);
}

#[test]
fn init_state_sets_the_variables_of_each_symbol() {
    let mut st = AvellanedaStoikovState::new();
    st.init_state(&exchange(), &config(Decimal::new(5, 1)));
    assert_eq!(st.state.get("hyperliquid_BTC_γ"), Some(Decimal::new(5, 1)));
    assert_eq!(st.state.get("hyperliquid_BTC_σ"), Some(Decimal::one()));
    assert_eq!(st.state.get("hyperliquid_BTC_κ"), Some(Decimal::one()));
    assert_eq!(st.state.get("hyperliquid_BTC_q"), Some(Decimal::zero()));
    assert_eq!(st.state.get("hyperliquid_ETH_q"), None);
}

#[test]
fn trade_records_last_price_and_traded_prices() {
    let mut st = AvellanedaStoikovState::new();
    let trade = CcxtMessage::CcxtTrade(CcxtTrade {
        id: "1".to_string(),
        timestamp: 0,
        datetime: 0,
        symbol: "BTC".to_string(),
        order: None,
        order_type: None,
        side: None,
        taker_or_maker: None,
        price: Decimal::new(50000, 0),
        amount: Decimal::one(),
        cost: None,
        fee: None,
        fees: None,
    });
    st.handle_message(&trade, "hyperliquid");
    assert_eq!(st.state.get("hyperliquid_BTC"), Some(Decimal::new(50000, 0)));
    assert_eq!(st.trades.get("traded_prices"), Some(vec![Decimal::new(50000, 0)]));
    assert!(st.try_handle_message(&trade, "hyperliquid"));
    assert_eq!(
        st.trades.get("traded_prices"),
        Some(vec![Decimal::new(50000, 0), Decimal::new(50000, 0)])
    );
}

#[test]
fn order_book_records_best_levels_and_mid_price() {
    let mut st = AvellanedaStoikovState::new();
    let ex = exchange();
    st.init_state(&ex, &config(Decimal::one()));
    st.handle_message(&book("BTC", Decimal::new(100, 0), Decimal::new(101, 0)), &ex.name());
    assert_eq!(st.state.get("hyperliquid_BTC_bid_price"), Some(Decimal::new(100, 0)));
    assert_eq!(st.state.get("hyperliquid_BTC_bid_size"), Some(Decimal::new(3, 0)));
    assert_eq!(st.state.get("hyperliquid_BTC_ask_price"), Some(Decimal::new(101, 0)));
    assert_eq!(st.state.get("hyperliquid_BTC_ask_size"), Some(Decimal::new(4, 0)));
    assert_eq!(st.state.get("hyperliquid_BTC_mid_price"), Some(Decimal::new(1005, 1)));
}

#[test]
fn unquotable_book_leaves_the_state_unchanged() {
    let mut st = AvellanedaStoikovState::new();
    let ex = exchange();
    st.init_state(&ex, &config(Decimal::zero()));
    assert!(!st.try_handle_message(&book("BTC", Decimal::new(100, 0), Decimal::new(101, 0)), "hyperliquid"));
    assert_eq!(st.state.get("hyperliquid_BTC_mid_price"), None);
    assert!(!st.try_handle_message(&book("ETH", Decimal::new(100, 0), Decimal::new(101, 0)), "hyperliquid"));
    assert!(!st.try_handle_message(&CcxtMessage::CcxtEmpty, "hyperliquid"));
}

#[test]
fn positions_change_nothing() {
    let mut st = AvellanedaStoikovState::new();
    let p = CcxtMessage::CcxtPosition(CcxtPosition {
        id: "p".to_string(),
        symbol: "BTC".to_string(),
        timestamp: 0,
        datetime: String::new(),
        isolated: false,
        hedged: false,
        side: Default::default(),
        contracts: Decimal::zero(),
        contract_size: Decimal::one(),
        entry_price: Decimal::zero(),
        mark_price: Decimal::zero(),
        notional: Decimal::zero(),
        leverage: Decimal::zero(),
        collateral: Decimal::zero(),
        initial_margin: Decimal::zero(),
        maintenance_margin: Decimal::zero(),
        initial_margin_percentage: Decimal::zero(),
        maintenance_margin_percentage: Decimal::zero(),
        unrealized_pnl: Decimal::zero(),
        liquidation_price: Decimal::zero(),
        margin_mode: Default::default(),
        percentage: Decimal::zero(),
    });
    assert!(st.try_handle_message(&p, "hyperliquid"));
    assert_eq!(st.state.get("hyperliquid_BTC"), None);
}
