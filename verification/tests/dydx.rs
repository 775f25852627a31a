use mma::exchange::{exchange_kind, ExchangeKind};
use mma::ccxt::{CcxtMarginMode, CcxtOrderSide, CcxtPositionSide};
use mma::config::DydxConfig;
use mma::decimal::Decimal;
use mma::exchange::dydx::{
    position_to_ccxt, snapshot_balance, snapshot_positions_to_ccxt, subaccount_reports,
    trades_of_message, trades_to_ccxt, update_balance, updated_positions_to_ccxt, usdc_balance,
    Dydx, IndexerTrade, PerpetualPosition, PositionUpdate, SnapshotPosition, SubaccountFeedMessage,
    SubaccountUpdate, TradesFeedMessage,
};
use mma::exchange::Info;

fn assets(list: &[(&str, i64)]) -> Vec<(String, Decimal)> {
    list.iter().map(|(n, v)| (n.to_string(), Decimal::new(*v, 0))).collect()
}

#[test]
fn usdc_balance_prefers_the_asset_position() {
    let free = Decimal::new(10, 0);
    assert_eq!(usdc_balance(free, &assets(&[])), free);
    assert_eq!(usdc_balance(free, &assets(&[("ETH", 2)])), free);
    assert_eq!(usdc_balance(free, &assets(&[("USDC", 7), ("ETH", 2)])), Decimal::new(7, 0));
}

#[test]
fn snapshot_balance_reports_usdc() {
    let b = snapshot_balance(Decimal::new(10, 0), &assets(&[("USDC", 7)]), 5, "now".to_string());
    assert_eq!(b.free, vec![("USDC".to_string(), Decimal::new(7, 0))]);
    assert_eq!(b.timestamp, 5);
    assert_eq!(b.datetime, "now");
    assert!(b.used.is_empty());
}

#[test]
fn update_balance_keeps_the_last_size_of_each_asset() {
    assert!(update_balance(&assets(&[]), 0, String::new()).is_none());
    let b = update_balance(&assets(&[("USDC", 1), ("ETH", 2), ("USDC", 3)]), 0, String::new()).unwrap();
    assert_eq!(
        b.free,
        vec![("USDC".to_string(), Decimal::new(3, 0)), ("ETH".to_string(), Decimal::new(2, 0))]
    );
}

#[test]
fn trades_are_converted_in_order() {
    let trades = vec![
        IndexerTrade { id: "a".to_string(), created_at_millis: 10, side: CcxtOrderSide::Buy, price: Decimal::new(1, 0), size: Decimal::new(2, 0) },
        IndexerTrade { id: "b".to_string(), created_at_millis: 11, side: CcxtOrderSide::Sell, price: Decimal::new(3, 0), size: Decimal::new(4, 0) },
    ];
    let ts = trades_to_ccxt(&trades, "BTC-USD");
    assert_eq!(ts.len(), 2);
    assert_eq!(ts[1].id, "b");
    assert_eq!(ts[1].order, Some("b".to_string()));
    assert_eq!(ts[1].side, Some(CcxtOrderSide::Sell));
    assert_eq!(ts[1].timestamp, 11);
    assert_eq!(ts[1].symbol, "BTC-USD");
    assert_eq!(ts[0].amount, Decimal::new(2, 0));
}

#[test]
fn positions_are_converted() {
    let p = PerpetualPosition {
        id: "pos".to_string(),
        market: "BTC-USD".to_string(),
        side: CcxtPositionSide::Short,
        size: Decimal::new(-2, 0),
        entry_price: Decimal::new(50000, 0),
        unrealized_pnl: Decimal::new(12, 0),
    };
    let c = position_to_ccxt(&p, 9, "t".to_string());
    assert_eq!(c.id, "pos");
    assert_eq!(c.symbol, "BTC-USD");
    assert_eq!(c.side, CcxtPositionSide::Short);
    assert_eq!(c.contracts, Decimal::new(-2, 0));
    assert_eq!(c.contract_size, Decimal::one());
    assert_eq!(c.liquidation_price, Decimal::zero());
    assert_eq!(c.margin_mode, CcxtMarginMode::Cross);
}

const MNEMONIC: &str = "abandon abandon abandon abandon abandon abandon abandon abandon abandon abandon abandon abandon abandon abandon abandon abandon abandon abandon abandon abandon abandon abandon abandon art";

fn dydx_config(mnemonic: &str) -> DydxConfig {
    DydxConfig {
        tickers: vec![],
        indexer_ws_endpoint: "wss://indexer".to_string(),
        mnemonic: mnemonic.to_string(),
        subaccount_number: 3,
        chain_id: "dydx-mainnet-1".to_string(),
    }
}

#[test]
fn info_of_dydx() {
    let cfg = dydx_config(MNEMONIC);
    let mut d = Dydx::new(&cfg);
    assert_eq!(d.name(), "dydx");
    assert!(d.symbols().is_empty());
    d.add_symbol("BTC-USD".to_string());
    assert_eq!(d.symbols(), vec!["BTC-USD".to_string()]);
    assert!(d.address().starts_with("dydx1"));
    assert_eq!(d.subaccount_number(), 3);
}

#[test]
fn address_is_derived_from_the_mnemonic() {
    let a = Dydx::from_config(&dydx_config(MNEMONIC)).unwrap();
    let b = Dydx::new(&dydx_config(MNEMONIC));
    assert_eq!(a.address(), b.address());
    assert!(Dydx::from_config(&dydx_config("not a mnemonic")).is_none());
}

fn indexer_trade(id: &str, millis: i64) -> IndexerTrade {
    IndexerTrade {
        id: id.to_string(),
        created_at_millis: millis,
        side: CcxtOrderSide::Buy,
        price: Decimal::new(millis, 0),
        size: Decimal::new(1, 0),
    }
}

fn snapshot(market: &str, pnl: i64) -> SnapshotPosition {
    SnapshotPosition {
        market: market.to_string(),
        side: CcxtPositionSide::Long,
        size: Decimal::new(1, 0),
        entry_price: Decimal::new(100, 0),
        unrealized_pnl: Decimal::new(pnl, 0),
    }
}

fn update(id: &str, market: &str, pnl: Option<i64>) -> PositionUpdate {
    PositionUpdate {
        position_id: id.to_string(),
        market: market.to_string(),
        side: CcxtPositionSide::Short,
        size: Decimal::new(-1, 0),
        entry_price: Decimal::new(100, 0),
        unrealized_pnl: pnl.map(|v| Decimal::new(v, 0)),
    }
}

#[test]
fn trades_of_a_snapshot_and_of_an_update() {
    let initial = TradesFeedMessage::Initial { trades: vec![indexer_trade("a", 1), indexer_trade("b", 2)] };
    let ts = trades_of_message(&initial, "ETH-USD");
    assert_eq!(ts.iter().map(|t| t.id.clone()).collect::<Vec<_>>(), vec!["a", "b"]);
    assert_eq!(ts[0].symbol, "ETH-USD");

    let update = TradesFeedMessage::Update {
        contents: vec![vec![indexer_trade("c", 3)], vec![], vec![indexer_trade("d", 4), indexer_trade("e", 5)]],
    };
    let ts = trades_of_message(&update, "ETH-USD");
    assert_eq!(ts.iter().map(|t| t.id.clone()).collect::<Vec<_>>(), vec!["c", "d", "e"]);
    assert_eq!(ts[2].price, Decimal::new(5, 0));
    assert_eq!(ts[2].timestamp, 5);

    assert!(trades_of_message(&TradesFeedMessage::Update { contents: vec![] }, "ETH-USD").is_empty());
}

#[test]
fn snapshot_positions_are_identified_by_their_market() {
    let ps = snapshot_positions_to_ccxt(&vec![snapshot("BTC-USD", 5), snapshot("ETH-USD", -2)], 7, &"t".to_string());
    assert_eq!(ps.len(), 2);
    assert_eq!(ps[0].id, "BTC-USD");
    assert_eq!(ps[0].unrealized_pnl, Decimal::new(5, 0));
    assert_eq!(ps[1].id, "ETH-USD");
    assert_eq!(ps[1].symbol, "ETH-USD");
    assert_eq!(ps[1].timestamp, 7);
    assert_eq!(ps[1].datetime, "t");
}

#[test]
fn updated_positions_take_their_id_and_default_pnl() {
    let ps = updated_positions_to_ccxt(&vec![update("7", "BTC-USD", None), update("8", "ETH-USD", Some(3))], 1, &"t".to_string());
    assert_eq!(ps[0].id, "7");
    assert_eq!(ps[0].symbol, "BTC-USD");
    assert_eq!(ps[0].unrealized_pnl, Decimal::zero());
    assert_eq!(ps[0].side, CcxtPositionSide::Short);
    assert_eq!(ps[1].id, "8");
    assert_eq!(ps[1].unrealized_pnl, Decimal::new(3, 0));
}

#[test]
fn snapshot_reports_usdc_and_open_positions() {
    let message = SubaccountFeedMessage::Initial {
        free_collateral: Decimal::new(10, 0),
        asset_positions: assets(&[("ETH", 2)]),
        perpetual_positions: vec![snapshot("BTC-USD", 0)],
    };
    let r = subaccount_reports(&message, 3, "now".to_string());
    let b = r.balance.unwrap();
    assert_eq!(b.free, vec![("USDC".to_string(), Decimal::new(10, 0))]);
    assert_eq!(b.timestamp, 3);
    assert_eq!(r.positions.len(), 1);
    assert_eq!(r.positions[0].id, "BTC-USD");
}

#[test]
fn update_reports_positions_and_assets() {
    let message = SubaccountFeedMessage::Update {
        contents: vec![
            SubaccountUpdate {
                asset_positions: Some(assets(&[("USDC", 4)])),
                perpetual_positions: Some(vec![update("p1", "BTC-USD", Some(1))]),
            },
            SubaccountUpdate { asset_positions: None, perpetual_positions: None },
            SubaccountUpdate {
                asset_positions: Some(assets(&[("ETH", 1), ("USDC", 6)])),
                perpetual_positions: Some(vec![update("p2", "ETH-USD", None)]),
            },
        ],
    };
    let r = subaccount_reports(&message, 0, String::new());
    assert_eq!(r.positions.iter().map(|p| p.id.clone()).collect::<Vec<_>>(), vec!["p1", "p2"]);
    assert_eq!(r.positions[1].unrealized_pnl, Decimal::zero());
    assert_eq!(
        r.balance.unwrap().free,
        vec![("USDC".to_string(), Decimal::new(6, 0)), ("ETH".to_string(), Decimal::new(1, 0))]
    );
}

#[test]
fn update_without_assets_reports_no_balance() {
    let message = SubaccountFeedMessage::Update {
        contents: vec![SubaccountUpdate {
            asset_positions: Some(vec![]),
            perpetual_positions: Some(vec![update("p", "BTC-USD", None)]),
        }],
    };
    let r = subaccount_reports(&message, 0, String::new());
    assert!(r.balance.is_none());
    assert_eq!(r.positions.len(), 1);
}

#[test]
fn exchange_names() {
    assert_eq!(exchange_kind("dydx"), Some(ExchangeKind::Dydx));
    assert_eq!(exchange_kind("hyperliquid"), None);
    assert_eq!(exchange_kind(""), None);
}
