//! The unified data model of the CCXT Pro API (the websocket part): orders, trades, order
//! books, balances and positions as every exchange reports them.
//!
//! Amounts are decimals. `info` (the raw exchange payload) is not kept, and date-times are
//! held as milliseconds since the Unix epoch.

use vstd::prelude::*;
use crate::decimal::Decimal;

verus! {

/// A message of the unified API.
#[derive(Clone, Debug)]
pub enum CcxtMessage {
    CcxtEmpty,
    CcxtBalance(CcxtBalance),
    CcxtOrderBook(CcxtOrderBook),
    CcxtOrder(CcxtOrder),
    CcxtPosition(CcxtPosition),
    CcxtTrade(CcxtTrade),
}

/// Whether a trade took liquidity or provided it.
#[derive(Debug, Clone, Copy, PartialEq, Eq, Structural, Default)]
pub enum CcxtLiquiditySide {
    Taker,
    #[default]
    Maker,
}

/// How margin is shared between positions.
#[derive(Debug, Clone, Copy, PartialEq, Eq, Structural, Default)]
pub enum CcxtMarginMode {
    #[default]
    Cross,
    Isolated,
}

/// The side of an order.
#[derive(Debug, Clone, Copy, PartialEq, Eq, Structural, Default)]
pub enum CcxtOrderSide {
    #[default]
    Buy,
    Sell,
}

/// The life-cycle state of an order.
#[derive(Debug, Clone, Copy, PartialEq, Eq, Structural, Default)]
pub enum CcxtOrderStatus {
    #[default]
    Open,
    Closed,
    Canceled,
    Expired,
    Rejected,
}

/// The kind of an order.
#[derive(Debug, Clone, Copy, PartialEq, Eq, Structural, Default)]
pub enum CcxtOrderType {
    Market,
    #[default]
    Limit,
    StopLimit,
}

/// The direction of a position.
#[derive(Debug, Clone, Copy, PartialEq, Eq, Structural, Default)]
pub enum CcxtPositionSide {
    #[default]
    Long,
    Short,
}

/// How long an order stays on the book.
#[derive(Debug, Clone, Copy, PartialEq, Eq, Structural, Default)]
pub enum CcxtTimeInForce {
    #[default]
    GTC,
    IOC,
    FOK,
    PO,
}

/// The balances of an account; each map is a list of (currency, amount) pairs with
/// distinct currencies.
#[derive(Debug, Clone)]
pub struct CcxtBalance {
    pub timestamp: u64,
    pub datetime: String,
    pub free: Vec<(String, Decimal)>,
    pub used: Vec<(String, Decimal)>,
    pub total: Vec<(String, Decimal)>,
    pub debt: Vec<(String, Decimal)>,
    pub currencies: Vec<(String, CcxtCurrencyBalance)>,
}

/// The balance of one currency.
#[derive(Debug, Clone)]
pub struct CcxtCurrencyBalance {
    pub free: Decimal,
    pub used: Decimal,
    pub total: Decimal,
}

/// A fee paid on a trade.
#[derive(Debug, Clone)]
pub struct CcxtFee {
    pub cost: Decimal,
    pub currency: String,
    pub rate: Option<Decimal>,
}

/// One price level of an order book.
#[derive(Debug, Clone)]
pub struct CcxtOrderBookLevel {
    pub price: Decimal,
    pub amount: Decimal,
}

/// An order book: bids best first, asks best first.
#[derive(Debug, Clone)]
pub struct CcxtOrderBook {
    pub bids: Vec<CcxtOrderBookLevel>,
    pub asks: Vec<CcxtOrderBookLevel>,
    pub symbol: String,
    pub timestamp: Option<i64>,
    pub datetime: Option<i64>,
    pub nonce: Option<u64>,
}

/// The fee of an order.
#[derive(Debug, Clone)]
pub struct CcxtOrderFee {
    pub currency: String,
    pub cost: Decimal,
    pub rate: Option<Decimal>,
}

/// An order.
#[derive(Debug, Clone)]
pub struct CcxtOrder {
    pub id: String,
    pub client_order_id: Option<String>,
    pub datetime: String,
    pub timestamp: u64,
    pub last_trade_timestamp: Option<u64>,
    pub status: CcxtOrderStatus,
    pub symbol: String,
    pub order_type: CcxtOrderType,
    pub time_in_force: Option<CcxtTimeInForce>,
    pub side: CcxtOrderSide,
    pub price: Option<Decimal>,
    pub average: Option<Decimal>,
    pub amount: Decimal,
    pub filled: Decimal,
    pub remaining: Decimal,
    pub cost: Decimal,
    pub fee: Option<CcxtOrderFee>,
    pub trigger_price: Option<Decimal>,
    pub stop_loss_price: Option<Decimal>,
    pub take_profit_price: Option<Decimal>,
    pub reduce_only: bool,
    pub post_only: bool,
}

/// An open position.
#[derive(Debug, Clone)]
pub struct CcxtPosition {
    pub id: String,
    pub symbol: String,
    pub timestamp: u64,
    pub datetime: String,
    pub isolated: bool,
    pub hedged: bool,
    pub side: CcxtPositionSide,
    pub contracts: Decimal,
    pub contract_size: Decimal,
    pub entry_price: Decimal,
    pub mark_price: Decimal,
    pub notional: Decimal,
    pub leverage: Decimal,
    pub collateral: Decimal,
    pub initial_margin: Decimal,
    pub maintenance_margin: Decimal,
    pub initial_margin_percentage: Decimal,
    pub maintenance_margin_percentage: Decimal,
    pub unrealized_pnl: Decimal,
    pub liquidation_price: Decimal,
    pub margin_mode: CcxtMarginMode,
    pub percentage: Decimal,
}

/// A public or private trade.
#[derive(Debug, Clone)]
pub struct CcxtTrade {
    pub id: String,
    pub timestamp: i64,
    pub datetime: i64,
    pub symbol: String,
    pub order: Option<String>,
    pub order_type: Option<CcxtOrderType>,
    pub side: Option<CcxtOrderSide>,
    pub taker_or_maker: Option<CcxtLiquiditySide>,
    pub price: Decimal,
    pub amount: Decimal,
    pub cost: Option<Decimal>,
    pub fee: Option<CcxtFee>,
    pub fees: Option<Vec<CcxtFee>>,
}

} // verus!
