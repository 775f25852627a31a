use vstd::prelude::*;
use crate::decimal::Decimal;

verus! {

/// The quantity held of one asset.
#[derive(Debug, Clone)]
pub struct Balance {
    pub symbol: String,
    pub quantity: Decimal,
}

/// An open position.
#[derive(Debug, Clone)]
pub struct Position {
    pub symbol: String,
    pub quantity: Decimal,
    pub open_price: Decimal,
    pub leverage: i8,
}

/// An open order.
#[derive(Debug, Clone)]
pub struct Order {
    pub symbol: String,
    pub quantity: Decimal,
    pub price: Decimal,
}

/// The holdings of an account on an exchange.
#[derive(Debug, Clone)]
pub struct Portfolio {
    /// balances + positions
    pub equity: Decimal,
    /// value of all the assets on an exchange
    pub balances: Vec<Balance>,
    /// value of all the open positions
    pub positions: Vec<Position>,
    pub orders: Vec<Order>,
}

} // verus!
