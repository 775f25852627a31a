use std::collections::HashMap;
use vstd::prelude::*;
use crate::decimal::Decimal;

verus! {

/// A perpetual position of an account.
#[derive(Debug, Clone, PartialEq)]
pub struct PositionInfo {
    pub size: Decimal,
    pub entry_price: Decimal,
    pub realized_pnl: Decimal,
    pub unrealized_pnl: Decimal,
    pub net_funding: Decimal,
    pub value: Decimal,
}

/// The balances and positions of an account on an exchange.
#[derive(Debug, Clone)]
pub struct BalanceUpdate {
    pub exchange: String,
    pub address: String,
    pub equity: Decimal,
    pub free_collateral: Decimal,
    pub balances: HashMap<String, Decimal>,
    pub positions: HashMap<String, PositionInfo>,
}

} // verus!
