use std::collections::HashMap;
use vstd::prelude::*;
use crate::decimal::Decimal;
use super::message::PositionInfo;

verus! {

/// The holdings of an account.
#[derive(Debug, Clone)]
pub struct Portfolio {
    /// balances + positions
    pub equity: Decimal,
    /// value of all the assets on an exchange
    pub balances: HashMap<String, Decimal>,
    /// value of all the open positions
    pub positions: HashMap<String, PositionInfo>,
}

} // verus!
