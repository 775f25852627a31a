use vstd::prelude::*;
use crate::decimal::Decimal;
use crate::exchange::types::Side;

verus! {

/// A trade of one market, with the side as a position direction.
#[derive(Debug, Clone)]
pub struct TradeUpdate {
    pub exchange: String,
    pub symbol: String,
    pub side: Side,
    pub price: Decimal,
    pub size: Decimal,
    pub time: u64,
}

} // verus!
