use vstd::prelude::*;
use crate::decimal::Decimal;
use crate::exchange::types::Side;

verus! {

/// A change of a position.
#[derive(Debug, Clone)]
pub struct PositionUpdate {
    pub exchange: String,
    pub symbol: String,
    pub side: Side,
    pub quantity: Decimal,
    pub average_price: Decimal,
}

} // verus!
