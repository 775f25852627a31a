use vstd::prelude::*;
use crate::decimal::Decimal;

verus! {

/// The quotes of the Avellaneda-Stoikov strategy for one market.
#[derive(Debug, Clone)]
pub struct AsmmQuote {
    pub exchange: String,
    pub symbol: String,
    pub reservation_price: Decimal,
    pub asmm_bid_price: Decimal,
    pub asmm_ask_price: Decimal,
}

} // verus!
