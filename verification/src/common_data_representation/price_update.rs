use vstd::prelude::*;
use vstd::string::StringExecFns;
use crate::decimal::Decimal;

verus! {

/// A trade price as it is written into the ring buffer.
#[derive(Debug)]
pub struct PriceUpdate {
    pub exchange: String,
    pub symbol: String,
    pub side: String,
    pub price: Decimal,
    pub size: Decimal,
    pub time: u64,
}

impl PriceUpdate {
    /// The update with empty texts, zero price and size and time zero.
    pub fn empty() -> (p: Self)
        ensures
            p.exchange@ == Seq::<char>::empty(),
            p.symbol@ == Seq::<char>::empty(),
            p.side@ == Seq::<char>::empty(),
            p.price.mantissa_of() == 0 && p.price.scale_of() == 0,
            p.size.mantissa_of() == 0 && p.size.scale_of() == 0,
            p.time == 0,
    {
        Self {
            exchange: String::new(),
            symbol: String::new(),
            side: String::new(),
            price: Decimal::zero(),
            size: Decimal::zero(),
            time: 0,
        }
    }
}

} // verus!
