//! The messages that flow through the disruptor: one enum over every kind of update.

pub mod asmm_quote;
pub mod bbo_update;
pub mod trade_update;

pub use bbo_update::BboUpdate;
pub use trade_update::TradeUpdate;

use vstd::prelude::*;

verus! {

/// A message: nothing yet, a trade or a best bid and offer.
#[derive(Clone, Debug)]
pub enum Message {
    Empty,
    TradeUpdate(TradeUpdate),
    BboUpdate(BboUpdate),
}

impl Message {
    /// The message that holds nothing; a fresh slot of the ring buffer holds it.
    pub fn empty() -> (m: Self)
        ensures
            m is Empty,
    {
        Self::Empty
    }
}

} // verus!
