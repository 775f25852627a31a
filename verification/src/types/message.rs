//! `message` encompasses all the kinds of update under a single enum.

pub mod asmm_quote;
pub mod balance_update;
pub mod bbo_update;
pub mod trade_update;

pub use asmm_quote::AsmmQuote;
pub use balance_update::{BalanceUpdate, PositionInfo};
pub use bbo_update::BboUpdate;
pub use trade_update::TradeUpdate;

use vstd::prelude::*;

verus! {

/// A message: nothing yet, a trade, a best bid and offer, the strategy's quotes or the
/// balances of an account.
#[derive(Clone, Debug)]
pub enum Message {
    Empty,
    TradeUpdate(TradeUpdate),
    BboUpdate(BboUpdate),
    AsmmQuote(AsmmQuote),
    BalanceUpdate(BalanceUpdate),
}

impl Message {
    /// The message that holds nothing.
    pub fn empty() -> (m: Self)
        ensures
            m is Empty,
    {
        Self::Empty
    }
}

} // verus!
