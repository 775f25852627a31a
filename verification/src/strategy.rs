//! `strategy` is the core of the package: it coordinates the exchanges and decides the
//! quotes.

pub mod avellaneda_stoikov_market_making;
pub mod exchange;
