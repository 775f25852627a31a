//! `exchange` interacts with an exchange (a dex, a cex, a prediction market): it turns the
//! data it sends (trades, order books, balances) into the unified model, and keeps the
//! state that a feed builds up.

pub mod dydx;
pub mod hyperliquid;
pub mod traits;
pub mod types;

use vstd::prelude::*;
use vstd::string::StringExecFns;

verus! {

/// What identifies an exchange: its name and the symbols it follows.
pub trait Info {
    /// The name of the exchange.
    spec fn name_view(&self) -> Seq<char>;

    /// The symbols followed, in the order they were added.
    spec fn symbols_view(&self) -> Seq<Seq<char>>;

    /// Follows one more symbol.
    fn add_symbol(&mut self, symbol: String)
        ensures
            final(self).symbols_view() == old(self).symbols_view().push(symbol@),
            final(self).name_view() == old(self).name_view(),
    ;

    /// The symbols followed.
    fn symbols(&self) -> (s: Vec<String>)
        ensures
            s@.map_values(|x: String| x@) == self.symbols_view(),
    ;

    /// The name of the exchange.
    fn name(&self) -> (n: String)
        ensures
            n@ == self.name_view(),
    ;
}

/// The exchanges a strategy can be run on.
#[derive(Debug, Clone, Copy, PartialEq, Eq, Structural)]
pub enum ExchangeKind {
    Dydx,
}

/// The exchange a configured name stands for: `dydx`; `None` for any other name.
pub fn exchange_kind(name: &str) -> (k: Option<ExchangeKind>)
    ensures
        k == (if name@ == "dydx"@ {
            Some(ExchangeKind::Dydx)
        } else {
            None
        }),
{
    if String::from_str(name) == String::from_str("dydx") {
        Some(ExchangeKind::Dydx)
    } else {
        None
    }
}

} // verus!
