//! The trades feed of Hyperliquid, as the strategy subscribes to it.

use vstd::prelude::*;

verus! {

/// The websocket of Hyperliquid.
pub const WSS_URL: &'static str = "wss://api.hyperliquid.xyz/ws";

/// The trades feed of Hyperliquid.
pub struct Hyperliquid {}

impl Hyperliquid {
    /// The subscription sent once connected: the trades of BTC/USDC.
    pub fn trades_subscription() -> (s: &'static str)
        ensures
            s@ == r#"{ "method": "subscribe", "subscription": {"type": "trades", "coin": "BTC/USDC"} }"#@,
    {
        r#"{ "method": "subscribe", "subscription": {"type": "trades", "coin": "BTC/USDC"} }"#
    }
}

} // verus!
