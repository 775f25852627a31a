//! The exchanges as a strategy sees them.

pub mod hyperliquid;
pub mod traits;
