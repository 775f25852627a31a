//! The types an exchange reports: positions, trades, portfolios.

pub mod message;
pub mod portfolio;

use vstd::prelude::*;

verus! {

/// The direction of a position.
#[derive(Debug, Clone, Copy, PartialEq, Eq, Structural)]
pub enum Side {
    Long,
    Short,
}

} // verus!
