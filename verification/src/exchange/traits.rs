//! The roles an exchange plays for a strategy.

use vstd::prelude::*;

verus! {

/// Sends and cancels orders.
pub trait Executor {
    fn send_order(&self);

    fn cancel_order(&self);
}

} // verus!
