use vstd::prelude::*;

verus! {

/// Sends and cancels orders.
pub trait Executor {
    fn send_order();

    fn cancel_order();
}

} // verus!
