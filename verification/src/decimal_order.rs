//! The numeric order of decimals.

use std::cmp::Ordering;
use vstd::prelude::*;
use crate::decimal::{Decimal, rd_eq, rd_lt, same_value, value_lt};

verus! {

/// The comparison of two decimals by the numbers they denote.
pub open spec fn compare_values(a: Decimal, b: Decimal) -> Option<Ordering> {
    if value_lt(a, b) {
        Some(Ordering::Less)
    } else if same_value(a, b) {
        Some(Ordering::Equal)
    } else {
        Some(Ordering::Greater)
    }
}

impl PartialOrd for Decimal {
    fn partial_cmp(&self, other: &Decimal) -> (r: Option<Ordering>) {
        if rd_lt(*self, *other) {
            Some(Ordering::Less)
        } else if rd_eq(*self, *other) {
            Some(Ordering::Equal)
        } else {
            Some(Ordering::Greater)
        }
    }
}

impl vstd::std_specs::cmp::PartialOrdSpecImpl for Decimal {
    open spec fn obeys_partial_cmp_spec() -> bool {
        true
    }

    open spec fn partial_cmp_spec(&self, other: &Decimal) -> Option<Ordering> {
        compare_values(*self, *other)
    }
}

} // verus!
