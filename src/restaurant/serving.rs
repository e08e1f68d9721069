//! Front of house: orders and payment.
use vstd::prelude::*;

verus! {

/// Takes a guest's order.
pub fn take_order() {
}

/// Brings an order to the table.
pub fn serve_order() {
}

/// Settles the bill.
pub fn take_payment() {
}

} // verus!
