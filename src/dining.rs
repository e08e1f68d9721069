//! A visit to the restaurant through its public paths.
use vstd::prelude::*;
use crate::restaurant::{cooking, hosting, serving};

verus! {

/// Joins the waiting list, pays, and has the spaghetti cooked.
pub fn eat_at_restaurant() {
    hosting::add_to_waitlist();
    serving::take_payment();
    cooking::spagetti();
}

} // verus!
