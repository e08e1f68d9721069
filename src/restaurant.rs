//! A restaurant laid out in modules: hosting and serving at the front, the
//! kitchen at the back.
pub mod back_of_house;
pub mod cooking;
pub mod hosting;
pub mod serving;

use vstd::prelude::*;
use crate::restaurant::back_of_house::Breakfast;

verus! {

/// Hands a finished order to the table.
pub fn deliver_order() {
}

/// Seats a guest from the waiting list, then orders a summer breakfast with
/// rye toast and switches it to wheat. Returns the meal as ordered.
pub fn eat_at_restaurant() -> (meal: Breakfast)
    ensures
        meal.toast_choice() == "Wheat"@,
        meal.fruit() == "peaches"@,
{
    hosting::add_to_waitlist();
    let mut meal = Breakfast::summer("Rye");
    meal.change_toast("Wheat");
    meal
}

} // verus!
