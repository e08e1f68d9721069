//! Back of house: the kitchen, its menu and its breakfasts.
use vstd::prelude::*;
use vstd::string::StringExecFns;
use crate::restaurant::hosting;

verus! {

/// Cooks an order.
pub fn cook_order() {
}

/// Cooks a replacement, delivers it and puts the guest back on the list.
pub fn fix_incorrect_order() {
    cook_order();
    super::deliver_order();
    hosting::add_to_waitlist();
}

/// Starters.
#[derive(Debug, Clone, Copy, PartialEq, Eq, Structural)]
pub enum Appetizer {
    Soup,
    Salad,
}

/// A breakfast: the guest picks the toast, the kitchen picks the fruit.
pub struct Breakfast {
    pub toast: String,
    seasonal_fruit: String,
}

impl Breakfast {
    /// The toast that was asked for.
    pub closed spec fn toast_choice(&self) -> Seq<char> {
        self.toast@
    }

    /// The fruit that comes with the meal.
    pub closed spec fn fruit(&self) -> Seq<char> {
        self.seasonal_fruit@
    }

    /// The summer breakfast: the given toast with peaches.
    pub fn summer(toast: &str) -> (r: Breakfast)
        ensures
            r.toast_choice() == toast@,
            r.fruit() == "peaches"@,
    {
        Breakfast { toast: String::from_str(toast), seasonal_fruit: String::from_str("peaches") }
    }

    /// Asks for another toast; the fruit stays.
    pub fn change_toast(&mut self, toast: &str)
        ensures
            final(self).toast_choice() == toast@,
            final(self).fruit() == old(self).fruit(),
    {
        self.toast = String::from_str(toast);
    }
}

} // verus!
