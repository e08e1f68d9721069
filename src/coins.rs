//! Coins, optional numbers and a constant.
use vstd::prelude::*;

verus! {

/// The states on state quarters.
#[derive(Debug, Clone, Copy, PartialEq, Eq, Structural)]
pub enum UsState {
    Alabama,
    Alaska,
}

/// US coins.
#[derive(Debug, Clone, Copy, PartialEq, Eq, Structural)]
pub enum Coin {
    Penny,
    Nickel,
    Dime,
    Quarter(UsState),
    Dollar,
}

/// The value of a coin in cents.
pub fn value_in_cents(coin: Coin) -> (r: u8)
    ensures
        r == (match coin {
            Coin::Penny => 1u8,
            Coin::Nickel => 5u8,
            Coin::Dime => 10u8,
            Coin::Quarter(_) => 25u8,
            Coin::Dollar => 100u8,
        }),
{
    match coin {
        Coin::Penny => 1,
        Coin::Nickel => 5,
        Coin::Dime => 10,
        Coin::Quarter(_) => 25,
        _ => 100,
    }
}

/// The state of a state quarter.
pub fn quarter_state(coin: Coin) -> (r: Option<UsState>)
    ensures
        r == (match coin {
            Coin::Quarter(s) => Some(s),
            _ => None,
        }),
{
    match coin {
        Coin::Quarter(s) => Some(s),
        _ => None,
    }
}

/// One more than the number inside, if there is one.
pub fn plus_one(x: Option<i32>) -> (r: Option<i32>)
    requires
        x is Some ==> x->Some_0 < i32::MAX,
    ensures
        r == (match x {
            None => None,
            Some(i) => Some((i + 1) as i32),
        }),
{
    match x {
        None => None,
        Some(i) => Some(i + 1),
    }
}

/// Five.
pub fn five() -> (r: i32)
    ensures
        r == 5,
{
    5
}

} // verus!
