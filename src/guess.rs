//! A guessing game: validated guesses and a secret number to compare them to.
use vstd::prelude::*;
use std::cmp::Ordering;
use rand::Rng;

verus! {

/// A guess, always between 1 and 100 inclusive.
pub struct Guess {
    value: i32,
}

impl Guess {
    /// The value guessed.
    pub closed spec fn spec_value(&self) -> i32 {
        self.value
    }

    /// The range every guess lies in.
    pub closed spec fn wf(&self) -> bool {
        1 <= self.value <= 100
    }

    /// A guess of `value`, which must lie between 1 and 100.
    pub fn new(value: i32) -> (r: Guess)
        requires
            1 <= value <= 100,
        ensures
            r.spec_value() == value,
            r.wf(),
    {
        Guess { value }
    }

    /// A guess of `value`, or `None` when it lies outside 1 to 100.
    pub fn checked(value: i32) -> (r: Option<Guess>)
        ensures
            r is Some <==> 1 <= value <= 100,
            r is Some ==> r->Some_0.spec_value() == value && r->Some_0.wf(),
    {
        if value < 1 || value > 100 {
            None
        } else {
            Some(Guess { value })
        }
    }

    /// The value guessed.
    pub fn value(&self) -> (r: i32)
        ensures
            r == self.spec_value(),
    {
        self.value
    }
}

/// Relies on rand's `thread_rng().gen_range(low..=high)`: a value drawn from
/// `low..=high`, which must not be empty.
#[verifier::external_body]
fn random_in_range(low: i32, high: i32) -> (r: i32)
    requires
        low <= high,
    ensures
        low <= r <= high,
{
    rand::thread_rng().gen_range(low..=high)
}

/// A secret number between 1 and 100, drawn at random.
pub fn secret_number() -> (r: i32)
    ensures
        1 <= r <= 100,
{
    random_in_range(1, 100)
}

/// How a guess compares with the secret: `Less` is too small, `Greater` too
/// big, `Equal` a win.
pub fn compare(guess: &Guess, secret: i32) -> (r: Ordering)
    ensures
        guess.spec_value() < secret ==> r == Ordering::Less,
        guess.spec_value() > secret ==> r == Ordering::Greater,
        guess.spec_value() == secret ==> r == Ordering::Equal,
{
    if guess.value < secret {
        Ordering::Less
    } else if guess.value > secret {
        Ordering::Greater
    } else {
        Ordering::Equal
    }
}

} // verus!
