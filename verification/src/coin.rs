//! Coins, their values in cents, and a small `Option` exercise.

use vstd::prelude::*;

verus! {

/// A state that can appear on the back of a quarter.
#[derive(Debug, PartialEq, Eq, Structural, Clone, Copy)]
pub enum UsState {
    Alabama,
    Alaska,
}

/// An American coin; a quarter carries the state stamped on it.
#[derive(Debug, PartialEq, Eq, Structural, Clone, Copy)]
pub enum Coin {
    Penny,
    Nickel,
    Dime,
    Quarter(UsState),
}

/// The value of a coin, in cents.
pub open spec fn coin_value_spec(coin: Coin) -> u8 {
    match coin {
        Coin::Penny => 1,
        Coin::Nickel => 5,
        Coin::Dime => 10,
        Coin::Quarter(_) => 25,
    }
}

/// The value of a coin, in cents: 1 for a penny, 5 for a nickel, 10 for a
/// dime, 25 for a quarter of any state.
pub fn value_in_cents(coin: Coin) -> (cents: u8)
    ensures
        cents == coin_value_spec(coin),
{
    match coin {
        Coin::Penny => 1,
        Coin::Nickel => 5,
        Coin::Dime => 10,
        Coin::Quarter(_state) => 25,
    }
}

/// Adds one inside the `Option`: `None` stays `None`.
pub fn plus_one(x: Option<i32>) -> (r: Option<i32>)
    requires
        x matches Some(i) ==> i < i32::MAX,
    ensures
        r is Some <==> x is Some,
        x matches Some(i) ==> (r matches Some(v) && v == i + 1),
{
    match x {
        None => None,
        Some(i) => Some(i + 1),
    }
}

} // verus!
