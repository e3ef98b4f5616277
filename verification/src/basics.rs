//! Small arithmetic and greeting helpers, plus the bounded `Guess` type.

use vstd::prelude::*;

verus! {

/// Adds two to `a`.
pub fn add_two(a: i32) -> (r: i32)
    requires
        a + 2 <= i32::MAX,
    ensures
        r == a + 2,
{
    a + 2
}

/// Adds four to `a` by way of `internal_adder`.
pub fn add_four(a: i32) -> (r: i32)
    requires
        a + 4 <= i32::MAX,
    ensures
        r == a + 4,
{
    internal_adder(a, 4)
}

/// Adds two numbers.
pub fn internal_adder(a: i32, b: i32) -> (r: i32)
    requires
        i32::MIN <= a + b <= i32::MAX,
    ensures
        r == a + b,
{
    a + b
}

/// Builds the greeting `Hello <name>!`.
pub fn greeting(name: &str) -> (r: String)
    ensures
        r@ == "Hello "@ + name@ + "!"@,
{
    String::from_str("Hello ").concat(name).concat("!")
}

/// A number that is kept between 1 and 100, inclusive.
pub struct Guess {
    value: i32,
}

impl Guess {
    /// The guarded value.
    pub closed spec fn value_spec(&self) -> i32 {
        self.value
    }

    /// Wraps a value already known to lie between 1 and 100.
    pub fn new(value: i32) -> (g: Guess)
        requires
            1 <= value <= 100,
        ensures
            g.value_spec() == value,
    {
        Guess { value }
    }
}

} // verus!
