//! A home-made box and a cons list with a tail accessor.

use vstd::prelude::*;

verus! {

/// A box of our own: owns a single value of any type.
pub struct MyBox<T>(pub T);

impl<T> MyBox<T> {
    /// Boxes a value.
    pub fn new(x: T) -> (b: MyBox<T>)
        ensures
            b.0 == x,
    {
        MyBox(x)
    }

    /// A reference to the boxed value.
    pub fn get(&self) -> (r: &T)
        ensures
            *r == self.0,
    {
        &self.0
    }
}

impl<T> core::ops::Deref for MyBox<T> {
    type Target = T;

    fn deref(&self) -> (r: &T)
        ensures
            *r == self.0,
    {
        &self.0
    }
}

/// A cons list of numbers; each cell carries one value and the rest of the
/// list.
pub enum List {
    Cons(i32, Box<List>),
    Nil,
}

impl List {
    /// The rest of the list after the first cell, or `None` for the empty
    /// list.
    pub fn tail(&self) -> (t: Option<&Box<List>>)
        ensures
            t is Some <==> self is Cons,
            self matches List::Cons(_, rest) ==> (t matches Some(r) && *r == rest),
    {
        match self {
            List::Cons(_, item) => Some(item),
            List::Nil => None,
        }
    }
}

} // verus!
