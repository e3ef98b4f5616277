//! Generic data types: points with mixed type parameters, excerpts borrowed
//! from longer text, and finding the largest element of a slice.

use core::cmp::Ordering;
use vstd::laws_cmp::obeys_partial_cmp_spec_properties;
use vstd::prelude::*;
use vstd::std_specs::cmp::PartialOrdSpec;

verus! {

/// The largest element of a non-empty slice of numbers.
pub fn largest_i32(list: &[i32]) -> (r: i32)
    requires
        list@.len() > 0,
    ensures
        list@.contains(r),
        forall|i: int| 0 <= i < list@.len() ==> list@[i] <= r,
{
    let mut largest_so_far = list[0];
    let mut idx: usize = 1;
    while idx < list.len()
        invariant
            1 <= idx <= list@.len(),
            list@.contains(largest_so_far),
            forall|i: int| 0 <= i < idx ==> list@[i] <= largest_so_far,
        decreases list@.len() - idx,
    {
        if list[idx] > largest_so_far {
            largest_so_far = list[idx];
        }
        idx = idx + 1;
    }
    largest_so_far
}

/// The largest element of a non-empty slice of characters.
pub fn largest_char(list: &[char]) -> (r: char)
    requires
        list@.len() > 0,
    ensures
        list@.contains(r),
        forall|i: int| 0 <= i < list@.len() ==> list@[i] <= r,
{
    let mut largest_so_far = list[0];
    let mut idx: usize = 1;
    while idx < list.len()
        invariant
            1 <= idx <= list@.len(),
            list@.contains(largest_so_far),
            forall|i: int| 0 <= i < idx ==> list@[i] <= largest_so_far,
        decreases list@.len() - idx,
    {
        if list[idx] > largest_so_far {
            largest_so_far = list[idx];
        }
        idx = idx + 1;
    }
    largest_so_far
}

/// An element of a non-empty slice that no element of the slice exceeds,
/// under any ordering whose `>` behaves like a strict order.
pub fn largest<T: PartialOrd + Copy>(list: &[T]) -> (r: T)
    requires
        list@.len() > 0,
        T::obeys_partial_cmp_spec(),
        obeys_partial_cmp_spec_properties::<T>(),
    ensures
        list@.contains(r),
        forall|i: int|
            0 <= i < list@.len() ==> (#[trigger] list@[i].partial_cmp_spec(&r)) != Some(
                Ordering::Greater,
            ),
{
    proof {
        reveal(obeys_partial_cmp_spec_properties);
    }
    let mut largest_so_far = list[0];
    let mut idx: usize = 1;
    while idx < list.len()
        invariant
            1 <= idx <= list@.len(),
            T::obeys_partial_cmp_spec(),
            obeys_partial_cmp_spec_properties::<T>(),
            list@.contains(largest_so_far),
            forall|i: int|
                0 <= i < idx ==> (#[trigger] list@[i].partial_cmp_spec(&largest_so_far)) != Some(
                    Ordering::Greater,
                ),
        decreases list@.len() - idx,
    {
        let item = list[idx];
        if item > largest_so_far {
            proof {
                reveal(obeys_partial_cmp_spec_properties);
                assert forall|i: int| 0 <= i < idx implies (#[trigger] list@[
                    i
                ].partial_cmp_spec(&item)) != Some(Ordering::Greater) by {
                    if list@[i].partial_cmp_spec(&item) == Some(Ordering::Greater) {
                        assert(item.partial_cmp_spec(&largest_so_far) == Some(Ordering::Greater));
                        assert(list@[i].partial_cmp_spec(&largest_so_far) == Some(
                            Ordering::Greater,
                        ));
                    }
                }
            }
            largest_so_far = item;
        }
        proof {
            reveal(obeys_partial_cmp_spec_properties);
            if largest_so_far.partial_cmp_spec(&largest_so_far) == Some(Ordering::Greater) {
                assert(largest_so_far.partial_cmp_spec(&largest_so_far) == Some(Ordering::Less));
                assert(false);
            }
        }
        idx = idx + 1;
    }
    largest_so_far
}

/// A point whose two coordinates share one type.
pub struct Point3<T> {
    pub x: T,
    pub y: T,
}

impl<T> Point3<T> {
    /// A reference to the point's first coordinate.
    pub fn x(&self) -> (r: &T)
        ensures
            *r == self.x,
    {
        &self.x
    }
}

/// A point whose two coordinates may have different types.
pub struct Point4<T, U> {
    pub x: T,
    pub y: U,
}

impl<T, U> Point4<T, U> {
    /// A point taking its first coordinate from `self` and its second from
    /// `other`.
    pub fn mixup<V, W>(self, other: Point4<V, W>) -> (r: Point4<T, W>)
        ensures
            r.x == self.x,
            r.y == other.y,
    {
        Point4 { x: self.x, y: other.y }
    }
}

/// An excerpt borrowed from a longer text.
pub struct ImportantExcerpt<'a> {
    pub part: &'a str,
}

impl<'a> ImportantExcerpt<'a> {
    /// The excerpt's level; always three.
    pub fn level(&self) -> (r: i32)
        ensures
            r == 3,
    {
        3
    }

    /// The excerpted part.
    pub fn announce_and_return_part(&self, announcement: &str) -> (r: &str)
        ensures
            r@ == self.part@,
    {
        let _ = announcement;
        self.part
    }
}

} // verus!
