//! Generic functions and structs: the largest element of a vector, and a
//! point that mixes its coordinates with another point's.

use vstd::prelude::*;
use vstd::std_specs::cmp::PartialOrdSpec;
use core::cmp::Ordering;

verus! {

/// The result of scanning `rest` starting from `acc`, replacing `acc`
/// whenever it compares strictly below the element under the scan. For a
/// total order this is the maximum of `acc` and the elements of `rest`.
pub open spec fn running_max<T: PartialOrd>(acc: T, rest: Seq<T>) -> T
    decreases rest.len(),
{
    if rest.len() == 0 {
        acc
    } else if acc.partial_cmp_spec(&rest[0]) == Some(Ordering::Less) {
        running_max(rest[0], rest.drop_first())
    } else {
        running_max(acc, rest.drop_first())
    }
}

/// The element the "keep the larger" scan settles on, starting from the
/// vector's first element. The result is always one of the elements; when
/// the type's comparison obeys its specification, it is exactly the scan's
/// outcome.
pub fn max<T: PartialOrd + Copy>(vector: &Vec<T>) -> (largest: T)
    requires
        vector.len() > 0,
    ensures
        exists|i: int| 0 <= i < vector@.len() && largest == vector@[i],
        T::obeys_partial_cmp_spec() ==> largest == running_max(vector@[0], vector@),
{
    let mut largest: T = vector[0];
    let mut j: usize = 0;
    proof {
        assert(vector@.skip(0) =~= vector@);
    }
    while j < vector.len()
        invariant
            0 < vector@.len(),
            0 <= j <= vector@.len(),
            exists|i: int| 0 <= i < vector@.len() && largest == vector@[i],
            T::obeys_partial_cmp_spec() ==> running_max(vector@[0], vector@) == running_max(
                largest,
                vector@.skip(j as int),
            ),
        decreases vector@.len() - j,
    {
        if largest < vector[j] {
            largest = vector[j];
        }
        proof {
            assert(vector@.skip(j as int).drop_first() =~= vector@.skip(j as int + 1));
            assert(vector@.skip(j as int)[0] == vector@[j as int]);
        }
        j += 1;
    }
    largest
}

/// A point whose two named coordinates may have different types.
pub struct Point<T, U> {
    pub x: T,
    pub y: U,
    pub z: u64,
}

impl<V, W> Point<V, W> {
    /// A reference to the first coordinate.
    pub fn x(&self) -> (r: &V)
        ensures
            r == &self.x,
    {
        &self.x
    }

    /// A new point keeping this point's first coordinate and taking the
    /// other point's second and third.
    pub fn mixup<X, Y>(self, other: Point<X, Y>) -> (mixed: Point<V, Y>)
        ensures
            mixed.x == self.x,
            mixed.y == other.y,
            mixed.z == other.z,
    {
        Point { x: self.x, y: other.y, z: other.z }
    }
}

} // verus!
