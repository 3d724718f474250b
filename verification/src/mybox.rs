//! A box of one's own: a single-value wrapper that hands out references.

use vstd::prelude::*;

verus! {

/// A wrapper around a single value.
pub struct MyBox<T>(pub T);

impl<T> MyBox<T> {
    /// Boxes the value.
    pub fn new(x: T) -> (b: MyBox<T>)
        ensures
            b.0 == x,
    {
        MyBox(x)
    }

    /// A reference to the boxed value.
    pub fn deref(&self) -> (r: &T)
        ensures
            r == &self.0,
    {
        &self.0
    }
}

} // verus!
