//! A counter that yields the numbers one through five, one per step.

use vstd::prelude::*;

verus! {

/// Counts upward from its starting point, stopping after five.
pub struct Counter {
    pub count: u32,
}

impl Counter {
    /// A counter that has already counted to `count`.
    pub fn new(count: u32) -> (counter: Counter)
        ensures
            counter.count == count,
    {
        Counter { count }
    }

    /// One step: while the count is below five it advances and yields the new
    /// count; from five on it yields nothing and stays put.
    pub fn next(&mut self) -> (item: Option<u32>)
        ensures
            old(self).count < 5 ==> {
                &&& final(self).count == old(self).count + 1
                &&& item == Some((old(self).count + 1) as u32)
            },
            old(self).count >= 5 ==> {
                &&& final(self).count == old(self).count
                &&& item is None
            },
    {
        if self.count < 5 {
            self.count += 1;
            Some(self.count)
        } else {
            None
        }
    }
}

} // verus!
