//! A rectangle with an area.

use vstd::prelude::*;

verus! {

/// An axis-aligned rectangle.
#[derive(Debug)]
pub struct Rectangle {
    pub width: i32,
    pub height: i32,
}

impl Rectangle {
    /// The rectangle's area.
    pub fn area(&self) -> (a: i32)
        requires
            i32::MIN <= self.width * self.height <= i32::MAX,
        ensures
            a == self.width * self.height,
    {
        self.width * self.height
    }

    /// Squares the rectangle in place by copying the height into the width.
    pub fn make_square(&mut self)
        ensures
            final(self).width == old(self).height,
            final(self).height == old(self).height,
    {
        self.width = self.height;
    }

    /// A fresh square of the given size.
    pub fn make_new_square(size: i32) -> (rect: Rectangle)
        ensures
            rect.width == size,
            rect.height == size,
    {
        let rect: Rectangle = Rectangle { width: size, height: size };
        return rect;
    }
}

} // verus!
