//! Generic shape computation: rectangles and squares with exact area and
//! perimeter contracts, and a generic accessor over the [`Shape`] trait.

use vstd::prelude::*;

verus! {

/// A figure with an area and a perimeter, both unsigned 32-bit values.
pub trait Shape {
    /// The mathematical area of the figure.
    spec fn spec_area(&self) -> int;

    /// The mathematical perimeter of the figure.
    spec fn spec_perimeter(&self) -> int;

    fn area(&self) -> (a: u32)
        requires
            0 <= self.spec_area() <= u32::MAX,
        ensures
            a == self.spec_area(),
    ;

    fn perimeter(&self) -> (p: u32)
        requires
            0 <= self.spec_perimeter() <= u32::MAX,
        ensures
            p == self.spec_perimeter(),
    ;
}

#[derive(Clone, Copy, Debug, PartialEq, Eq, Structural)]
pub struct Rect {
    pub width: u32,
    pub height: u32,
}

#[derive(Clone, Copy, Debug, PartialEq, Eq, Structural)]
pub struct Square {
    pub side: u32,
}

impl Shape for Rect {
    open spec fn spec_area(&self) -> int {
        self.width * self.height
    }

    open spec fn spec_perimeter(&self) -> int {
        2 * (self.width + self.height)
    }

    fn area(&self) -> (a: u32)
        ensures
            a == self.spec_area(),
    {
        self.width * self.height
    }

    fn perimeter(&self) -> (p: u32)
        ensures
            p == self.spec_perimeter(),
    {
        2 * (self.width + self.height)
    }
}

impl Shape for Square {
    open spec fn spec_area(&self) -> int {
        self.side * self.side
    }

    open spec fn spec_perimeter(&self) -> int {
        4 * self.side
    }

    fn area(&self) -> (a: u32)
        ensures
            a == self.spec_area(),
    {
        self.side * self.side
    }

    fn perimeter(&self) -> (p: u32)
        ensures
            p == self.spec_perimeter(),
    {
        4 * self.side
    }
}

/// The area and the perimeter of a shape, in that order.
pub fn get_area_perimeter<S: Shape>(s: &S) -> (r: (u32, u32))
    requires
        0 <= s.spec_area() <= u32::MAX,
        0 <= s.spec_perimeter() <= u32::MAX,
    ensures
        r.0 == s.spec_area(),
        r.1 == s.spec_perimeter(),
{
    (s.area(), s.perimeter())
}

} // verus!
