//! A drawable point: an immutable coordinate value, compared by value.

use vstd::prelude::*;

verus! {

/// One drawn coordinate. Points are immutable once created and never removed
/// from a canvas; equality is plain field equality.
#[derive(Clone, Copy, PartialEq, Eq, Structural, Debug)]
pub struct Point {
    pub x: u32,
    pub y: u32,
}

impl Point {
    pub fn new(x: u32, y: u32) -> (p: Point)
        ensures
            p.x == x,
            p.y == y,
    {
        Point { x, y }
    }
}

} // verus!
