//! Plain integer geometry values handed to the native descriptor builders.

use vstd::prelude::*;

verus! {

/// An unsigned pixel size: width and height.
#[derive(Clone, Copy, Debug, PartialEq, Eq, Structural)]
pub struct Size2U(pub u32, pub u32);

impl Size2U {
    /// The horizontal extent.
    pub fn width(&self) -> (r: u32)
        ensures
            r == self.0,
    {
        self.0
    }

    /// The vertical extent.
    pub fn height(&self) -> (r: u32)
        ensures
            r == self.1,
    {
        self.1
    }
}

/// A signed point, as a window coordinate pair.
#[derive(Clone, Copy, Debug, PartialEq, Eq, Structural)]
pub struct Point2(pub i32, pub i32);

impl Point2 {
    /// The horizontal coordinate.
    pub fn x(&self) -> (r: i32)
        ensures
            r == self.0,
    {
        self.0
    }

    /// The vertical coordinate.
    pub fn y(&self) -> (r: i32)
        ensures
            r == self.1,
    {
        self.1
    }
}

} // verus!
