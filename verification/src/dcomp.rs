//! DirectComposition models: visual insertion order and bitmap interpolation.

use vstd::prelude::*;

verus! {

/// Where a child visual is inserted relative to its siblings. The variants
/// that name a sibling carry that choice; the sibling itself is named at
/// the call.
#[derive(Clone, Copy, Debug, PartialEq, Eq, Structural)]
pub enum InsertAt {
    Top,
    Bottom,
    Above,
    Below,
}

impl InsertAt {
    /// The flag the native insertion call takes: whether the child goes
    /// below the named reference, or to the bottom when none is named.
    pub open spec fn spec_insert_below_flag(self) -> bool {
        match self {
            InsertAt::Top => false,
            InsertAt::Bottom => true,
            InsertAt::Above => true,
            InsertAt::Below => false,
        }
    }

    /// Converts the insertion choice to the native flag.
    pub fn insert_below_flag(self) -> (r: bool)
        ensures
            r == self.spec_insert_below_flag(),
    {
        match self {
            InsertAt::Top => false,
            InsertAt::Bottom => true,
            InsertAt::Above => true,
            InsertAt::Below => false,
        }
    }

    /// Whether the choice names a sibling as reference.
    pub fn has_reference(self) -> (r: bool)
        ensures
            r == (self is Above || self is Below),
    {
        match self {
            InsertAt::Above => true,
            InsertAt::Below => true,
            _ => false,
        }
    }
}

/// How a scaled bitmap is interpolated.
#[derive(Clone, Copy, Debug, PartialEq, Eq, Structural)]
pub enum BitmapInterpolationMode {
    NearestNeighbor,
    Linear,
}

impl BitmapInterpolationMode {
    /// The native interpolation-mode code.
    pub open spec fn spec_value(self) -> u32 {
        match self {
            BitmapInterpolationMode::NearestNeighbor => 0,
            BitmapInterpolationMode::Linear => 1,
        }
    }

    /// Converts the mode to its native code.
    pub fn value(self) -> (r: u32)
        ensures
            r == self.spec_value(),
    {
        match self {
            BitmapInterpolationMode::NearestNeighbor => 0,
            BitmapInterpolationMode::Linear => 1,
        }
    }
}

} // verus!
