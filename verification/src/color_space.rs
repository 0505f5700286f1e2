//! Color space building blocks: the chromaticity coordinates of an RGB
//! primary.

use vstd::prelude::*;
use crate::channel::{FreeChannelScalar, PosNormalChannelScalar};

verus! {

/// The xy chromaticity of one RGB primary.
#[derive(Clone, Debug, PartialEq)]
pub struct RgbPrimary<T> {
    pub x: T,
    pub y: T,
}

impl<T> RgbPrimary<T> where T: PosNormalChannelScalar + FreeChannelScalar {
    pub open spec fn x_spec(self) -> T {
        self.x
    }

    pub open spec fn y_spec(self) -> T {
        self.y
    }

    /// Construct a primary from its xy chromaticity coordinates.
    pub fn new(x: T, y: T) -> (r: Self)
        ensures
            r == (RgbPrimary { x, y }),
    {
        RgbPrimary { x, y }
    }

    /// Decompose the primary into its coordinate tuple.
    pub fn to_tuple(self) -> (r: (T, T))
        ensures
            r == (self.x_spec(), self.y_spec()),
    {
        (self.x, self.y)
    }
}

} // verus!
