//! The CIE XYZ color space: the linear intermediate most conversions route
//! through. All three channels are free (unbounded).

use vstd::prelude::*;
use crate::channel::FreeChannelScalar;

verus! {

/// A unit struct for identifying and constraining XYZ colors in generic code.
pub struct XyzTag;

/// A CIE XYZ tristimulus value.
#[derive(Clone, Copy, Debug, PartialEq)]
pub struct Xyz<T> {
    pub x: T,
    pub y: T,
    pub z: T,
}

impl<T: FreeChannelScalar> Xyz<T> {
    pub open spec fn x_spec(self) -> T {
        self.x
    }

    pub open spec fn y_spec(self) -> T {
        self.y
    }

    pub open spec fn z_spec(self) -> T {
        self.z
    }

    /// Construct an `Xyz` from channel values.
    pub fn from_channels(x: T, y: T, z: T) -> (r: Self)
        ensures
            r.x_spec() == x,
            r.y_spec() == y,
            r.z_spec() == z,
    {
        Xyz { x, y, z }
    }

    /// Get the X channel.
    pub fn x(&self) -> (r: T)
        ensures
            r == self.x_spec(),
    {
        self.x
    }

    /// Get the Y channel.
    pub fn y(&self) -> (r: T)
        ensures
            r == self.y_spec(),
    {
        self.y
    }

    /// Get the Z channel.
    pub fn z(&self) -> (r: T)
        ensures
            r == self.z_spec(),
    {
        self.z
    }

    pub fn num_channels() -> (n: u32)
        ensures
            n == 3,
    {
        3
    }

    /// Decompose the color into its ordered channel tuple.
    pub fn to_tuple(self) -> (r: (T, T, T))
        ensures
            r == (self.x_spec(), self.y_spec(), self.z_spec()),
    {
        (self.x, self.y, self.z)
    }

    /// Construct an `Xyz` from an ordered channel tuple.
    pub fn from_tuple(values: (T, T, T)) -> (r: Self)
        ensures
            r.x_spec() == values.0,
            r.y_spec() == values.1,
            r.z_spec() == values.2,
    {
        Xyz { x: values.0, y: values.1, z: values.2 }
    }
}

} // verus!
