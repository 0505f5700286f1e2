//! Named standard illuminants: the white points that parameterize the
//! Lab transform, each as its XYZ tristimulus value and its xy chromaticity.
//! Pure reference data, for the CIE 1931 two-degree observer.

use vstd::prelude::*;
use crate::channel::{FreeChannelScalar, PosNormalChannelScalar};
use crate::xyy::XyY;
use crate::xyz::Xyz;

verus! {

/// Incandescent / Tungsten.
#[derive(Clone, Debug, PartialEq)]
pub struct A;

impl A {
    /// The XYZ tristimulus value of this white point.
    pub fn get_xyz<T: FreeChannelScalar>() -> (r: Xyz<T>)
        ensures
            r == (Xyz { x: T::from_ratio_spec(2197, 2000), y: T::one_spec(), z: T::from_ratio_spec(7117, 20000) }),
    {
        Xyz::from_channels(T::from_ratio(2197, 2000), T::one(), T::from_ratio(7117, 20000))
    }

    /// The xy chromaticity of this white point, with unit luminance.
    pub fn get_xy_chromaticity<T: FreeChannelScalar + PosNormalChannelScalar>() -> (r: XyY<T>)
        ensures
            r == (XyY { x: T::from_ratio_spec(44757, 100000), y: T::from_ratio_spec(8149, 20000), Y: T::one_spec() }),
    {
        XyY { x: T::from_ratio(44757, 100000), y: T::from_ratio(8149, 20000), Y: T::one() }
    }
}

/// {obsolete} Direct sunlight at noon.
#[derive(Clone, Debug, PartialEq)]
pub struct B;

impl B {
    /// The XYZ tristimulus value of this white point.
    pub fn get_xyz<T: FreeChannelScalar>() -> (r: Xyz<T>)
        ensures
            r == (Xyz { x: T::from_ratio_spec(3096, 3125), y: T::one_spec(), z: T::from_ratio_spec(85223, 100000) }),
    {
        Xyz::from_channels(T::from_ratio(3096, 3125), T::one(), T::from_ratio(85223, 100000))
    }

    /// The xy chromaticity of this white point, with unit luminance.
    pub fn get_xy_chromaticity<T: FreeChannelScalar + PosNormalChannelScalar>() -> (r: XyY<T>)
        ensures
            r == (XyY { x: T::from_ratio_spec(17421, 50000), y: T::from_ratio_spec(35161, 100000), Y: T::one_spec() }),
    {
        XyY { x: T::from_ratio(17421, 50000), y: T::from_ratio(35161, 100000), Y: T::one() }
    }
}

/// {obsolete} Average / North sky Daylight.
#[derive(Clone, Debug, PartialEq)]
pub struct C;

impl C {
    /// The XYZ tristimulus value of this white point.
    pub fn get_xyz<T: FreeChannelScalar>() -> (r: Xyz<T>)
        ensures
            r == (Xyz { x: T::from_ratio_spec(49037, 50000), y: T::one_spec(), z: T::from_ratio_spec(14779, 12500) }),
    {
        Xyz::from_channels(T::from_ratio(49037, 50000), T::one(), T::from_ratio(14779, 12500))
    }

    /// The xy chromaticity of this white point, with unit luminance.
    pub fn get_xy_chromaticity<T: FreeChannelScalar + PosNormalChannelScalar>() -> (r: XyY<T>)
        ensures
            r == (XyY { x: T::from_ratio_spec(15503, 50000), y: T::from_ratio_spec(988, 3125), Y: T::one_spec() }),
    {
        XyY { x: T::from_ratio(15503, 50000), y: T::from_ratio(988, 3125), Y: T::one() }
    }
}

/// Horizon Light. ICC profile PCS.
#[derive(Clone, Debug, PartialEq)]
pub struct D50;

impl D50 {
    /// The XYZ tristimulus value of this white point.
    pub fn get_xyz<T: FreeChannelScalar>() -> (r: Xyz<T>)
        ensures
            r == (Xyz { x: T::from_ratio_spec(48211, 50000), y: T::one_spec(), z: T::from_ratio_spec(82521, 100000) }),
    {
        Xyz::from_channels(T::from_ratio(48211, 50000), T::one(), T::from_ratio(82521, 100000))
    }

    /// The xy chromaticity of this white point, with unit luminance.
    pub fn get_xy_chromaticity<T: FreeChannelScalar + PosNormalChannelScalar>() -> (r: XyY<T>)
        ensures
            r == (XyY { x: T::from_ratio_spec(34567, 100000), y: T::from_ratio_spec(717, 2000), Y: T::one_spec() }),
    {
        XyY { x: T::from_ratio(34567, 100000), y: T::from_ratio(717, 2000), Y: T::one() }
    }
}

/// Mid-morning / Mid-afternoon Daylight.
#[derive(Clone, Debug, PartialEq)]
pub struct D55;

impl D55 {
    /// The XYZ tristimulus value of this white point.
    pub fn get_xyz<T: FreeChannelScalar>() -> (r: Xyz<T>)
        ensures
            r == (Xyz { x: T::from_ratio_spec(47841, 50000), y: T::one_spec(), z: T::from_ratio_spec(92149, 100000) }),
    {
        Xyz::from_channels(T::from_ratio(47841, 50000), T::one(), T::from_ratio(92149, 100000))
    }

    /// The xy chromaticity of this white point, with unit luminance.
    pub fn get_xy_chromaticity<T: FreeChannelScalar + PosNormalChannelScalar>() -> (r: XyY<T>)
        ensures
            r == (XyY { x: T::from_ratio_spec(16621, 50000), y: T::from_ratio_spec(34743, 100000), Y: T::one_spec() }),
    {
        XyY { x: T::from_ratio(16621, 50000), y: T::from_ratio(34743, 100000), Y: T::one() }
    }
}

/// Noon Daylight: Television, sRGB color space.
#[derive(Clone, Debug, PartialEq)]
pub struct D65;

impl D65 {
    /// The XYZ tristimulus value of this white point.
    pub fn get_xyz<T: FreeChannelScalar>() -> (r: Xyz<T>)
        ensures
            r == (Xyz { x: T::from_ratio_spec(95047, 100000), y: T::one_spec(), z: T::from_ratio_spec(108883, 100000) }),
    {
        Xyz::from_channels(T::from_ratio(95047, 100000), T::one(), T::from_ratio(108883, 100000))
    }

    /// The xy chromaticity of this white point, with unit luminance.
    pub fn get_xy_chromaticity<T: FreeChannelScalar + PosNormalChannelScalar>() -> (r: XyY<T>)
        ensures
            r == (XyY { x: T::from_ratio_spec(31271, 100000), y: T::from_ratio_spec(16451, 50000), Y: T::one_spec() }),
    {
        XyY { x: T::from_ratio(31271, 100000), y: T::from_ratio(16451, 50000), Y: T::one() }
    }
}

/// North sky Daylight.
#[derive(Clone, Debug, PartialEq)]
pub struct D75;

impl D75 {
    /// The XYZ tristimulus value of this white point.
    pub fn get_xyz<T: FreeChannelScalar>() -> (r: Xyz<T>)
        ensures
            r == (Xyz { x: T::from_ratio_spec(23743, 25000), y: T::one_spec(), z: T::from_ratio_spec(61319, 50000) }),
    {
        Xyz::from_channels(T::from_ratio(23743, 25000), T::one(), T::from_ratio(61319, 50000))
    }

    /// The xy chromaticity of this white point, with unit luminance.
    pub fn get_xy_chromaticity<T: FreeChannelScalar + PosNormalChannelScalar>() -> (r: XyY<T>)
        ensures
            r == (XyY { x: T::from_ratio_spec(14951, 50000), y: T::from_ratio_spec(6297, 20000), Y: T::one_spec() }),
    {
        XyY { x: T::from_ratio(14951, 50000), y: T::from_ratio(6297, 20000), Y: T::one() }
    }
}

/// Equal energy.
#[derive(Clone, Debug, PartialEq)]
pub struct E;

impl E {
    /// The XYZ tristimulus value of this white point.
    pub fn get_xyz<T: FreeChannelScalar>() -> (r: Xyz<T>)
        ensures
            r == (Xyz { x: T::one_spec(), y: T::one_spec(), z: T::from_ratio_spec(100003, 100000) }),
    {
        Xyz::from_channels(T::one(), T::one(), T::from_ratio(100003, 100000))
    }

    /// The xy chromaticity of this white point, with unit luminance.
    pub fn get_xy_chromaticity<T: FreeChannelScalar + PosNormalChannelScalar>() -> (r: XyY<T>)
        ensures
            r == (XyY { x: T::from_ratio_spec(1, 3), y: T::from_ratio_spec(1, 3), Y: T::one_spec() }),
    {
        XyY { x: T::from_ratio(1, 3), y: T::from_ratio(1, 3), Y: T::one() }
    }
}

/// Daylight Fluorescent.
#[derive(Clone, Debug, PartialEq)]
pub struct F1;

impl F1 {
    /// The XYZ tristimulus value of this white point.
    pub fn get_xyz<T: FreeChannelScalar>() -> (r: Xyz<T>)
        ensures
            r == (Xyz { x: T::from_ratio_spec(58021, 62500), y: T::one_spec(), z: T::from_ratio_spec(1036647, 1000000) }),
    {
        Xyz::from_channels(T::from_ratio(58021, 62500), T::one(), T::from_ratio(1036647, 1000000))
    }

    /// The xy chromaticity of this white point, with unit luminance.
    pub fn get_xy_chromaticity<T: FreeChannelScalar + PosNormalChannelScalar>() -> (r: XyY<T>)
        ensures
            r == (XyY { x: T::from_ratio_spec(3131, 10000), y: T::from_ratio_spec(33727, 100000), Y: T::one_spec() }),
    {
        XyY { x: T::from_ratio(3131, 10000), y: T::from_ratio(33727, 100000), Y: T::one() }
    }
}

/// Cool White Fluorescent.
#[derive(Clone, Debug, PartialEq)]
pub struct F2;

impl F2 {
    /// The XYZ tristimulus value of this white point.
    pub fn get_xyz<T: FreeChannelScalar>() -> (r: Xyz<T>)
        ensures
            r == (Xyz { x: T::from_ratio_spec(49593, 50000), y: T::one_spec(), z: T::from_ratio_spec(67393, 100000) }),
    {
        Xyz::from_channels(T::from_ratio(49593, 50000), T::one(), T::from_ratio(67393, 100000))
    }

    /// The xy chromaticity of this white point, with unit luminance.
    pub fn get_xy_chromaticity<T: FreeChannelScalar + PosNormalChannelScalar>() -> (r: XyY<T>)
        ensures
            r == (XyY { x: T::from_ratio_spec(4651, 12500), y: T::from_ratio_spec(37529, 100000), Y: T::one_spec() }),
    {
        XyY { x: T::from_ratio(4651, 12500), y: T::from_ratio(37529, 100000), Y: T::one() }
    }
}

/// White Fluorescent.
#[derive(Clone, Debug, PartialEq)]
pub struct F3;

impl F3 {
    /// The XYZ tristimulus value of this white point.
    pub fn get_xyz<T: FreeChannelScalar>() -> (r: Xyz<T>)
        ensures
            r == (Xyz { x: T::from_ratio_spec(207507, 200000), y: T::one_spec(), z: T::from_ratio_spec(99721, 200000) }),
    {
        Xyz::from_channels(T::from_ratio(207507, 200000), T::one(), T::from_ratio(99721, 200000))
    }

    /// The xy chromaticity of this white point, with unit luminance.
    pub fn get_xy_chromaticity<T: FreeChannelScalar + PosNormalChannelScalar>() -> (r: XyY<T>)
        ensures
            r == (XyY { x: T::from_ratio_spec(4091, 10000), y: T::from_ratio_spec(3943, 10000), Y: T::one_spec() }),
    {
        XyY { x: T::from_ratio(4091, 10000), y: T::from_ratio(3943, 10000), Y: T::one() }
    }
}

/// Warm White Fluorescent.
#[derive(Clone, Debug, PartialEq)]
pub struct F4;

impl F4 {
    /// The XYZ tristimulus value of this white point.
    pub fn get_xyz<T: FreeChannelScalar>() -> (r: Xyz<T>)
        ensures
            r == (Xyz { x: T::from_ratio_spec(1091473, 1000000), y: T::one_spec(), z: T::from_ratio_spec(388133, 1000000) }),
    {
        Xyz::from_channels(T::from_ratio(1091473, 1000000), T::one(), T::from_ratio(388133, 1000000))
    }

    /// The xy chromaticity of this white point, with unit luminance.
    pub fn get_xy_chromaticity<T: FreeChannelScalar + PosNormalChannelScalar>() -> (r: XyY<T>)
        ensures
            r == (XyY { x: T::from_ratio_spec(22009, 50000), y: T::from_ratio_spec(40329, 100000), Y: T::one_spec() }),
    {
        XyY { x: T::from_ratio(22009, 50000), y: T::from_ratio(40329, 100000), Y: T::one() }
    }
}

/// Daylight Fluorescent.
#[derive(Clone, Debug, PartialEq)]
pub struct F5;

impl F5 {
    /// The XYZ tristimulus value of this white point.
    pub fn get_xyz<T: FreeChannelScalar>() -> (r: Xyz<T>)
        ensures
            r == (Xyz { x: T::from_ratio_spec(11359, 12500), y: T::one_spec(), z: T::from_ratio_spec(987229, 1000000) }),
    {
        Xyz::from_channels(T::from_ratio(11359, 12500), T::one(), T::from_ratio(987229, 1000000))
    }

    /// The xy chromaticity of this white point, with unit luminance.
    pub fn get_xy_chromaticity<T: FreeChannelScalar + PosNormalChannelScalar>() -> (r: XyY<T>)
        ensures
            r == (XyY { x: T::from_ratio_spec(31379, 100000), y: T::from_ratio_spec(34531, 100000), Y: T::one_spec() }),
    {
        XyY { x: T::from_ratio(31379, 100000), y: T::from_ratio(34531, 100000), Y: T::one() }
    }
}

/// Lite White Fluorescent.
#[derive(Clone, Debug, PartialEq)]
pub struct F6;

impl F6 {
    /// The XYZ tristimulus value of this white point.
    pub fn get_xyz<T: FreeChannelScalar>() -> (r: Xyz<T>)
        ensures
            r == (Xyz { x: T::from_ratio_spec(973091, 1000000), y: T::one_spec(), z: T::from_ratio_spec(120381, 200000) }),
    {
        Xyz::from_channels(T::from_ratio(973091, 1000000), T::one(), T::from_ratio(120381, 200000))
    }

    /// The xy chromaticity of this white point, with unit luminance.
    pub fn get_xy_chromaticity<T: FreeChannelScalar + PosNormalChannelScalar>() -> (r: XyY<T>)
        ensures
            r == (XyY { x: T::from_ratio_spec(3779, 10000), y: T::from_ratio_spec(7767, 20000), Y: T::one_spec() }),
    {
        XyY { x: T::from_ratio(3779, 10000), y: T::from_ratio(7767, 20000), Y: T::one() }
    }
}

/// D65 simulator, Daylight simulator.
#[derive(Clone, Debug, PartialEq)]
pub struct F7;

impl F7 {
    /// The XYZ tristimulus value of this white point.
    pub fn get_xyz<T: FreeChannelScalar>() -> (r: Xyz<T>)
        ensures
            r == (Xyz { x: T::from_ratio_spec(95041, 100000), y: T::one_spec(), z: T::from_ratio_spec(108747, 100000) }),
    {
        Xyz::from_channels(T::from_ratio(95041, 100000), T::one(), T::from_ratio(108747, 100000))
    }

    /// The xy chromaticity of this white point, with unit luminance.
    pub fn get_xy_chromaticity<T: FreeChannelScalar + PosNormalChannelScalar>() -> (r: XyY<T>)
        ensures
            r == (XyY { x: T::from_ratio_spec(7823, 25000), y: T::from_ratio_spec(32933, 100000), Y: T::one_spec() }),
    {
        XyY { x: T::from_ratio(7823, 25000), y: T::from_ratio(32933, 100000), Y: T::one() }
    }
}

/// D50 simulator, Sylvania F40 Design 50.
#[derive(Clone, Debug, PartialEq)]
pub struct F8;

impl F8 {
    /// The XYZ tristimulus value of this white point.
    pub fn get_xyz<T: FreeChannelScalar>() -> (r: Xyz<T>)
        ensures
            r == (Xyz { x: T::from_ratio_spec(7713, 8000), y: T::one_spec(), z: T::from_ratio_spec(823331, 1000000) }),
    {
        Xyz::from_channels(T::from_ratio(7713, 8000), T::one(), T::from_ratio(823331, 1000000))
    }

    /// The xy chromaticity of this white point, with unit luminance.
    pub fn get_xy_chromaticity<T: FreeChannelScalar + PosNormalChannelScalar>() -> (r: XyY<T>)
        ensures
            r == (XyY { x: T::from_ratio_spec(8647, 25000), y: T::from_ratio_spec(287, 800), Y: T::one_spec() }),
    {
        XyY { x: T::from_ratio(8647, 25000), y: T::from_ratio(287, 800), Y: T::one() }
    }
}

/// Cool White Deluxe Fluorescent.
#[derive(Clone, Debug, PartialEq)]
pub struct F9;

impl F9 {
    /// The XYZ tristimulus value of this white point.
    pub fn get_xyz<T: FreeChannelScalar>() -> (r: Xyz<T>)
        ensures
            r == (Xyz { x: T::from_ratio_spec(15682, 15625), y: T::one_spec(), z: T::from_ratio_spec(169671, 250000) }),
    {
        Xyz::from_channels(T::from_ratio(15682, 15625), T::one(), T::from_ratio(169671, 250000))
    }

    /// The xy chromaticity of this white point, with unit luminance.
    pub fn get_xy_chromaticity<T: FreeChannelScalar + PosNormalChannelScalar>() -> (r: XyY<T>)
        ensures
            r == (XyY { x: T::from_ratio_spec(37417, 100000), y: T::from_ratio_spec(37281, 100000), Y: T::one_spec() }),
    {
        XyY { x: T::from_ratio(37417, 100000), y: T::from_ratio(37281, 100000), Y: T::one() }
    }
}

/// Philips TL85, Ultralume 50.
#[derive(Clone, Debug, PartialEq)]
pub struct F10;

impl F10 {
    /// The XYZ tristimulus value of this white point.
    pub fn get_xyz<T: FreeChannelScalar>() -> (r: Xyz<T>)
        ensures
            r == (Xyz { x: T::from_ratio_spec(192347, 200000), y: T::one_spec(), z: T::from_ratio_spec(817123, 1000000) }),
    {
        Xyz::from_channels(T::from_ratio(192347, 200000), T::one(), T::from_ratio(817123, 1000000))
    }

    /// The xy chromaticity of this white point, with unit luminance.
    pub fn get_xy_chromaticity<T: FreeChannelScalar + PosNormalChannelScalar>() -> (r: XyY<T>)
        ensures
            r == (XyY { x: T::from_ratio_spec(34609, 100000), y: T::from_ratio_spec(17993, 50000), Y: T::one_spec() }),
    {
        XyY { x: T::from_ratio(34609, 100000), y: T::from_ratio(17993, 50000), Y: T::one() }
    }
}

/// Philips TL84, Ultralume 40.
#[derive(Clone, Debug, PartialEq)]
pub struct F11;

impl F11 {
    /// The XYZ tristimulus value of this white point.
    pub fn get_xyz<T: FreeChannelScalar>() -> (r: Xyz<T>)
        ensures
            r == (Xyz { x: T::from_ratio_spec(50481, 50000), y: T::one_spec(), z: T::from_ratio_spec(1287, 2000) }),
    {
        Xyz::from_channels(T::from_ratio(50481, 50000), T::one(), T::from_ratio(1287, 2000))
    }

    /// The xy chromaticity of this white point, with unit luminance.
    pub fn get_xy_chromaticity<T: FreeChannelScalar + PosNormalChannelScalar>() -> (r: XyY<T>)
        ensures
            r == (XyY { x: T::from_ratio_spec(9513, 25000), y: T::from_ratio_spec(37713, 100000), Y: T::one_spec() }),
    {
        XyY { x: T::from_ratio(9513, 25000), y: T::from_ratio(37713, 100000), Y: T::one() }
    }
}

/// Philips TL83, Ultralume 30.
#[derive(Clone, Debug, PartialEq)]
pub struct F12;

impl F12 {
    /// The XYZ tristimulus value of this white point.
    pub fn get_xyz<T: FreeChannelScalar>() -> (r: Xyz<T>)
        ensures
            r == (Xyz { x: T::from_ratio_spec(1080463, 1000000), y: T::one_spec(), z: T::from_ratio_spec(15691, 40000) }),
    {
        Xyz::from_channels(T::from_ratio(1080463, 1000000), T::one(), T::from_ratio(15691, 40000))
    }

    /// The xy chromaticity of this white point, with unit luminance.
    pub fn get_xy_chromaticity<T: FreeChannelScalar + PosNormalChannelScalar>() -> (r: XyY<T>)
        ensures
            r == (XyY { x: T::from_ratio_spec(8739, 20000), y: T::from_ratio_spec(40441, 100000), Y: T::one_spec() }),
    {
        XyY { x: T::from_ratio(8739, 20000), y: T::from_ratio(40441, 100000), Y: T::one() }
    }
}

} // verus!
