//! The CIE xyY color space: two chromaticity ratios plus a luminance channel.
//!
//! The chromaticity channels carry a shared invariant: both are nonnegative
//! and their sum lies in `[0, 1]`. Violating it at construction is a fatal
//! precondition violation, and the channel setters preserve it by rescaling
//! the two non-target chromaticities proportionally.

use vstd::prelude::*;
use crate::channel::{ChannelFormatCast, FreeChannelScalar, PosNormalChannelScalar};
use crate::color::{Bounded, Lerp};
use crate::xyz::Xyz;

verus! {

/// A unit struct for identifying and constraining xyY colors in generic code.
pub struct XyYTag;

/// A CIE xyY color: the chromaticity ratios `x` and `y` plus the luminance
/// `Y`.
#[derive(Clone, Copy, Debug, PartialEq)]
pub struct XyY<T> {
    pub x: T,
    pub y: T,
    pub Y: T,
}

/// The construction invariant of the chromaticity channels: both are
/// nonnegative and their sum lies between zero and one.
pub open spec fn chromaticity_ok_spec<T: FreeChannelScalar>(x: T, y: T) -> bool {
    let zero = T::zero_spec();
    let sum = x.r_add_spec(y);
    &&& !T::one_spec().r_lt_spec(sum)
    &&& !sum.r_lt_spec(zero)
    &&& zero.r_le_spec(x)
    &&& zero.r_le_spec(y)
}

/// A chromaticity value a setter accepts: within the bounded-positive range
/// `[pos_min, pos_max]`.
pub open spec fn chromaticity_in_range_spec<T: FreeChannelScalar + PosNormalChannelScalar>(
    val: T,
) -> bool {
    &&& !T::pos_max_spec().r_lt_spec(val)
    &&& !val.r_lt_spec(T::pos_min_spec())
}

/// The proportional rescaling a setter applies: the remainder `1 - primary`
/// is split over the other two channels in proportion to their old values,
/// or evenly when both were zero.
pub open spec fn rescale_channels_spec<T: FreeChannelScalar>(primary: T, c2: T, c3: T) -> (
    T,
    T,
    T,
) {
    let rem_scale = c2.r_add_spec(c3);
    let rem = T::one_spec().r_sub_spec(primary);
    if T::zero_spec().r_lt_spec(rem_scale) {
        (
            primary,
            c2.r_div_spec(rem_scale).r_mul_spec(rem),
            c3.r_div_spec(rem_scale).r_mul_spec(rem),
        )
    } else {
        (
            primary,
            rem.r_mul_spec(T::from_ratio_spec(1, 2)),
            rem.r_mul_spec(T::from_ratio_spec(1, 2)),
        )
    }
}

/// The conversion an XYZ color admits into xyY: its channels are
/// nonnegative, and where their sum is nonzero the derived chromaticities
/// satisfy the construction invariant.
pub open spec fn xyy_from_xyz_ok_spec<T: FreeChannelScalar + PosNormalChannelScalar>(
    from: Xyz<T>,
) -> bool {
    let zero = T::zero_spec();
    let sum = from.x_spec().r_add_spec(from.y_spec()).r_add_spec(from.z_spec());
    &&& !from.x_spec().r_lt_spec(zero)
    &&& !from.y_spec().r_lt_spec(zero)
    &&& !from.z_spec().r_lt_spec(zero)
    &&& (!sum.r_eq_spec(zero) ==> chromaticity_ok_spec(
        from.x_spec().r_div_spec(sum),
        from.y_spec().r_div_spec(sum),
    ))
}

/// The xyY color an XYZ color converts to: each chromaticity is its channel's
/// share of the channel sum, and the luminance is the Y channel; a black
/// (all-zero) input maps to the all-zero xyY.
pub open spec fn xyy_from_xyz_spec<T: FreeChannelScalar + PosNormalChannelScalar>(
    from: Xyz<T>,
) -> XyY<T> {
    let zero = T::zero_spec();
    let sum = from.x_spec().r_add_spec(from.y_spec()).r_add_spec(from.z_spec());
    if !sum.r_eq_spec(zero) {
        XyY {
            x: from.x_spec().r_div_spec(sum),
            y: from.y_spec().r_div_spec(sum),
            Y: from.y_spec(),
        }
    } else {
        XyY { x: zero, y: zero, Y: zero }
    }
}

/// The XYZ color an xyY color converts to: `X = (Y/y) x`, `Z = (Y/y) z`,
/// with the luminance carried over; a zero `y` chromaticity maps to black.
pub open spec fn xyz_from_xyy_spec<T: FreeChannelScalar + PosNormalChannelScalar>(
    from: XyY<T>,
) -> Xyz<T> {
    let zero = T::zero_spec();
    if from.y_chroma_spec().r_eq_spec(zero) {
        Xyz { x: zero, y: zero, z: zero }
    } else {
        let scale = from.luminance_spec().r_div_spec(from.y_chroma_spec());
        Xyz {
            x: scale.r_mul_spec(from.x_chroma_spec()),
            y: from.luminance_spec(),
            z: scale.r_mul_spec(from.z_chroma_spec()),
        }
    }
}

impl<T> XyY<T> where T: FreeChannelScalar + PosNormalChannelScalar {
    pub open spec fn x_chroma_spec(self) -> T {
        self.x
    }

    pub open spec fn y_chroma_spec(self) -> T {
        self.y
    }

    /// The derived third chromaticity: `z = 1 - x - y`.
    pub open spec fn z_chroma_spec(self) -> T {
        T::one_spec().r_sub_spec(self.x).r_sub_spec(self.y)
    }

    pub open spec fn luminance_spec(self) -> T {
        self.Y
    }

    /// Construct an `XyY` from channel values.
    ///
    /// Chromaticities that violate the construction invariant are a
    /// precondition violation: a fatal error, not a recoverable
    /// result.
    pub fn from_channels(x: T, y: T, Y: T) -> (r: Self)
        requires
            chromaticity_ok_spec(x, y),
        ensures
            r == (XyY { x, y, Y }),
    {
        XyY { x, y, Y }
    }

    /// Cast between channel scalar representations.
    pub fn color_cast<TOut>(&self) -> (r: XyY<TOut>) where
        T: ChannelFormatCast<TOut>,
        TOut: FreeChannelScalar + PosNormalChannelScalar,

        ensures
            r == (XyY {
                x: self.x_chroma_spec().cast_spec(),
                y: self.y_chroma_spec().cast_spec(),
                Y: self.luminance_spec().cast_spec(),
            }),
    {
        XyY { x: self.x.cast(), y: self.y.cast(), Y: self.Y.cast() }
    }

    /// Get the `x` chromaticity channel.
    pub fn x(&self) -> (r: T)
        ensures
            r == self.x_chroma_spec(),
    {
        self.x
    }

    /// Get the `y` chromaticity channel.
    pub fn y(&self) -> (r: T)
        ensures
            r == self.y_chroma_spec(),
    {
        self.y
    }

    /// Get the derived `z` chromaticity: `1 - x - y`.
    pub fn z(&self) -> (r: T)
        ensures
            r == self.z_chroma_spec(),
    {
        T::one().r_sub(self.x).r_sub(self.y)
    }

    /// Get the luminance (Y) channel.
    pub fn Y(&self) -> (r: T)
        ensures
            r == self.luminance_spec(),
    {
        self.Y
    }

    /// Get a mutable reference to the luminance (Y) channel.
    pub fn Y_mut(&mut self) -> (r: &mut T)
        ensures
            *r == old(self).luminance_spec(),
            *final(self) == (XyY { Y: *final(r), ..*old(self) }),
    {
        &mut self.Y
    }

    /// Set the `x` chromaticity to a value, rescaling `y` and `z`
    /// proportionally so the shared invariant is preserved.
    ///
    /// A value outside `[0, 1]` is a precondition violation: a fatal
    /// error, not a recoverable result.
    pub fn set_x(&mut self, val: T)
        requires
            chromaticity_in_range_spec(val),
        ensures
            ({
                let rescaled = rescale_channels_spec(
                    val,
                    old(self).y_chroma_spec(),
                    old(self).z_chroma_spec(),
                );
                *final(self) == (XyY {
                    x: rescaled.0,
                    y: rescaled.1,
                    Y: old(self).luminance_spec(),
                })
            }),
    {
        let z = self.z();
        let (x, y, _) = Self::rescale_channels(val, self.y, z);
        self.x = x;
        self.y = y;
    }

    /// Set the `y` chromaticity to a value, rescaling `x` and `z`
    /// proportionally so the shared invariant is preserved.
    ///
    /// A value outside `[0, 1]` is a precondition violation: a fatal
    /// error, not a recoverable result.
    pub fn set_y(&mut self, val: T)
        requires
            chromaticity_in_range_spec(val),
        ensures
            ({
                let rescaled = rescale_channels_spec(
                    val,
                    old(self).x_chroma_spec(),
                    old(self).z_chroma_spec(),
                );
                *final(self) == (XyY {
                    x: rescaled.1,
                    y: rescaled.0,
                    Y: old(self).luminance_spec(),
                })
            }),
    {
        let z = self.z();
        let (y, x, _) = Self::rescale_channels(val, self.x, z);
        self.x = x;
        self.y = y;
    }

    /// Set the derived `z` chromaticity to a value, rescaling `x` and `y`
    /// proportionally so the shared invariant is preserved.
    ///
    /// A value outside `[0, 1]` is a precondition violation: a fatal
    /// error, not a recoverable result.
    pub fn set_z(&mut self, val: T)
        requires
            chromaticity_in_range_spec(val),
        ensures
            ({
                let rescaled = rescale_channels_spec(
                    val,
                    old(self).x_chroma_spec(),
                    old(self).y_chroma_spec(),
                );
                *final(self) == (XyY {
                    x: rescaled.1,
                    y: rescaled.2,
                    Y: old(self).luminance_spec(),
                })
            }),
    {
        let (_, x, y) = Self::rescale_channels(val, self.x, self.y);
        self.x = x;
        self.y = y;
    }

    fn rescale_channels(primary: T, c2: T, c3: T) -> (r: (T, T, T))
        requires
            chromaticity_in_range_spec(primary),
        ensures
            r == rescale_channels_spec(primary, c2, c3),
    {
        let zero = T::zero();
        let rem_scale = c2.r_add(c3);
        let rem = T::one().r_sub(primary);
        if zero.r_lt(rem_scale) {
            (primary, c2.r_div(rem_scale).r_mul(rem), c3.r_div(rem_scale).r_mul(rem))
        } else {
            let one_half = T::from_ratio(1, 2);
            (primary, rem.r_mul(one_half), rem.r_mul(one_half))
        }
    }

    pub fn num_channels() -> (n: u32)
        ensures
            n == 3,
    {
        3
    }

    /// Decompose the color into its ordered channel tuple.
    pub fn to_tuple(self) -> (r: (T, T, T))
        ensures
            r == (self.x_chroma_spec(), self.y_chroma_spec(), self.luminance_spec()),
    {
        (self.x, self.y, self.Y)
    }

    /// Construct an `XyY` from an ordered channel tuple.
    ///
    /// Chromaticities that violate the construction invariant are a
    /// precondition violation: a fatal error, not a recoverable
    /// result.
    pub fn from_tuple(values: (T, T, T)) -> (r: Self)
        requires
            chromaticity_ok_spec(values.0, values.1),
        ensures
            r == (XyY { x: values.0, y: values.1, Y: values.2 }),
    {
        XyY::from_channels(values.0, values.1, values.2)
    }

    /// The channels as a contiguous sequence, in declared order.
    pub fn as_slice(&self) -> (r: Vec<T>)
        ensures
            r@ == seq![self.x_chroma_spec(), self.y_chroma_spec(), self.luminance_spec()],
    {
        let mut v: Vec<T> = Vec::new();
        v.push(self.x);
        v.push(self.y);
        v.push(self.Y);
        proof {
            assert(v@ =~= seq![self.x_chroma_spec(), self.y_chroma_spec(), self.luminance_spec()]);
        }
        v
    }

    /// Construct an `XyY` from the first three values of a slice.
    ///
    /// A slice shorter than the channel count, like chromaticities that
    /// violate the construction invariant, is a fatal precondition
    /// violation, not a recoverable result.
    pub fn from_slice(vals: &[T]) -> (r: Self)
        requires
            vals@.len() >= 3,
            chromaticity_ok_spec(vals@[0], vals@[1]),
        ensures
            r == (XyY { x: vals@[0], y: vals@[1], Y: vals@[2] }),
    {
        XyY::from_channels(vals[0], vals[1], vals[2])
    }

    /// Convert from XYZ.
    ///
    /// An XYZ color with a negative channel, or whose derived chromaticities
    /// would violate the construction invariant, is a fatal
    /// precondition violation, not a recoverable result.
    pub fn from_color(from: &Xyz<T>) -> (r: Self)
        requires
            xyy_from_xyz_ok_spec(*from),
        ensures
            r == xyy_from_xyz_spec(*from),
    {
        let zero = T::zero();
        let sum = from.x().r_add(from.y()).r_add(from.z());
        if !sum.r_eq(zero) {
            let x = from.x().r_div(sum);
            let y = from.y().r_div(sum);
            XyY::from_channels(x, y, from.y())
        } else {
            XyY { x: zero, y: zero, Y: zero }
        }
    }
}

impl<T> Xyz<T> where T: FreeChannelScalar + PosNormalChannelScalar {
    /// Convert from xyY.
    pub fn from_color(from: &XyY<T>) -> (r: Self)
        ensures
            r == xyz_from_xyy_spec(*from),
    {
        let zero = T::zero();
        if from.y().r_eq(zero) {
            Xyz::from_channels(zero, zero, zero)
        } else {
            let scale = from.Y().r_div(from.y());
            let x = scale.r_mul(from.x());
            let z_chroma = from.z();
            let z = scale.r_mul(z_chroma);
            Xyz::from_channels(x, from.Y(), z)
        }
    }
}

impl<T> Bounded for XyY<T> where T: FreeChannelScalar + PosNormalChannelScalar {
    open spec fn normalize_spec(self) -> Self {
        self
    }

    open spec fn is_normalized_spec(self) -> bool {
        true
    }

    fn normalize(self) -> Self {
        self
    }

    fn is_normalized(&self) -> bool {
        true
    }

    proof fn normalize_idempotent(self) {
    }
}

impl<T, P> Lerp<P> for XyY<T> where
    T: FreeChannelScalar + PosNormalChannelScalar + Lerp<P>,
    P: Copy,
 {
    open spec fn lerp_spec(self, right: Self, pos: P) -> Self {
        XyY {
            x: self.x.lerp_spec(right.x, pos),
            y: self.y.lerp_spec(right.y, pos),
            Y: self.Y.lerp_spec(right.Y, pos),
        }
    }

    fn lerp(&self, right: &Self, pos: P) -> Self {
        XyY {
            x: self.x.lerp(&right.x, pos),
            y: self.y.lerp(&right.y, pos),
            Y: self.Y.lerp(&right.Y, pos),
        }
    }
}

} // verus!
