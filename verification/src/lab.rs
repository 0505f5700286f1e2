//! The CIE L*a*b* color space: a perceptually uniform space reached from XYZ
//! by a white-point-parameterized piecewise nonlinear transform.

use vstd::prelude::*;
use crate::channel::{ChannelFormatCast, FreeChannelScalar};
use crate::color::{Bounded, Lerp};
use crate::xyz::Xyz;

verus! {

/// A unit struct for identifying and constraining Lab colors in generic code.
pub struct LabTag;

/// A CIE L*a*b* color: one lightness channel and two free chromaticity
/// channels.
#[derive(Clone, Copy, Debug, PartialEq)]
pub struct Lab<T> {
    pub L: T,
    pub a: T,
    pub b: T,
}

/// The CIE-standard threshold of the piecewise forward transform,
/// `epsilon = 0.008856451679035631 = (6/29)^3`. The constant is exact and
/// must not be approximated.
pub open spec fn lab_epsilon_spec<T: FreeChannelScalar>() -> T {
    T::from_ratio_spec(8856451679035631, 1000000000000000000)
}

/// The CIE-standard slope of the linear branch,
/// `kappa = 903.2962962963 = (29/3)^3`. The constant is exact and must not
/// be approximated.
pub open spec fn lab_kappa_spec<T: FreeChannelScalar>() -> T {
    T::from_ratio_spec(9032962962963, 10000000000)
}

/// The forward mapping `f`: the cube root above the `epsilon` threshold and
/// the linear ramp `(kappa * t + 16) / 116` at or below it.
pub open spec fn lab_f_spec<T: FreeChannelScalar>(channel: T) -> T {
    if lab_epsilon_spec::<T>().r_lt_spec(channel) {
        channel.r_cbrt_spec()
    } else {
        lab_kappa_spec::<T>().r_mul_spec(channel).r_add_spec(T::from_ratio_spec(16, 1)).r_div_spec(
            T::from_ratio_spec(116, 1),
        )
    }
}

/// The inverse mapping for the X and Z channels: `f^3` where that exceeds
/// `epsilon`, and the inverted linear ramp `(116 * f - 16) / kappa`
/// otherwise.
pub open spec fn lab_calc_xz_spec<T: FreeChannelScalar>(f: T) -> T {
    let f3 = f.r_mul_spec(f).r_mul_spec(f);
    if lab_epsilon_spec::<T>().r_lt_spec(f3) {
        f3
    } else {
        T::from_ratio_spec(116, 1).r_mul_spec(f).r_sub_spec(T::from_ratio_spec(16, 1)).r_div_spec(
            lab_kappa_spec::<T>(),
        )
    }
}

/// The inverse mapping for the Y channel, branching on `L` against
/// `kappa * epsilon`: `((L + 16) / 116)^3` above it and `L / kappa` at or
/// below it.
pub open spec fn lab_calc_y_spec<T: FreeChannelScalar>(L: T) -> T {
    if lab_kappa_spec::<T>().r_mul_spec(lab_epsilon_spec::<T>()).r_lt_spec(L) {
        let num = L.r_add_spec(T::from_ratio_spec(16, 1)).r_div_spec(T::from_ratio_spec(116, 1));
        num.r_mul_spec(num).r_mul_spec(num)
    } else {
        L.r_div_spec(lab_kappa_spec::<T>())
    }
}

/// The forward transform: each XYZ channel is divided by the white point's,
/// passed through `f`, and the Lab channels are the documented linear
/// combinations `L = 116 fy - 16`, `a = 500 (fx - fy)`, `b = 200 (fy - fz)`.
pub open spec fn lab_from_xyz_spec<T: FreeChannelScalar>(from: Xyz<T>, wp: Xyz<T>) -> Lab<T> {
    let fx = lab_f_spec(from.x_spec().r_div_spec(wp.x_spec()));
    let fy = lab_f_spec(from.y_spec().r_div_spec(wp.y_spec()));
    let fz = lab_f_spec(from.z_spec().r_div_spec(wp.z_spec()));
    Lab {
        L: T::from_ratio_spec(116, 1).r_mul_spec(fy).r_sub_spec(T::from_ratio_spec(16, 1)),
        a: T::from_ratio_spec(500, 1).r_mul_spec(fx.r_sub_spec(fy)),
        b: T::from_ratio_spec(200, 1).r_mul_spec(fy.r_sub_spec(fz)),
    }
}

/// The inverse transform: the `f` values are recovered from the Lab
/// channels, piecewise-inverted, and scaled by the same white point.
pub open spec fn lab_to_xyz_spec<T: FreeChannelScalar>(color: Lab<T>, wp: Xyz<T>) -> Xyz<T> {
    let fy = color.L.r_add_spec(T::from_ratio_spec(16, 1)).r_div_spec(T::from_ratio_spec(116, 1));
    let fx = color.a.r_div_spec(T::from_ratio_spec(500, 1)).r_add_spec(fy);
    let fz = fy.r_sub_spec(color.b.r_div_spec(T::from_ratio_spec(200, 1)));
    Xyz {
        x: lab_calc_xz_spec(fx).r_mul_spec(wp.x_spec()),
        y: lab_calc_y_spec(color.L).r_mul_spec(wp.y_spec()),
        z: lab_calc_xz_spec(fz).r_mul_spec(wp.z_spec()),
    }
}

impl<T> Lab<T> where T: FreeChannelScalar {
    pub open spec fn L_spec(self) -> T {
        self.L
    }

    pub open spec fn a_spec(self) -> T {
        self.a
    }

    pub open spec fn b_spec(self) -> T {
        self.b
    }

    /// Construct a `Lab` from channel values.
    pub fn from_channels(L: T, a: T, b: T) -> (r: Self)
        ensures
            r == (Lab { L, a, b }),
    {
        Lab { L, a, b }
    }

    /// Cast between channel scalar representations.
    pub fn color_cast<TOut>(&self) -> (r: Lab<TOut>) where
        T: ChannelFormatCast<TOut>,
        TOut: FreeChannelScalar,

        ensures
            r == (Lab {
                L: self.L_spec().cast_spec(),
                a: self.a_spec().cast_spec(),
                b: self.b_spec().cast_spec(),
            }),
    {
        Lab { L: self.L.cast(), a: self.a.cast(), b: self.b.cast() }
    }

    /// Get the lightness (L*) channel.
    pub fn L(&self) -> (r: T)
        ensures
            r == self.L_spec(),
    {
        self.L
    }

    /// Get the a* channel.
    pub fn a(&self) -> (r: T)
        ensures
            r == self.a_spec(),
    {
        self.a
    }

    /// Get the b* channel.
    pub fn b(&self) -> (r: T)
        ensures
            r == self.b_spec(),
    {
        self.b
    }

    /// Get a mutable reference to the lightness (L*) channel.
    pub fn L_mut(&mut self) -> (r: &mut T)
        ensures
            *r == old(self).L_spec(),
            *final(self) == (Lab { L: *final(r), ..*old(self) }),
    {
        &mut self.L
    }

    /// Get a mutable reference to the a* channel.
    pub fn a_mut(&mut self) -> (r: &mut T)
        ensures
            *r == old(self).a_spec(),
            *final(self) == (Lab { a: *final(r), ..*old(self) }),
    {
        &mut self.a
    }

    /// Get a mutable reference to the b* channel.
    pub fn b_mut(&mut self) -> (r: &mut T)
        ensures
            *r == old(self).b_spec(),
            *final(self) == (Lab { b: *final(r), ..*old(self) }),
    {
        &mut self.b
    }

    /// Set the lightness (L*) channel to a value.
    pub fn set_L(&mut self, val: T)
        ensures
            *final(self) == (Lab { L: val, ..*old(self) }),
    {
        self.L = val;
    }

    /// Set the a* channel to a value.
    pub fn set_a(&mut self, val: T)
        ensures
            *final(self) == (Lab { a: val, ..*old(self) }),
    {
        self.a = val;
    }

    /// Set the b* channel to a value.
    pub fn set_b(&mut self, val: T)
        ensures
            *final(self) == (Lab { b: val, ..*old(self) }),
    {
        self.b = val;
    }

    pub fn num_channels() -> (n: u32)
        ensures
            n == 3,
    {
        3
    }

    /// Decompose the color into its ordered channel tuple.
    pub fn to_tuple(self) -> (r: (T, T, T))
        ensures
            r == (self.L_spec(), self.a_spec(), self.b_spec()),
    {
        (self.L, self.a, self.b)
    }

    /// Construct a `Lab` from an ordered channel tuple.
    pub fn from_tuple(values: (T, T, T)) -> (r: Self)
        ensures
            r == (Lab { L: values.0, a: values.1, b: values.2 }),
    {
        Lab { L: values.0, a: values.1, b: values.2 }
    }

    /// The channels as a contiguous sequence, in declared order.
    pub fn as_slice(&self) -> (r: Vec<T>)
        ensures
            r@ == seq![self.L_spec(), self.a_spec(), self.b_spec()],
    {
        let mut v: Vec<T> = Vec::new();
        v.push(self.L);
        v.push(self.a);
        v.push(self.b);
        proof {
            assert(v@ =~= seq![self.L_spec(), self.a_spec(), self.b_spec()]);
        }
        v
    }

    /// Construct a `Lab` from the first three values of a slice.
    ///
    /// A slice shorter than the channel count is a fatal precondition
    /// violation, not a recoverable result.
    pub fn from_slice(vals: &[T]) -> (r: Self)
        requires
            vals@.len() >= 3,
        ensures
            r == (Lab { L: vals@[0], a: vals@[1], b: vals@[2] }),
    {
        Lab { L: vals[0], a: vals[1], b: vals[2] }
    }

    /// Convert from XYZ under the reference white point `wp`.
    pub fn from_xyz(from: &Xyz<T>, wp: &Xyz<T>) -> (r: Lab<T>)
        ensures
            r == lab_from_xyz_spec(*from, *wp),
    {
        let x = from.x().r_div(wp.x());
        let y = from.y().r_div(wp.y());
        let z = from.z().r_div(wp.z());
        let c116 = T::from_ratio(116, 1);
        let c16 = T::from_ratio(16, 1);
        let fx = Self::lab_f(x);
        let fy = Self::lab_f(y);
        let fz = Self::lab_f(z);
        let big_l = c116.r_mul(fy).r_sub(c16);
        let a = T::from_ratio(500, 1).r_mul(fx.r_sub(fy));
        let b = T::from_ratio(200, 1).r_mul(fy.r_sub(fz));
        Lab::from_channels(big_l, a, b)
    }

    /// Convert to XYZ under the reference white point `wp`.
    pub fn to_xyz(&self, wp: &Xyz<T>) -> (r: Xyz<T>)
        ensures
            r == lab_to_xyz_spec(*self, *wp),
    {
        let fy = Self::inv_f_y(self.L());
        let fx = Self::inv_f_x(self.a(), fy);
        let fz = Self::inv_f_z(self.b(), fy);
        let x = Self::calc_xz(fx).r_mul(wp.x());
        let y = Self::calc_y(self.L()).r_mul(wp.y());
        let z = Self::calc_xz(fz).r_mul(wp.z());
        Xyz::from_channels(x, y, z)
    }

    fn lab_f(channel: T) -> (r: T)
        ensures
            r == lab_f_spec(channel),
    {
        if Self::epsilon().r_lt(channel) {
            channel.r_cbrt()
        } else {
            Self::kappa().r_mul(channel).r_add(T::from_ratio(16, 1)).r_div(T::from_ratio(116, 1))
        }
    }

    fn calc_xz(f: T) -> (r: T)
        ensures
            r == lab_calc_xz_spec(f),
    {
        let f3 = f.r_mul(f).r_mul(f);
        if Self::epsilon().r_lt(f3) {
            f3
        } else {
            T::from_ratio(116, 1).r_mul(f).r_sub(T::from_ratio(16, 1)).r_div(Self::kappa())
        }
    }

    fn calc_y(big_l: T) -> (r: T)
        ensures
            r == lab_calc_y_spec(big_l),
    {
        if Self::kappa().r_mul(Self::epsilon()).r_lt(big_l) {
            let num = big_l.r_add(T::from_ratio(16, 1)).r_div(T::from_ratio(116, 1));
            num.r_mul(num).r_mul(num)
        } else {
            big_l.r_div(Self::kappa())
        }
    }

    fn inv_f_x(a: T, fy: T) -> (r: T)
        ensures
            r == a.r_div_spec(T::from_ratio_spec(500, 1)).r_add_spec(fy),
    {
        a.r_div(T::from_ratio(500, 1)).r_add(fy)
    }

    fn inv_f_y(big_l: T) -> (r: T)
        ensures
            r == big_l.r_add_spec(T::from_ratio_spec(16, 1)).r_div_spec(
                T::from_ratio_spec(116, 1),
            ),
    {
        big_l.r_add(T::from_ratio(16, 1)).r_div(T::from_ratio(116, 1))
    }

    fn inv_f_z(b: T, fy: T) -> (r: T)
        ensures
            r == fy.r_sub_spec(b.r_div_spec(T::from_ratio_spec(200, 1))),
    {
        fy.r_sub(b.r_div(T::from_ratio(200, 1)))
    }

    /// The threshold constant of the piecewise transform.
    pub fn epsilon() -> (r: T)
        ensures
            r == lab_epsilon_spec::<T>(),
    {
        T::from_ratio(8856451679035631, 1000000000000000000)
    }

    /// The slope constant of the linear branch.
    pub fn kappa() -> (r: T)
        ensures
            r == lab_kappa_spec::<T>(),
    {
        T::from_ratio(9032962962963, 10000000000)
    }
}

impl<T: FreeChannelScalar> Bounded for Lab<T> {
    open spec fn normalize_spec(self) -> Self {
        self
    }

    open spec fn is_normalized_spec(self) -> bool {
        true
    }

    fn normalize(self) -> Self {
        self
    }

    fn is_normalized(&self) -> bool {
        true
    }

    proof fn normalize_idempotent(self) {
    }
}

impl<T, P> Lerp<P> for Lab<T> where T: FreeChannelScalar + Lerp<P>, P: Copy {
    open spec fn lerp_spec(self, right: Self, pos: P) -> Self {
        Lab {
            L: self.L.lerp_spec(right.L, pos),
            a: self.a.lerp_spec(right.a, pos),
            b: self.b.lerp_spec(right.b, pos),
        }
    }

    fn lerp(&self, right: &Self, pos: P) -> Self {
        Lab {
            L: self.L.lerp(&right.L, pos),
            a: self.a.lerp(&right.a, pos),
            b: self.b.lerp(&right.b, pos),
        }
    }
}

} // verus!
