//! Behavior of the color types over real-valued (floating point) channel
//! scalars. The wrapper types here implement the library's scalar traits the
//! way an embedding application would: directly on top of IEEE floats.

use simple_color::channel::{
    BoundedChannelScalar, ChannelFormatCast, FreeChannelScalar, NormalChannelFormatCast,
    NormalChannelScalar, PosNormalChannelScalar, RealCast,
};
use simple_color::color::{Bounded, Invert, Lerp};
use simple_color::alpha::Alpha;
use simple_color::lab::Lab;
use simple_color::linalg::Matrix3;
use simple_color::rgb::Rgb;
use simple_color::white_point::{D50, D65, D75, E};
use simple_color::xyy::XyY;
use simple_color::xyz::Xyz;
use simple_color::ycbcr::{
    build_transform, BareYCbCr, CustomYCbCrModel, JpegModel, OutOfGamutMode, StandardShift, YCbCr,
    YCbCrCustom, YCbCrJpeg, YCbCrModel, YCbCrShift, Yiq,
};

/// A real channel scalar backed by `f64`.
#[derive(Clone, Copy, Debug, PartialEq, PartialOrd)]
pub struct F64(pub f64);

/// A real channel scalar backed by `f32`.
#[derive(Clone, Copy, Debug, PartialEq, PartialOrd)]
pub struct F32(pub f32);

fn f(v: f64) -> F64 {
    F64(v)
}

fn g(v: f32) -> F32 {
    F32(v)
}

impl BoundedChannelScalar for F64 {
    fn chan_add(self, o: Self) -> Self {
        F64(self.0 + o.0)
    }
}

impl PosNormalChannelScalar for F64 {
    fn pos_min_bound() -> Self {
        F64(0.0)
    }
    fn pos_max_bound() -> Self {
        F64(1.0)
    }
    fn pos_is_normalized(&self) -> bool {
        self.0 >= 0.0 && self.0 <= 1.0
    }
    fn pos_normalize(self) -> Self {
        if self.0 > 1.0 {
            F64(1.0)
        } else if self.0 < 0.0 {
            F64(0.0)
        } else {
            self
        }
    }
    fn pos_invert(self) -> Self {
        F64((0.0 + 1.0) - self.0)
    }
    // The two law members below are proof-only: they carry no runtime
    // behavior, and clamping into [0, 1] satisfies both laws.
    fn pos_normalize_idempotent(self) {}
    fn pos_normalize_of_normalized(self) {}
}

impl NormalChannelScalar for F64 {
    fn norm_min_bound() -> Self {
        F64(-1.0)
    }
    fn norm_max_bound() -> Self {
        F64(1.0)
    }
    fn norm_is_normalized(&self) -> bool {
        self.0 >= -1.0 && self.0 <= 1.0
    }
    fn norm_normalize(self) -> Self {
        if self.0 > 1.0 {
            F64(1.0)
        } else if self.0 < -1.0 {
            F64(-1.0)
        } else {
            self
        }
    }
    fn norm_invert(self) -> Self {
        F64((-1.0 + 1.0) - self.0)
    }
    // Proof-only law members; clamping into [-1, 1] satisfies both laws.
    fn norm_normalize_idempotent(self) {}
    fn norm_normalize_of_normalized(self) {}
}

impl FreeChannelScalar for F64 {
    fn zero() -> Self {
        F64(0.0)
    }
    fn one() -> Self {
        F64(1.0)
    }
    fn from_ratio(num: i64, den: u64) -> Self {
        F64(num as f64 / den as f64)
    }
    fn r_add(self, o: Self) -> Self {
        F64(self.0 + o.0)
    }
    fn r_sub(self, o: Self) -> Self {
        F64(self.0 - o.0)
    }
    fn r_mul(self, o: Self) -> Self {
        F64(self.0 * o.0)
    }
    fn r_div(self, o: Self) -> Self {
        F64(self.0 / o.0)
    }
    fn r_cbrt(self) -> Self {
        F64(self.0.cbrt())
    }
    fn r_lt(self, o: Self) -> bool {
        self.0 < o.0
    }
    fn r_le(self, o: Self) -> bool {
        self.0 <= o.0
    }
    fn r_eq(self, o: Self) -> bool {
        self.0 == o.0
    }
}

impl Lerp<F64> for F64 {
    fn lerp(&self, right: &Self, pos: F64) -> Self {
        let inv_pos = 1.0 - pos.0;
        F64(self.0 * inv_pos + right.0 * pos.0)
    }
}

impl Lerp<F64> for u8 {
    fn lerp(&self, right: &Self, pos: F64) -> Self {
        let inv_pos = 1.0 - pos.0;
        let val: f64 = num::cast::<u8, f64>(*self).unwrap() * inv_pos
            + num::cast::<u8, f64>(*right).unwrap() * pos.0;
        num::cast(val).unwrap()
    }
}

impl RealCast<F64> for F64 {
    fn to_real(self) -> F64 {
        self
    }
    fn from_real(r: F64) -> Self {
        r
    }
}

impl RealCast<F64> for F32 {
    fn to_real(self) -> F64 {
        F64(self.0 as f64)
    }
    fn from_real(r: F64) -> Self {
        F32(r.0 as f32)
    }
}

impl RealCast<F64> for u8 {
    fn to_real(self) -> F64 {
        F64(self as f64)
    }
    fn from_real(r: F64) -> Self {
        r.0 as u8
    }
}

impl RealCast<F64> for u16 {
    fn to_real(self) -> F64 {
        F64(self as f64)
    }
    fn from_real(r: F64) -> Self {
        r.0 as u16
    }
}

impl YCbCrShift<F64> for StandardShift<F64> {
    fn get_shift() -> (F64, F64, F64) {
        (F64(0.0), F64(0.0), F64(0.0))
    }
}

impl BoundedChannelScalar for F32 {
    fn chan_add(self, o: Self) -> Self {
        F32(self.0 + o.0)
    }
}

impl PosNormalChannelScalar for F32 {
    fn pos_min_bound() -> Self {
        F32(0.0)
    }
    fn pos_max_bound() -> Self {
        F32(1.0)
    }
    fn pos_is_normalized(&self) -> bool {
        self.0 >= 0.0 && self.0 <= 1.0
    }
    fn pos_normalize(self) -> Self {
        if self.0 > 1.0 {
            F32(1.0)
        } else if self.0 < 0.0 {
            F32(0.0)
        } else {
            self
        }
    }
    fn pos_invert(self) -> Self {
        F32((0.0 + 1.0) - self.0)
    }
    // The two law members below are proof-only: they carry no runtime
    // behavior, and clamping into [0, 1] satisfies both laws.
    fn pos_normalize_idempotent(self) {}
    fn pos_normalize_of_normalized(self) {}
}

impl NormalChannelScalar for F32 {
    fn norm_min_bound() -> Self {
        F32(-1.0)
    }
    fn norm_max_bound() -> Self {
        F32(1.0)
    }
    fn norm_is_normalized(&self) -> bool {
        self.0 >= -1.0 && self.0 <= 1.0
    }
    fn norm_normalize(self) -> Self {
        if self.0 > 1.0 {
            F32(1.0)
        } else if self.0 < -1.0 {
            F32(-1.0)
        } else {
            self
        }
    }
    fn norm_invert(self) -> Self {
        F32((-1.0 + 1.0) - self.0)
    }
    // Proof-only law members; clamping into [-1, 1] satisfies both laws.
    fn norm_normalize_idempotent(self) {}
    fn norm_normalize_of_normalized(self) {}
}

impl FreeChannelScalar for F32 {
    fn zero() -> Self {
        F32(0.0)
    }
    fn one() -> Self {
        F32(1.0)
    }
    fn from_ratio(num: i64, den: u64) -> Self {
        F32(num as f32 / den as f32)
    }
    fn r_add(self, o: Self) -> Self {
        F32(self.0 + o.0)
    }
    fn r_sub(self, o: Self) -> Self {
        F32(self.0 - o.0)
    }
    fn r_mul(self, o: Self) -> Self {
        F32(self.0 * o.0)
    }
    fn r_div(self, o: Self) -> Self {
        F32(self.0 / o.0)
    }
    fn r_cbrt(self) -> Self {
        F32(self.0.cbrt())
    }
    fn r_lt(self, o: Self) -> bool {
        self.0 < o.0
    }
    fn r_le(self, o: Self) -> bool {
        self.0 <= o.0
    }
    fn r_eq(self, o: Self) -> bool {
        self.0 == o.0
    }
}

impl YCbCrShift<F32> for StandardShift<F32> {
    fn get_shift() -> (F32, F32, F32) {
        (F32(0.0), F32(0.0), F32(0.0))
    }
}

impl ChannelFormatCast<F64> for F64 {
    fn cast(self) -> F64 {
        self
    }
}

impl ChannelFormatCast<F32> for F64 {
    fn cast(self) -> F32 {
        F32(self.0 as f32)
    }
}

impl ChannelFormatCast<F64> for F32 {
    fn cast(self) -> F64 {
        F64(self.0 as f64)
    }
}

impl ChannelFormatCast<F32> for F32 {
    fn cast(self) -> F32 {
        self
    }
}

impl ChannelFormatCast<F32> for u8 {
    fn cast(self) -> F32 {
        F32(self as f32 / 255.0)
    }
}

impl ChannelFormatCast<u8> for F32 {
    fn cast(self) -> u8 {
        // Multiplying by just under 256 gives the top integer a full-width
        // bucket, so values very close to 1.0 still reach it.
        (self.0 * 255.99).floor() as u8
    }
}

impl NormalChannelFormatCast<F64> for F64 {
    fn norm_cast(self) -> F64 {
        self
    }
}

impl NormalChannelFormatCast<F32> for F64 {
    fn norm_cast(self) -> F32 {
        F32(self.0 as f32)
    }
}

impl NormalChannelFormatCast<F64> for F32 {
    fn norm_cast(self) -> F64 {
        F64(self.0 as f64)
    }
}

impl NormalChannelFormatCast<F32> for F32 {
    fn norm_cast(self) -> F32 {
        self
    }
}

impl NormalChannelFormatCast<F32> for u8 {
    fn norm_cast(self) -> F32 {
        // The integer range stands for [-1, 1]: rescale after dividing out.
        F32(self as f32 / 255.0 * 2.0 - 1.0)
    }
}

impl NormalChannelFormatCast<u8> for F32 {
    fn norm_cast(self) -> u8 {
        // Recentre [-1, 1] onto [0, 1] before the biased widening.
        ((self.0 + 1.0) / 2.0 * 255.99).floor() as u8
    }
}

/// Relative-or-absolute closeness of two floats.
fn releq(a: f64, b: f64, eps: f64) -> bool {
    let d = (a - b).abs();
    d <= eps || d <= eps * a.abs().max(b.abs())
}

fn releq32(a: f32, b: f32, eps: f32) -> bool {
    let d = (a - b).abs();
    d <= eps || d <= eps * a.abs().max(b.abs())
}

const TIGHT: f64 = 1e-12;

fn xyy_eq(a: &XyY<F64>, b: &XyY<F64>, eps: f64) -> bool {
    releq(a.x().0, b.x().0, eps) && releq(a.y().0, b.y().0, eps) && releq(a.Y().0, b.Y().0, eps)
}

fn xyz_eq(a: &Xyz<F64>, b: &Xyz<F64>, eps: f64) -> bool {
    releq(a.x().0, b.x().0, eps) && releq(a.y().0, b.y().0, eps) && releq(a.z().0, b.z().0, eps)
}

fn lab_eq(a: &Lab<F64>, b: &Lab<F64>, eps: f64) -> bool {
    releq(a.L().0, b.L().0, eps) && releq(a.a().0, b.a().0, eps) && releq(a.b().0, b.b().0, eps)
}

fn jpeg_eq(a: &YCbCrJpeg<F64>, b: &YCbCrJpeg<F64>, eps: f64) -> bool {
    releq(a.luma().0, b.luma().0, eps) && releq(a.cb().0, b.cb().0, eps)
        && releq(a.cr().0, b.cr().0, eps)
}

fn yiq_eq(a: &Yiq<F64>, b: &Yiq<F64>, eps: f64) -> bool {
    releq(a.luma().0, b.luma().0, eps) && releq(a.cb().0, b.cb().0, eps)
        && releq(a.cr().0, b.cr().0, eps)
}

fn rgb_eq(a: &Rgb<F64>, b: &Rgb<F64>, eps: f64) -> bool {
    releq(a.red().0, b.red().0, eps) && releq(a.green().0, b.green().0, eps)
        && releq(a.blue().0, b.blue().0, eps)
}

#[test]
fn xyy_test_construct() {
    let c1 = XyY::from_channels(f(0.5), f(0.3), f(0.8));
    assert_eq!(c1.x(), f(0.5));
    assert_eq!(c1.y(), f(0.3));
    assert_eq!(c1.z(), f(0.2));
    assert_eq!(c1.Y(), f(0.8));
    assert_eq!(c1.to_tuple(), (f(0.5), f(0.3), f(0.8)));
    assert_eq!(XyY::from_tuple(c1.clone().to_tuple()), c1);

    let c2 = XyY::from_channels(f(0.0), f(0.0), f(1.1));
    assert_eq!(c2.x(), f(0.0));
    assert_eq!(c2.y(), f(0.0));
    assert_eq!(c2.z(), f(1.0));
    assert_eq!(c2.Y(), f(1.1));
    assert_eq!(c2.to_tuple(), (f(0.0), f(0.0), f(1.1)));
    assert_eq!(XyY::from_tuple(c2.clone().to_tuple()), c2);

    let c3 = XyY::from_tuple((f(0.4), f(0.1), f(0.0)));
    assert_eq!(c3.x(), f(0.4));
    assert_eq!(c3.y(), f(0.1));
    assert_eq!(c3.z(), f(0.5));
    assert_eq!(c3.Y(), f(0.0));
    assert_eq!(c3.to_tuple(), (f(0.4), f(0.1), f(0.0)));
    assert_eq!(XyY::from_tuple(c3.clone().to_tuple()), c3);
}

#[test]
fn test_set_channels() {
    let mut c1 = XyY::from_channels(f(0.4), f(0.3), f(0.4));
    c1.set_x(f(0.6));
    assert!(releq(c1.x().0, 0.6, TIGHT));
    assert!(releq(c1.y().0, 0.20, TIGHT));
    assert!(releq(c1.z().0, 0.20, TIGHT));
    assert!(releq(c1.Y().0, 0.4, TIGHT));
    c1.set_z(f(0.5));
    assert!(xyy_eq(&c1, &XyY::from_channels(f(0.375), f(0.125), f(0.4)), 1e-6));

    let mut c2 = XyY::from_channels(f(0.3), f(0.3), f(1.0));
    c2.set_y(f(0.8));
    assert!(releq(c2.x().0, 0.2 * (3.0 / 7.0), TIGHT));
    assert!(releq(c2.y().0, 0.8, TIGHT));
    assert!(releq(c2.z().0, 0.2 * (4.0 / 7.0), TIGHT));
    assert!(releq(c2.Y().0, 1.0, TIGHT));
    c2.set_z(f(1.0));
    assert!(releq(c2.x().0, 0.0, TIGHT));
    assert!(releq(c2.y().0, 0.0, TIGHT));
    assert!(releq(c2.z().0, 1.0, TIGHT));
    c2.set_x(f(1.0));
    assert!(releq(c2.x().0, 1.0, TIGHT));
    assert!(releq(c2.y().0, 0.0, TIGHT));
    assert!(releq(c2.z().0, 0.0, TIGHT));
    assert!(releq(c2.Y().0, 1.0, TIGHT));
}

#[test]
fn xyy_test_flatten() {
    let c1 = XyY::from_channels(f(0.5), f(0.3), f(0.8));
    assert_eq!(c1.as_slice(), vec![f(0.5), f(0.3), f(0.8)]);
    assert!(xyy_eq(&XyY::from_slice(&c1.as_slice()), &c1, TIGHT));
}

#[test]
fn xyy_test_normalize() {
    let c1 = XyY::from_channels(f(0.3), f(0.5), f(1.5));
    assert!(c1.is_normalized());
    assert_eq!(c1.normalize(), c1);

    let c2 = XyY::from_channels(f(0.0), f(0.0), f(0.0));
    assert!(c2.is_normalized());
    assert_eq!(c2.normalize(), c2);
}

#[test]
fn xyy_test_lerp() {
    let c1 = XyY::from_channels(f(0.3), f(0.1), f(0.6));
    let c2 = XyY::from_channels(f(0.8), f(0.2), f(0.6));
    assert!(xyy_eq(&c1.lerp(&c2, f(0.00)), &c1, TIGHT));
    assert!(xyy_eq(&c1.lerp(&c2, f(1.00)), &c2, TIGHT));
    assert!(xyy_eq(&c1.lerp(&c2, f(0.50)), &XyY::from_channels(f(0.55), f(0.15), f(0.6)), TIGHT));
}

#[test]
fn xyy_test_from_xyz() {
    let c1 = Xyz::from_channels(f(0.3), f(0.2), f(0.5));
    let t1 = XyY::from_color(&c1);
    assert!(xyy_eq(&t1, &XyY::from_channels(f(0.3), f(0.2), f(0.2)), 1e-6));
    assert!(xyz_eq(&Xyz::from_color(&t1), &c1, 1e-6));

    let c2 = Xyz::from_channels(f(0.8), f(0.1), f(0.5));
    let t2 = XyY::from_color(&c2);
    assert!(xyy_eq(&t2, &XyY::from_channels(f(0.571429), f(0.071429), f(0.1)), 1e-6));
    assert!(xyz_eq(&Xyz::from_color(&t2), &c2, 1e-6));

    let c3 = Xyz::from_channels(f(0.0), f(0.0), f(0.0));
    let t3 = XyY::from_color(&c3);
    assert!(xyy_eq(&t3, &XyY::from_channels(f(0.0), f(0.0), f(0.0)), 1e-6));
    assert!(xyz_eq(&Xyz::from_color(&t3), &c3, 1e-6));

    let c4 = Xyz::from_channels(f(0.5), f(0.5), f(0.5));
    let t4 = XyY::from_color(&c4);
    assert!(xyy_eq(&t4, &XyY::from_channels(f(1.0 / 3.0), f(1.0 / 3.0), f(0.5)), 1e-6));
    assert!(xyz_eq(&Xyz::from_color(&t4), &c4, 1e-6));

    let c5 = Xyz::from_channels(f(1.2), f(0.3), f(0.8));
    let t5 = XyY::from_color(&c5);
    assert!(xyy_eq(&t5, &XyY::from_channels(f(0.521739), f(0.130435), f(0.3000)), 1e-6));
    assert!(xyz_eq(&Xyz::from_color(&t5), &c5, 1e-6));
}

#[test]
fn xyy_test_to_xyz() {
    let c1 = XyY::from_channels(f(0.5), f(0.2), f(0.5));
    let t1 = Xyz::from_color(&c1);
    assert!(xyz_eq(&t1, &Xyz::from_channels(f(1.25), f(0.5), f(0.75)), 1e-6));
    assert!(xyy_eq(&XyY::from_color(&t1), &c1, 1e-6));

    let c2 = XyY::from_channels(f(1.0 / 3.0), f(1.0 / 3.0), f(1.0));
    let t2 = Xyz::from_color(&c2);
    assert!(xyz_eq(&t2, &Xyz::from_channels(f(1.0), f(1.0), f(1.0)), 1e-6));
    assert!(xyy_eq(&XyY::from_color(&t2), &c2, 1e-6));

    let c3 = XyY::from_channels(f(0.3), f(0.5), f(0.3));
    let t3 = Xyz::from_color(&c3);
    assert!(xyz_eq(&t3, &Xyz::from_channels(f(0.18), f(0.3), f(0.12)), 1e-6));
    assert!(xyy_eq(&XyY::from_color(&t3), &c3, 1e-6));

    let c4 = XyY::from_channels(f(0.285), f(0.4194), f(0.583));
    let t4 = Xyz::from_color(&c4);
    assert!(xyz_eq(&t4, &Xyz::from_channels(f(0.396173), f(0.5830), f(0.410908)), 1e-6));
    assert!(xyy_eq(&XyY::from_color(&t4), &c4, 1e-6));
}

#[test]
fn xyy_test_color_cast() {
    let c1 = XyY::from_channels(f(0.5), f(0.2), f(1.0));
    let id: XyY<F64> = c1.color_cast();
    assert!(xyy_eq(&id, &c1, TIGHT));
    let through_f32: XyY<F64> = c1.color_cast::<F32>().color_cast();
    assert!(xyy_eq(&through_f32, &c1, 1e-6));
    let narrowed: XyY<F32> = c1.color_cast();
    let expected = XyY::from_channels(g(0.5), g(0.2), g(1.0));
    assert!(releq32(narrowed.x().0, expected.x().0, 1e-6));
    assert!(releq32(narrowed.y().0, expected.y().0, 1e-6));
    assert!(releq32(narrowed.Y().0, expected.Y().0, 1e-6));
}

#[test]
fn lab_test_from_xyz() {
    let c1 = Xyz::from_channels(f(0.3), f(0.22), f(0.5));
    let t1 = Lab::from_xyz(&c1, &D65::get_xyz());
    assert!(lab_eq(&t1, &Lab::from_channels(f(54.0270), f(38.5919), f(-33.5640)), 1e-4));
    assert!(xyz_eq(&t1.to_xyz(&D65::get_xyz()), &c1, 1e-4));

    let c2 = Xyz::from_channels(f(0.0), f(0.0), f(0.0));
    let t2 = Lab::from_xyz(&c2, &D65::get_xyz());
    assert!(lab_eq(&t2, &Lab::from_channels(f(0.0), f(0.0), f(0.0)), 1e-4));
    assert!(xyz_eq(&t2.to_xyz(&D65::get_xyz()), &c2, 1e-4));

    let c3 = Xyz::from_channels(f(1.0), f(1.0), f(1.0));
    let t3 = Lab::from_xyz(&c3, &D65::get_xyz());
    assert!(lab_eq(&t3, &Lab::from_channels(f(100.0), f(8.5385), f(5.5939)), 1e-4));
    assert!(xyz_eq(&t3.to_xyz(&D65::get_xyz()), &c3, 1e-4));

    let c4 = Xyz::from_channels(f(0.6), f(0.8), f(0.1));
    let t4 = Lab::from_xyz(&c4, &D50::get_xyz());
    let t4_2 = Lab::from_xyz(&c4, &E::get_xyz());
    assert!(lab_eq(&t4, &Lab::from_channels(f(91.6849), f(-37.2895), f(86.6924)), 1e-4));
    assert!(xyz_eq(&t4.to_xyz(&D50::get_xyz()), &c4, 1e-4));
    assert!(t4.to_xyz(&D65::get_xyz()) != c4);
    assert!(lab_eq(&t4_2, &Lab::from_channels(f(91.6849), f(-42.4425), f(92.8319)), 1e-3));
    assert!(xyz_eq(&t4_2.to_xyz(&E::get_xyz()), &c4, 1e-4));

    let c5 = D65::get_xyz();
    let t5 = Lab::from_xyz(&c5, &D65::get_xyz());
    assert!(lab_eq(&t5, &Lab::from_channels(f(100.0), f(0.0), f(0.0)), 1e-4));
    assert!(xyz_eq(&t5.to_xyz(&D65::get_xyz()), &c5, TIGHT));
}

#[test]
fn lab_test_to_xyz() {
    let c1 = Lab::from_channels(f(50.0), f(33.0), f(-66.0));
    let t1 = c1.to_xyz(&D65::get_xyz());
    assert!(xyz_eq(&t1, &Xyz::from_channels(f(0.243326), f(0.184187), f(0.791023)), 1e-4));
    assert!(lab_eq(&Lab::from_xyz(&t1, &D65::get_xyz()), &c1, 1e-4));

    let c2 = Lab::from_channels(f(65.0), f(47.5), f(11.1));
    let t2 = c2.to_xyz(&D50::get_xyz());
    assert!(xyz_eq(&t2, &Xyz::from_channels(f(0.4811337), f(0.340472), f(0.219151)), 1e-3));
    assert!(lab_eq(&Lab::from_xyz(&t2, &D50::get_xyz()), &c2, 1e-3));

    let c3 = Lab::from_channels(f(100.0), f(-100.0), f(-100.0));
    let t3 = c3.to_xyz(&D75::get_xyz());
    assert!(xyz_eq(&t3, &Xyz::from_channels(f(0.486257), f(1.00), f(4.139032)), 1e-4));
    assert!(lab_eq(&Lab::from_xyz(&t3, &D75::get_xyz()), &c3, 1e-4));
}

#[test]
fn lab_structural_operations() {
    let mut c = Lab::from_channels(f(30.0), f(10.0), f(-5.0));
    assert_eq!(c.L(), f(30.0));
    assert_eq!(c.a(), f(10.0));
    assert_eq!(c.b(), f(-5.0));
    assert_eq!(c.to_tuple(), (f(30.0), f(10.0), f(-5.0)));
    assert_eq!(Lab::from_tuple(c.to_tuple()), c);
    assert_eq!(c.as_slice(), vec![f(30.0), f(10.0), f(-5.0)]);
    assert_eq!(Lab::from_slice(&c.as_slice()), c);
    assert!(c.is_normalized());
    assert_eq!(c.normalize(), c);
    c.set_L(f(31.0));
    c.set_a(f(11.0));
    c.set_b(f(-6.0));
    assert_eq!(c.to_tuple(), (f(31.0), f(11.0), f(-6.0)));
    *c.L_mut() = f(1.0);
    *c.a_mut() = f(2.0);
    *c.b_mut() = f(3.0);
    assert_eq!(c, Lab::from_channels(f(1.0), f(2.0), f(3.0)));
}

#[test]
fn test_custom_model() {
    let model: CustomYCbCrModel<F64> = CustomYCbCrModel::build_from_coefficients(f(0.299), f(0.114));
    let model_ref = &model;
    let custom_forward = YCbCrModel::<F64, F64>::forward_transform(&model_ref).as_array();
    let jpeg_forward = YCbCrModel::<F64, F64>::forward_transform(&JpegModel).as_array();
    let mut i: usize = 0;
    while i < 9 {
        assert!(releq(custom_forward[i].0, jpeg_forward[i].0, 1e-6));
        i += 1;
    }

    let c1: YCbCrCustom<F64, F64> = YCbCr::from_channels_and_model(f(0.5), f(0.2), f(0.3), &model);
    let t1 = c1.to_rgb::<F64>(OutOfGamutMode::Preserve);
    assert!(rgb_eq(&t1, &Rgb::from_channels(f(0.9206), f(0.216932), f(0.8544)), 1e-5));
    let back: YCbCrCustom<F64, F64> = YCbCr::from_rgb_and_model::<F64>(&t1, &model);
    assert!(releq(back.luma().0, c1.luma().0, 1e-5));
    assert!(releq(back.cb().0, c1.cb().0, 1e-5));
    assert!(releq(back.cr().0, c1.cr().0, 1e-5));
}

#[test]
fn build_transform_matches_jpeg_model() {
    let transform: Matrix3<F64> = build_transform(f(0.299), f(0.114));
    let jpeg: Matrix3<F64> = YCbCrModel::<F64, F64>::forward_transform(&JpegModel);
    let built = transform.as_array();
    let fixed = jpeg.as_array();
    let mut i: usize = 0;
    while i < 9 {
        assert!(releq(built[i].0, fixed[i].0, 1e-6));
        i += 1;
    }
}

#[test]
fn test_yiq() {
    let c1 = Yiq::from_channels(f(0.0), f(0.0), f(0.0));
    let t1 = Rgb::try_from_color::<_, F64>(&c1).unwrap();
    assert!(rgb_eq(&t1, &Rgb::from_channels(f(0.0), f(0.0), f(0.0)), 1e-3));
    assert!(yiq_eq(&c1, &Yiq::from_rgb::<F64>(&t1), 1e-3));

    let c2 = Yiq::from_channels(f(1.0), f(0.0), f(0.0));
    let t2 = Rgb::try_from_color::<_, F64>(&c2).unwrap();
    assert!(rgb_eq(&t2, &Rgb::from_channels(f(1.0), f(1.0), f(1.0)), 1e-3));
    assert!(yiq_eq(&c2, &Yiq::from_rgb::<F64>(&t2), 1e-3));

    let c3 = Yiq::from_channels(f(0.25), f(0.5), f(0.0));
    let t3 = c3.to_rgb::<F64>(OutOfGamutMode::Preserve);
    assert!(rgb_eq(&t3, &Rgb::from_channels(f(0.5347446), f(0.1689848), f(-0.0794421)), 1e-3));
    assert!(yiq_eq(&c3, &Yiq::from_rgb::<F64>(&t3), 1e-3));
}

#[test]
fn test_canonicalize() {
    let c1 = YCbCrJpeg::from_channels(f(1.0), f(1.0), f(-1.0));
    assert_eq!(c1.to_canonical_representation(), (f(1.0), f(0.436), f(-0.615)));

    let c2 = Yiq::from_channels(f(1.0), f(1.0), f(-1.0));
    assert_eq!(c2.to_canonical_representation(), (f(1.0), f(0.5957), f(-0.5226)));
}

#[test]
fn ycbcr_test_construct() {
    let c1 = YCbCrJpeg::from_channels(f(0.75), f(0.44), f(0.21));
    assert_eq!(c1.luma(), f(0.75));
    assert_eq!(c1.cb(), f(0.44));
    assert_eq!(c1.cr(), f(0.21));
    assert_eq!(c1.to_tuple(), (f(0.75), f(0.44), f(0.21)));
    assert_eq!(YCbCrJpeg::from_tuple(c1.to_tuple()), c1);

    let c2 = YCbCrJpeg::from_channels(f(0.20), f(0.21), f(0.33));
    assert_eq!(c2.luma(), f(0.20));
    assert_eq!(c2.cb(), f(0.21));
    assert_eq!(c2.cr(), f(0.33));
    assert_eq!(c2.to_tuple(), (f(0.20), f(0.21), f(0.33)));
    assert_eq!(YCbCrJpeg::from_tuple(c2.to_tuple()), c2);
}

#[test]
fn ycbcr_test_invert() {
    let c1 = YCbCrJpeg::from_channels(f(0.33), f(0.55), f(0.88));
    assert!(jpeg_eq(&c1.invert().invert(), &c1, 1e-6));
    assert!(jpeg_eq(&c1.invert(), &YCbCrJpeg::from_channels(f(0.67), f(-0.55), f(-0.88)), 1e-6));

    let c2 = YCbCrJpeg::from_channels(f(0.2), f(-0.2), f(1.0));
    assert!(jpeg_eq(&c2.invert().invert(), &c2, 1e-6));
    assert!(jpeg_eq(&c2.invert(), &YCbCrJpeg::from_channels(f(0.8), f(0.2), f(-1.0)), TIGHT));

    let c3 = YCbCrJpeg::from_channels(200u8, 170u8, 50u8);
    assert_eq!(c3.invert().invert(), c3);
    assert_eq!(c3.invert(), YCbCrJpeg::from_channels(55u8, 85u8, 205u8));
}

#[test]
fn ycbcr_test_lerp() {
    let c1 = YCbCrJpeg::from_channels(f(0.7), f(-0.4), f(0.7));
    let c2 = YCbCrJpeg::from_channels(f(0.3), f(0.2), f(-0.8));
    assert!(jpeg_eq(&c1.lerp(&c2, f(0.0)), &c1, TIGHT));
    assert!(jpeg_eq(&c1.lerp(&c2, f(1.0)), &c2, TIGHT));
    assert!(jpeg_eq(
        &c1.lerp(&c2, f(0.5)),
        &YCbCrJpeg::from_channels(f(0.5), f(-0.1), f(-0.05)),
        TIGHT
    ));
    assert!(jpeg_eq(
        &c1.lerp(&c2, f(0.25)),
        &YCbCrJpeg::from_channels(f(0.6), f(-0.25), f(0.325)),
        TIGHT
    ));

    let c3 = YCbCrJpeg::from_channels(100u8, 210, 25);
    let c4 = YCbCrJpeg::from_channels(200u8, 70, 150);
    assert_eq!(c3.lerp(&c4, f(0.0)), c3);
    assert_eq!(c3.lerp(&c4, f(1.0)), c4);
    assert_eq!(c3.lerp(&c4, f(0.5)), YCbCrJpeg::from_channels(150u8, 140u8, 87));
}

#[test]
fn ycbcr_test_normalize() {
    let c1 = YCbCrJpeg::from_channels(f(-0.2), f(-1.3), f(1.2));
    assert!(!c1.is_normalized());
    assert_eq!(c1.normalize(), YCbCrJpeg::from_channels(f(0.0), f(-1.0), f(1.0)));
    assert_eq!(c1.normalize().normalize(), c1.normalize());

    let c2 = YCbCrJpeg::from_channels(f(0.8), f(-0.8), f(0.3));
    assert!(c2.is_normalized());
    assert_eq!(c2.normalize(), c2);
}

#[test]
fn ycbcr_test_flatten() {
    let c1 = YCbCrJpeg::from_channels(f(0.2), f(-0.3), f(0.45));
    assert_eq!(c1.as_slice(), vec![f(0.2), f(-0.3), f(0.45)]);
    assert_eq!(YCbCrJpeg::from_slice(&c1.as_slice()), c1);
}

#[test]
fn test_build_transform() {
    let matrix: Matrix3<F32> = build_transform(g(0.299), g(0.114));
    let expected = Matrix3::new([
        g(0.299),
        g(0.587),
        g(0.114),
        g(-0.168736),
        g(-0.331264),
        g(0.5),
        g(0.5),
        g(-0.418688),
        g(-0.081312),
    ]);
    let built = matrix.as_array();
    let reference = expected.as_array();
    let mut i: usize = 0;
    while i < 9 {
        assert!(releq32(built[i].0, reference[i].0, 1e-5));
        i += 1;
    }
}

#[test]
fn test_from_rgb() {
    let test_data: [(f32, f32, f32); 19] = [
        (1.000, 1.000, 1.000),
        (0.500, 0.500, 0.500),
        (0.000, 0.000, 0.000),
        (1.000, 0.000, 0.000),
        (0.750, 0.750, 0.000),
        (0.000, 0.500, 0.000),
        (0.500, 1.000, 1.000),
        (0.500, 0.500, 1.000),
        (0.750, 0.250, 0.750),
        (0.628, 0.643, 0.142),
        (0.255, 0.104, 0.918),
        (0.116, 0.675, 0.255),
        (0.941, 0.785, 0.053),
        (0.704, 0.187, 0.897),
        (0.931, 0.463, 0.316),
        (0.998, 0.974, 0.532),
        (0.099, 0.795, 0.591),
        (0.211, 0.149, 0.597),
        (0.495, 0.493, 0.721),
    ];
    for &(r, green, b) in test_data.iter() {
        let rgb = Rgb::from_channels(g(r), g(green), g(b));
        let ycbcr = YCbCrJpeg::from_rgb::<F64>(&rgb);
        let back = ycbcr.to_rgb::<F64>(OutOfGamutMode::Preserve);
        assert!(releq32(back.red().0, rgb.red().0, 1e-4));
        assert!(releq32(back.green().0, rgb.green().0, 1e-4));
        assert!(releq32(back.blue().0, rgb.blue().0, 1e-4));
    }

    let c1 = Rgb::from_channels(255u8, 255, 255);
    let y1 = YCbCrJpeg::from_rgb::<F64>(&c1);
    assert_eq!(y1.luma(), 255u8);
    assert_eq!(y1.cb(), 128);
    assert_eq!(y1.cr(), 128);
    assert_eq!(Rgb::try_from_color::<_, F64>(&y1).unwrap(), c1);

    let c2 = Rgb::from_channels(f(0.5), f(0.5), f(0.5));
    let y2 = YCbCrJpeg::from_rgb_and_model::<F64>(&c2, JpegModel);
    assert!(jpeg_eq(&y2, &YCbCrJpeg::from_channels(f(0.5), f(0.0), f(0.0)), 1e-6));
    assert!(rgb_eq(&Rgb::try_from_color::<_, F64>(&y2).unwrap(), &c2, 1e-6));
}

#[test]
fn test_to_rgb() {
    let c1 = YCbCrJpeg::from_channels(f(1.0), f(0.0), f(0.0));
    let r1 = Rgb::try_from_color::<_, F64>(&c1).unwrap();
    assert!(releq(r1.red().0, 1.0, TIGHT));
    assert!(releq(r1.green().0, 1.0, TIGHT));
    assert!(releq(r1.blue().0, 1.0, TIGHT));

    let c2 = YCbCrJpeg::from_channels(f(1.0), f(1.0), f(1.0));
    assert_eq!(Rgb::try_from_color::<_, F64>(&c2), None);
    let r2 = c2.to_rgb::<F64>(OutOfGamutMode::Clip);
    assert!(releq(r2.red().0, 1.0, TIGHT));
    assert!(releq(r2.green().0, 0.0, TIGHT));
    assert!(releq(r2.blue().0, 1.0, TIGHT));

    let c3 = YCbCrJpeg::from_channels(f(0.0), f(0.0), f(0.0));
    let r3 = Rgb::try_from_color::<_, F64>(&c3).unwrap();
    assert!(releq(r3.red().0, 0.0, TIGHT));
    assert!(releq(r3.green().0, 0.0, TIGHT));
    assert!(releq(r3.blue().0, 0.0, TIGHT));

    let c4 = YCbCrJpeg::from_channels(f(0.5), f(1.0), f(1.0));
    assert_eq!(Rgb::try_from_color::<_, F64>(&c4), None);
    let r4 = c4.to_rgb::<F64>(OutOfGamutMode::Clip);
    assert!(releq(r4.red().0, 1.0, TIGHT));
    assert!(releq(r4.green().0, 0.0, TIGHT));
    assert!(releq(r4.blue().0, 1.0, TIGHT));

    let c5 = YCbCrJpeg::from_channels(50u8, 100, 150);
    let r5 = Rgb::try_from_color::<_, F64>(&c5).unwrap();
    assert_eq!(r5, Rgb::from_channels(80u8, 43, 0));
}

#[test]
fn ycbcr_model_accessors() {
    let bare = BareYCbCr::from_channels(f(0.5), f(0.25), f(-0.25));
    let c = bare.with_model::<_, F64>(JpegModel);
    assert_eq!(*c.model(), JpegModel);
    assert_eq!(*c.bare_ycbcr(), bare);
    assert_eq!(c.strip_model(), bare);

    let mut c2 = YCbCrJpeg::from_channels_and_model(f(0.1), f(0.2), f(0.3), JpegModel);
    c2.set_luma(f(0.9));
    c2.set_cb(f(0.8));
    c2.set_cr(f(0.7));
    assert_eq!(c2.to_tuple(), (f(0.9), f(0.8), f(0.7)));
    *c2.luma_mut() = f(0.4);
    *c2.cb_mut() = f(0.5);
    *c2.cr_mut() = f(0.6);
    assert_eq!(c2.to_tuple(), (f(0.4), f(0.5), f(0.6)));
}

#[test]
fn yiq_channel_aliases() {
    let mut c = Yiq::from_channels(f(0.25), f(0.5), f(-0.5));
    assert_eq!(c.i(), c.cb());
    assert_eq!(c.q(), c.cr());
    c.set_i(f(0.1));
    c.set_q(f(0.2));
    assert_eq!((c.i(), c.q()), (f(0.1), f(0.2)));
    *c.i_mut() = f(-0.1);
    *c.q_mut() = f(-0.2);
    assert_eq!((c.cb(), c.cr()), (f(-0.1), f(-0.2)));
}

#[test]
fn lerp_endpoints_and_midpoint() {
    let a = Lab::from_channels(f(10.0), f(-20.0), f(30.0));
    let b = Lab::from_channels(f(90.0), f(40.0), f(-10.0));
    assert_eq!(a.lerp(&b, f(0.0)), a);
    assert_eq!(a.lerp(&b, f(1.0)), b);
    let mid = a.lerp(&b, f(0.5));
    assert_eq!(mid.L().0, 10.0 * 0.5 + 90.0 * 0.5);
    assert_eq!(mid.a().0, -20.0 * 0.5 + 40.0 * 0.5);
    assert_eq!(mid.b().0, 30.0 * 0.5 + -10.0 * 0.5);

    let p = Alpha::from_color_and_alpha(YCbCrJpeg::from_channels(f(0.1), f(0.2), f(0.3)), f(0.9));
    let q = Alpha::from_color_and_alpha(YCbCrJpeg::from_channels(f(0.7), f(-0.2), f(0.1)), f(0.1));
    assert_eq!(p.lerp(&q, f(0.0)), p);
    assert_eq!(p.lerp(&q, f(1.0)), q);
    let mid = p.lerp(&q, f(0.5));
    assert_eq!(mid.alpha().0, 0.9 * 0.5 + 0.1 * 0.5);
    assert_eq!(mid.color().luma().0, 0.1 * 0.5 + 0.7 * 0.5);

    let c3 = YCbCrJpeg::from_channels(100u8, 210, 25);
    let c4 = YCbCrJpeg::from_channels(200u8, 70, 150);
    let mid = c3.lerp(&c4, f(0.5));
    assert_eq!(mid.luma(), 150u8);
}

#[test]
fn invert_twice_is_close_on_floats() {
    let c = Alpha::from_color_and_alpha(YCbCrJpeg::from_channels(f(0.33), f(0.55), f(-0.17)), f(0.41));
    let back = c.invert().invert();
    assert!(releq(back.alpha().0, c.alpha().0, 1e-6));
    assert!(releq(back.color().luma().0, c.color().luma().0, 1e-6));
    assert!(releq(back.color().cb().0, c.color().cb().0, 1e-6));
    assert!(releq(back.color().cr().0, c.color().cr().0, 1e-6));
}

#[test]
fn normalize_is_idempotent_on_floats() {
    let c = Alpha::from_color_and_alpha(YCbCrJpeg::from_channels(f(1.7), f(-2.0), f(0.2)), f(-0.4));
    let once = c.normalize();
    assert_eq!(once.normalize(), once);
    assert!(once.is_normalized());
    assert_eq!(once.alpha(), f(0.0));
    assert_eq!(once.color().luma(), f(1.0));
    assert_eq!(once.color().cb(), f(-1.0));
    assert_eq!(once.color().cr(), f(0.2));
}

#[test]
fn cast_u8_through_f32_round_trips_within_one() {
    for v in 0..=255u8 {
        let wide: F32 = v.cast();
        let back: u8 = wide.cast();
        let diff = if back > v { back - v } else { v - back };
        assert!(diff <= 1);
    }
}

#[test]
fn xyy_setters_preserve_chromaticity_invariant() {
    let starts = [(0.4, 0.3, 0.4), (0.1, 0.8, 1.0), (0.0, 0.0, 0.5)];
    let vals = [0.0, 0.25, 0.6, 1.0];
    for &(x, y, yy) in starts.iter() {
        for &v in vals.iter() {
            let mut c = XyY::from_channels(f(x), f(y), f(yy));
            c.set_x(f(v));
            assert!(c.x().0 >= 0.0 && c.y().0 >= 0.0);
            assert!(c.x().0 + c.y().0 <= 1.0 + 1e-12);
            assert!(releq(c.x().0 + c.y().0 + c.z().0, 1.0, 1e-12));

            let mut c = XyY::from_channels(f(x), f(y), f(yy));
            c.set_y(f(v));
            assert!(c.x().0 >= 0.0 && c.y().0 >= 0.0);
            assert!(c.x().0 + c.y().0 <= 1.0 + 1e-12);

            let mut c = XyY::from_channels(f(x), f(y), f(yy));
            c.set_z(f(v));
            assert!(c.x().0 >= 0.0 && c.y().0 >= 0.0);
            assert!(c.x().0 + c.y().0 <= 1.0 + 1e-12);
        }
    }
}

#[test]
fn white_points_expose_reference_data() {
    let wp: Xyz<F64> = D65::get_xyz();
    assert_eq!(wp.x(), f(0.95047));
    assert_eq!(wp.y(), f(1.0));
    assert_eq!(wp.z(), f(1.08883));

    let chroma: XyY<F64> = D65::get_xy_chromaticity();
    assert_eq!(chroma.x(), f(0.31271));
    assert_eq!(chroma.y(), f(0.32902));
    assert_eq!(chroma.Y(), f(1.0));
    assert!(chroma.x().0 >= 0.0 && chroma.y().0 >= 0.0);
    assert!(chroma.x().0 + chroma.y().0 <= 1.0);

    let e: XyY<F64> = E::get_xy_chromaticity();
    assert_eq!(e.x(), f(1.0 / 3.0));
    assert_eq!(e.y(), f(1.0 / 3.0));

    let lab_white = Lab::from_xyz(&D65::get_xyz::<F64>(), &D65::get_xyz());
    assert!(releq(lab_white.L().0, 100.0, 1e-9));
}

#[test]
fn lab_constants_are_exact() {
    assert_eq!(Lab::<F64>::epsilon().0, 0.008856451679035631);
    assert_eq!(Lab::<F64>::kappa().0, 903.2962962963);
}

#[test]
fn jpeg_model_transform_entries() {
    let forward: [F64; 9] = YCbCrModel::<F64, F64>::forward_transform(&JpegModel).as_array();
    let expected_forward: [f64; 9] = [
        0.299, 0.587, 0.114, -0.168736, -0.331264, 0.5, 0.5, -0.418688, -0.081312,
    ];
    let mut i: usize = 0;
    while i < 9 {
        assert_eq!(forward[i].0, expected_forward[i]);
        i += 1;
    }

    let inverse: [F64; 9] = YCbCrModel::<F64, F64>::inverse_transform(&JpegModel).as_array();
    let expected_inverse: [f64; 9] = [1.0, 0.0, 1.402, 1.0, -0.3441, -0.7141, 1.0, 1.772, 0.0];
    let mut i: usize = 0;
    while i < 9 {
        assert_eq!(inverse[i].0, expected_inverse[i]);
        i += 1;
    }
}

#[test]
fn ycbcr_test_color_cast() {
    let c1 = YCbCrJpeg::from_channels(g(0.65), g(-0.3), g(0.5));
    let id: YCbCrJpeg<F32> = c1.color_cast();
    assert!(releq32(id.luma().0, c1.luma().0, 1.2e-7));
    assert!(releq32(id.cb().0, c1.cb().0, 1.2e-7));
    assert!(releq32(id.cr().0, c1.cr().0, 1.2e-7));

    let widened: YCbCrJpeg<F64> = c1.color_cast();
    let expected = YCbCrJpeg::from_channels(f(0.65), f(-0.3), f(0.5));
    assert!(jpeg_eq(&widened, &expected, 1e-6));

    let narrowed: YCbCrJpeg<u8> = c1.color_cast();
    assert_eq!(narrowed, YCbCrJpeg::from_channels(166u8, 89, 191));

    let c2 = YCbCrJpeg::from_channels(100u8, 200u8, 100u8);
    let lifted: YCbCrJpeg<F32> = c2.color_cast();
    let expected = YCbCrJpeg::from_channels(g(0.39215686), g(0.56862745), g(-0.21568627));
    assert!(releq32(lifted.luma().0, expected.luma().0, 1.2e-7));
    assert!(releq32(lifted.cb().0, expected.cb().0, 1.2e-7));
    assert!(releq32(lifted.cr().0, expected.cr().0, 1.2e-7));
}
