//! Models for the YCbCr engine: the forward and inverse transform matrices,
//! the per-representation channel shift, and the canonical-range rescaling.

use vstd::prelude::*;
use crate::channel::{FreeChannelScalar, NormalChannelScalar, PosNormalChannelScalar};
use crate::linalg::{inverse_vals_spec, Matrix3};

verus! {

/// The additive per-channel shift a model applies after the forward
/// transform, recentering the signed chroma channels into an unsigned
/// integer representation. Real representations shift by zero.
pub trait YCbCrShift<T>: Sized {
    open spec fn shift_spec() -> (T, T, T) {
        vstd::pervasive::arbitrary()
    }

    fn get_shift() -> (r: (T, T, T))
        ensures
            r == Self::shift_spec(),
    ;
}

/// A YCbCr model: a forward 3x3 matrix taking RGB to YCbCr, its inverse,
/// and a per-channel shift.
///
/// `R` is the real scalar the matrices are stored in, supplied by the
/// numeric foundation.
pub trait YCbCrModel<T, R: FreeChannelScalar>: Copy + Sized {
    type Shift: YCbCrShift<T>;

    /// The entries of the forward matrix, in row-major order.
    open spec fn forward_vals_spec(self) -> Seq<R> {
        vstd::pervasive::arbitrary()
    }

    /// The entries of the inverse matrix, in row-major order.
    open spec fn inverse_vals_spec(self) -> Seq<R> {
        vstd::pervasive::arbitrary()
    }

    open spec fn model_shift_spec(self) -> (T, T, T) {
        vstd::pervasive::arbitrary()
    }

    fn forward_transform(&self) -> (m: Matrix3<R>)
        ensures
            m.vals() == self.forward_vals_spec(),
    ;

    fn inverse_transform(&self) -> (m: Matrix3<R>)
        ensures
            m.vals() == self.inverse_vals_spec(),
    ;

    fn shift(&self) -> (s: (T, T, T))
        ensures
            s == self.model_shift_spec(),
    ;
}

/// A stateless model known at compile time; its value carries no data, so a
/// color can produce it on demand.
pub trait UnitModel<T>: Sized {
    open spec fn unit_spec() -> Self {
        vstd::pervasive::arbitrary()
    }

    fn unit_value() -> (r: Self)
        ensures
            r == Self::unit_spec(),
    ;
}

/// The rescaling from this engine's internal `[-1, 1]` chroma range to the
/// range the model's published standard defines.
pub trait Canonicalize<T: FreeChannelScalar>: Sized {
    /// The factors the Cb and Cr channels are multiplied by.
    open spec fn canonical_scale_spec() -> (T, T) {
        vstd::pervasive::arbitrary()
    }

    fn canonical_scale() -> (r: (T, T))
        ensures
            r == Self::canonical_scale_spec(),
    ;
}

/// The standard shift: zero for the luma channel and half the range plus one
/// step for the chroma channels of an unsigned integer representation.
#[derive(Clone, Debug, PartialEq)]
pub struct StandardShift<T>(pub T);

impl YCbCrShift<u8> for StandardShift<u8> {
    open spec fn shift_spec() -> (u8, u8, u8) {
        (0, 0x80, 0x80)
    }

    fn get_shift() -> (u8, u8, u8) {
        (0, 0x80, 0x80)
    }
}

impl YCbCrShift<u16> for StandardShift<u16> {
    open spec fn shift_spec() -> (u16, u16, u16) {
        (0, 0x8000, 0x8000)
    }

    fn get_shift() -> (u16, u16, u16) {
        (0, 0x8000, 0x8000)
    }
}

impl YCbCrShift<u32> for StandardShift<u32> {
    open spec fn shift_spec() -> (u32, u32, u32) {
        (0, 0x8000_0000, 0x8000_0000)
    }

    fn get_shift() -> (u32, u32, u32) {
        (0, 0x8000_0000, 0x8000_0000)
    }
}

/// The forward matrix determined by the two luma coefficients `kr` and `kb`:
/// the green coefficient is `1 - kr - kb`, and each chroma row scales the
/// luma residual into `[-1/2, 1/2]`.
pub open spec fn build_transform_vals_spec<R: FreeChannelScalar>(kr: R, kb: R) -> Seq<R> {
    let one = R::one_spec();
    let half = R::from_ratio_spec(1, 2);
    let two = R::from_ratio_spec(2, 1);
    let zero = R::zero_spec();
    let kg = one.r_sub_spec(kr).r_sub_spec(kb);
    let cb_den = two.r_mul_spec(one.r_sub_spec(kb));
    let cr_den = two.r_mul_spec(one.r_sub_spec(kr));
    seq![
        kr,
        kg,
        kb,
        zero.r_sub_spec(kr.r_div_spec(cb_den)),
        zero.r_sub_spec(kg.r_div_spec(cb_den)),
        half,
        half,
        zero.r_sub_spec(kg.r_div_spec(cr_den)),
        zero.r_sub_spec(kb.r_div_spec(cr_den)),
    ]
}

/// Build a forward YCbCr transform matrix from the luma coefficients `kr`
/// and `kb`.
pub fn build_transform<R: FreeChannelScalar>(kr: R, kb: R) -> (m: Matrix3<R>)
    ensures
        m.vals() == build_transform_vals_spec(kr, kb),
{
    let one = R::one();
    let half = R::from_ratio(1, 2);
    let two = R::from_ratio(2, 1);
    let zero = R::zero();
    let kg = one.r_sub(kr).r_sub(kb);
    let cb_den = two.r_mul(one.r_sub(kb));
    let cr_den = two.r_mul(one.r_sub(kr));
    let m = Matrix3::new(
        [
            kr,
            kg,
            kb,
            zero.r_sub(kr.r_div(cb_den)),
            zero.r_sub(kg.r_div(cb_den)),
            half,
            half,
            zero.r_sub(kg.r_div(cr_den)),
            zero.r_sub(kb.r_div(cr_den)),
        ],
    );
    proof {
        assert(m.vals() =~= build_transform_vals_spec(kr, kb));
    }
    m
}

/// The JPEG (BT.601 full-range) YCbCr model.
#[derive(Copy, Clone, Debug, PartialEq)]
pub struct JpegModel;

/// The forward matrix of the JPEG model, from the coefficients
/// `kr = 0.299`, `kb = 0.114`.
pub open spec fn jpeg_forward_vals_spec<R: FreeChannelScalar>() -> Seq<R> {
    seq![
        R::from_ratio_spec(299, 1000),
        R::from_ratio_spec(587, 1000),
        R::from_ratio_spec(114, 1000),
        R::from_ratio_spec(-168736i64, 1000000),
        R::from_ratio_spec(-331264i64, 1000000),
        R::from_ratio_spec(1, 2),
        R::from_ratio_spec(1, 2),
        R::from_ratio_spec(-418688i64, 1000000),
        R::from_ratio_spec(-81312i64, 1000000),
    ]
}

/// The inverse matrix of the JPEG model.
pub open spec fn jpeg_inverse_vals_spec<R: FreeChannelScalar>() -> Seq<R> {
    seq![
        R::one_spec(),
        R::zero_spec(),
        R::from_ratio_spec(1402, 1000),
        R::one_spec(),
        R::from_ratio_spec(-3441i64, 10000),
        R::from_ratio_spec(-7141i64, 10000),
        R::one_spec(),
        R::from_ratio_spec(1772, 1000),
        R::zero_spec(),
    ]
}

impl<T, R> YCbCrModel<T, R> for JpegModel where
    T: PosNormalChannelScalar + NormalChannelScalar,
    R: FreeChannelScalar,
    StandardShift<T>: YCbCrShift<T>,
 {
    type Shift = StandardShift<T>;

    open spec fn forward_vals_spec(self) -> Seq<R> {
        jpeg_forward_vals_spec::<R>()
    }

    open spec fn inverse_vals_spec(self) -> Seq<R> {
        jpeg_inverse_vals_spec::<R>()
    }

    open spec fn model_shift_spec(self) -> (T, T, T) {
        <StandardShift<T> as YCbCrShift<T>>::shift_spec()
    }

    fn forward_transform(&self) -> Matrix3<R> {
        let m = Matrix3::new(
            [
                R::from_ratio(299, 1000),
                R::from_ratio(587, 1000),
                R::from_ratio(114, 1000),
                R::from_ratio(-168736, 1000000),
                R::from_ratio(-331264, 1000000),
                R::from_ratio(1, 2),
                R::from_ratio(1, 2),
                R::from_ratio(-418688, 1000000),
                R::from_ratio(-81312, 1000000),
            ],
        );
        proof {
            assert(m.vals() =~= jpeg_forward_vals_spec::<R>());
        }
        m
    }

    fn inverse_transform(&self) -> Matrix3<R> {
        let m = Matrix3::new(
            [
                R::one(),
                R::zero(),
                R::from_ratio(1402, 1000),
                R::one(),
                R::from_ratio(-3441, 10000),
                R::from_ratio(-7141, 10000),
                R::one(),
                R::from_ratio(1772, 1000),
                R::zero(),
            ],
        );
        proof {
            assert(m.vals() =~= jpeg_inverse_vals_spec::<R>());
        }
        m
    }

    fn shift(&self) -> (T, T, T) {
        <StandardShift<T> as YCbCrShift<T>>::get_shift()
    }
}

impl<T> UnitModel<T> for JpegModel {
    open spec fn unit_spec() -> Self {
        JpegModel
    }

    fn unit_value() -> Self {
        JpegModel
    }
}

impl<T: FreeChannelScalar> Canonicalize<T> for JpegModel {
    open spec fn canonical_scale_spec() -> (T, T) {
        (T::from_ratio_spec(436, 1000), T::from_ratio_spec(615, 1000))
    }

    fn canonical_scale() -> (T, T) {
        (T::from_ratio(436, 1000), T::from_ratio(615, 1000))
    }
}

/// The NTSC YIQ model, expressed over the engine's internal `[-1, 1]` chroma
/// range; the canonical I and Q ranges are `[-0.5957, 0.5957]` and
/// `[-0.5226, 0.5226]`.
#[derive(Copy, Clone, Debug, PartialEq)]
pub struct YiqModel;

/// The forward matrix of the YIQ model: the NTSC matrix with its chroma rows
/// divided by the canonical I and Q ranges.
pub open spec fn yiq_forward_vals_spec<R: FreeChannelScalar>() -> Seq<R> {
    seq![
        R::from_ratio_spec(299, 1000),
        R::from_ratio_spec(587, 1000),
        R::from_ratio_spec(114, 1000),
        R::from_ratio_spec(595716, 595700),
        R::from_ratio_spec(-274453i64, 595700),
        R::from_ratio_spec(-321263i64, 595700),
        R::from_ratio_spec(211456, 522600),
        R::from_ratio_spec(-522591i64, 522600),
        R::from_ratio_spec(311135, 522600),
    ]
}

/// The inverse matrix of the YIQ model: the NTSC inverse with its chroma
/// columns multiplied by the canonical I and Q ranges.
pub open spec fn yiq_inverse_vals_spec<R: FreeChannelScalar>() -> Seq<R> {
    seq![
        R::one_spec(),
        R::from_ratio_spec(56966791, 100000000),
        R::from_ratio_spec(3245346, 10000000),
        R::one_spec(),
        R::from_ratio_spec(-16208997i64, 100000000),
        R::from_ratio_spec(-33833124i64, 100000000),
        R::one_spec(),
        R::from_ratio_spec(-6594399i64, 10000000),
        R::from_ratio_spec(89082396, 100000000),
    ]
}

impl<T, R> YCbCrModel<T, R> for YiqModel where
    T: PosNormalChannelScalar + NormalChannelScalar,
    R: FreeChannelScalar,
    StandardShift<T>: YCbCrShift<T>,
 {
    type Shift = StandardShift<T>;

    open spec fn forward_vals_spec(self) -> Seq<R> {
        yiq_forward_vals_spec::<R>()
    }

    open spec fn inverse_vals_spec(self) -> Seq<R> {
        yiq_inverse_vals_spec::<R>()
    }

    open spec fn model_shift_spec(self) -> (T, T, T) {
        <StandardShift<T> as YCbCrShift<T>>::shift_spec()
    }

    fn forward_transform(&self) -> Matrix3<R> {
        let m = Matrix3::new(
            [
                R::from_ratio(299, 1000),
                R::from_ratio(587, 1000),
                R::from_ratio(114, 1000),
                R::from_ratio(595716, 595700),
                R::from_ratio(-274453, 595700),
                R::from_ratio(-321263, 595700),
                R::from_ratio(211456, 522600),
                R::from_ratio(-522591, 522600),
                R::from_ratio(311135, 522600),
            ],
        );
        proof {
            assert(m.vals() =~= yiq_forward_vals_spec::<R>());
        }
        m
    }

    fn inverse_transform(&self) -> Matrix3<R> {
        let m = Matrix3::new(
            [
                R::one(),
                R::from_ratio(56966791, 100000000),
                R::from_ratio(3245346, 10000000),
                R::one(),
                R::from_ratio(-16208997, 100000000),
                R::from_ratio(-33833124, 100000000),
                R::one(),
                R::from_ratio(-6594399, 10000000),
                R::from_ratio(89082396, 100000000),
            ],
        );
        proof {
            assert(m.vals() =~= yiq_inverse_vals_spec::<R>());
        }
        m
    }

    fn shift(&self) -> (T, T, T) {
        <StandardShift<T> as YCbCrShift<T>>::get_shift()
    }
}

impl<T> UnitModel<T> for YiqModel {
    open spec fn unit_spec() -> Self {
        YiqModel
    }

    fn unit_value() -> Self {
        YiqModel
    }
}

impl<T: FreeChannelScalar> Canonicalize<T> for YiqModel {
    open spec fn canonical_scale_spec() -> (T, T) {
        (T::from_ratio_spec(5957, 10000), T::from_ratio_spec(5226, 10000))
    }

    fn canonical_scale() -> (T, T) {
        (T::from_ratio(5957, 10000), T::from_ratio(5226, 10000))
    }
}

/// A YCbCr model built at runtime from arbitrary luma coefficients.
///
/// Unlike the stateless unit models, a custom model stores its transform
/// matrices in memory; colors hold it by reference to avoid duplicating the
/// transform per color instance.
#[derive(Clone, Debug, PartialEq)]
pub struct CustomYCbCrModel<R> {
    forward: Matrix3<R>,
    inverse: Matrix3<R>,
}

impl<R: FreeChannelScalar> CustomYCbCrModel<R> {
    pub closed spec fn forward_matrix_spec(self) -> Matrix3<R> {
        self.forward
    }

    pub closed spec fn inverse_matrix_spec(self) -> Matrix3<R> {
        self.inverse
    }

    /// Construct a custom model from a forward transform and its inverse.
    pub fn new(forward: Matrix3<R>, inverse: Matrix3<R>) -> (r: Self)
        ensures
            r.forward_matrix_spec() == forward,
            r.inverse_matrix_spec() == inverse,
    {
        CustomYCbCrModel { forward, inverse }
    }

    /// Build a custom model from the luma coefficients `kr` and `kb`: the
    /// forward matrix is derived by the documented formula and the inverse
    /// is computed from it.
    pub fn build_from_coefficients(kr: R, kb: R) -> (r: Self)
        ensures
            r.forward_matrix_spec().vals() == build_transform_vals_spec(kr, kb),
            r.inverse_matrix_spec().vals() == inverse_vals_spec(build_transform_vals_spec(kr, kb)),
    {
        let forward = build_transform(kr, kb);
        let inverse = forward.inverse();
        CustomYCbCrModel { forward, inverse }
    }
}

impl<'a, T, R> YCbCrModel<T, R> for &'a CustomYCbCrModel<R> where
    T: PosNormalChannelScalar + NormalChannelScalar,
    R: FreeChannelScalar,
    StandardShift<T>: YCbCrShift<T>,
 {
    type Shift = StandardShift<T>;

    open spec fn forward_vals_spec(self) -> Seq<R> {
        self.forward_matrix_spec().vals()
    }

    open spec fn inverse_vals_spec(self) -> Seq<R> {
        self.inverse_matrix_spec().vals()
    }

    open spec fn model_shift_spec(self) -> (T, T, T) {
        <StandardShift<T> as YCbCrShift<T>>::shift_spec()
    }

    fn forward_transform(&self) -> Matrix3<R> {
        self.forward
    }

    fn inverse_transform(&self) -> Matrix3<R> {
        self.inverse
    }

    fn shift(&self) -> (T, T, T) {
        <StandardShift<T> as YCbCrShift<T>>::get_shift()
    }
}

} // verus!
