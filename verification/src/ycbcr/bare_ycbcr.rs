//! `BareYCbCr`: a YCbCr color that does not carry its model.

use vstd::prelude::*;
use crate::channel::{
    BoundedChannelScalar, ChannelFormatCast, FreeChannelScalar, NormalChannelFormatCast,
    NormalChannelScalar, PosNormalChannelScalar, RealCast,
};
use crate::color::{Bounded, Invert, Lerp};
use crate::linalg::dot_row_spec;
use crate::linalg::transform_vector_spec;
use crate::rgb::Rgb;
use crate::ycbcr::model::YCbCrModel;
use crate::ycbcr::ycbcr_color::YCbCr;

verus! {

/// How out-of-gamut colors are handled when converting to RGB.
///
/// The "try"-style conversion instead reports absence whenever an
/// out-of-gamut value is produced.
pub enum OutOfGamutMode {
    /// Return the exact result of the transformation, which may lie outside
    /// the normal channel bounds.
    Preserve,
    /// Clamp every out-of-bounds channel to its minimum or maximum value.
    Clip,
}

/// A unit struct for identifying and constraining YCbCr colors in generic code.
pub struct YCbCrTag;

/// A YCbCr color that stores only its channel values: one bounded-positive
/// luma channel and two bounded-symmetric chroma channels. Which model the
/// values belong to is up to the caller to remember.
#[derive(Clone, Copy, Debug, PartialEq)]
pub struct BareYCbCr<T> {
    pub luma: T,
    pub cb: T,
    pub cr: T,
}

/// The channel triple `from_rgb_and_model` produces: the model's forward
/// matrix applied to the RGB channels, then the model's shift added in the
/// channel's own arithmetic.
pub open spec fn from_rgb_channels_spec<T, M, R>(from: Rgb<T>, model: M) -> (T, T, T) where
    T: NormalChannelScalar + PosNormalChannelScalar + RealCast<R>,
    M: YCbCrModel<T, R>,
    R: FreeChannelScalar,
{
    let t = transform_vector_spec(
        model.forward_vals_spec(),
        (from.red_spec(), from.green_spec(), from.blue_spec()),
    );
    let shift = model.model_shift_spec();
    (t.0.chan_add_spec(shift.0), t.1.chan_add_spec(shift.1), t.2.chan_add_spec(shift.2))
}

/// The channel triple `to_rgb` produces: the shift subtracted in the real
/// domain, the model's inverse matrix applied, and the result clamped into
/// gamut when the mode asks for it.
pub open spec fn to_rgb_channels_spec<T, M, R>(
    color: BareYCbCr<T>,
    model: M,
    mode: OutOfGamutMode,
) -> (T, T, T) where
    T: NormalChannelScalar + PosNormalChannelScalar + RealCast<R>,
    M: YCbCrModel<T, R>,
    R: FreeChannelScalar,
{
    let shift = model.model_shift_spec();
    let s0 = color.luma_spec().to_real_spec().r_sub_spec(shift.0.to_real_spec());
    let s1 = color.cb_spec().to_real_spec().r_sub_spec(shift.1.to_real_spec());
    let s2 = color.cr_spec().to_real_spec().r_sub_spec(shift.2.to_real_spec());
    let iv = model.inverse_vals_spec();
    let rr = T::from_real_spec(dot_row_spec(iv, 0, s0, s1, s2));
    let gg = T::from_real_spec(dot_row_spec(iv, 1, s0, s1, s2));
    let bb = T::from_real_spec(dot_row_spec(iv, 2, s0, s1, s2));
    match mode {
        OutOfGamutMode::Preserve => (rr, gg, bb),
        OutOfGamutMode::Clip => (
            rr.pos_normalize_spec(),
            gg.pos_normalize_spec(),
            bb.pos_normalize_spec(),
        ),
    }
}

impl<T> BareYCbCr<T> where T: NormalChannelScalar + PosNormalChannelScalar {
    pub open spec fn luma_spec(self) -> T {
        self.luma
    }

    pub open spec fn cb_spec(self) -> T {
        self.cb
    }

    pub open spec fn cr_spec(self) -> T {
        self.cr
    }

    /// Construct a `BareYCbCr` from channel values.
    pub fn from_channels(luma: T, cb: T, cr: T) -> (r: Self)
        ensures
            r == (BareYCbCr { luma, cb, cr }),
    {
        BareYCbCr { luma, cb, cr }
    }

    /// Cast between channel scalar representations: the bounded-positive
    /// luma channel converts directly, the bounded-symmetric chroma channels
    /// convert with recentring.
    pub fn color_cast<TOut>(&self) -> (r: BareYCbCr<TOut>) where
        T: ChannelFormatCast<TOut> + NormalChannelFormatCast<TOut>,
        TOut: NormalChannelScalar + PosNormalChannelScalar,

        ensures
            r == (BareYCbCr {
                luma: self.luma_spec().cast_spec(),
                cb: self.cb_spec().norm_cast_spec(),
                cr: self.cr_spec().norm_cast_spec(),
            }),
    {
        BareYCbCr {
            luma: self.luma.cast(),
            cb: self.cb.norm_cast(),
            cr: self.cr.norm_cast(),
        }
    }

    /// Get the luma (Y') channel.
    pub fn luma(&self) -> (r: T)
        ensures
            r == self.luma_spec(),
    {
        self.luma
    }

    /// Get the Cb channel.
    pub fn cb(&self) -> (r: T)
        ensures
            r == self.cb_spec(),
    {
        self.cb
    }

    /// Get the Cr channel.
    pub fn cr(&self) -> (r: T)
        ensures
            r == self.cr_spec(),
    {
        self.cr
    }

    /// Get a mutable reference to the luma (Y') channel.
    pub fn luma_mut(&mut self) -> (r: &mut T)
        ensures
            *r == old(self).luma_spec(),
            *final(self) == (BareYCbCr { luma: *final(r), ..*old(self) }),
    {
        &mut self.luma
    }

    /// Get a mutable reference to the Cb channel.
    pub fn cb_mut(&mut self) -> (r: &mut T)
        ensures
            *r == old(self).cb_spec(),
            *final(self) == (BareYCbCr { cb: *final(r), ..*old(self) }),
    {
        &mut self.cb
    }

    /// Get a mutable reference to the Cr channel.
    pub fn cr_mut(&mut self) -> (r: &mut T)
        ensures
            *r == old(self).cr_spec(),
            *final(self) == (BareYCbCr { cr: *final(r), ..*old(self) }),
    {
        &mut self.cr
    }

    /// Set the luma (Y') channel to a value.
    pub fn set_luma(&mut self, val: T)
        ensures
            *final(self) == (BareYCbCr { luma: val, ..*old(self) }),
    {
        self.luma = val;
    }

    /// Set the Cb channel to a value.
    pub fn set_cb(&mut self, val: T)
        ensures
            *final(self) == (BareYCbCr { cb: val, ..*old(self) }),
    {
        self.cb = val;
    }

    /// Set the Cr channel to a value.
    pub fn set_cr(&mut self, val: T)
        ensures
            *final(self) == (BareYCbCr { cr: val, ..*old(self) }),
    {
        self.cr = val;
    }

    pub fn num_channels() -> (n: u32)
        ensures
            n == 3,
    {
        3
    }

    /// Decompose the color into its ordered channel tuple.
    pub fn to_tuple(self) -> (r: (T, T, T))
        ensures
            r == (self.luma_spec(), self.cb_spec(), self.cr_spec()),
    {
        (self.luma, self.cb, self.cr)
    }

    /// Construct a `BareYCbCr` from an ordered channel tuple.
    pub fn from_tuple(values: (T, T, T)) -> (r: Self)
        ensures
            r == (BareYCbCr { luma: values.0, cb: values.1, cr: values.2 }),
    {
        BareYCbCr { luma: values.0, cb: values.1, cr: values.2 }
    }

    /// The channels as a contiguous sequence, in declared order.
    pub fn as_slice(&self) -> (r: Vec<T>)
        ensures
            r@ == seq![self.luma_spec(), self.cb_spec(), self.cr_spec()],
    {
        let mut v: Vec<T> = Vec::new();
        v.push(self.luma);
        v.push(self.cb);
        v.push(self.cr);
        proof {
            assert(v@ =~= seq![self.luma_spec(), self.cb_spec(), self.cr_spec()]);
        }
        v
    }

    /// Construct a `BareYCbCr` from the first three values of a slice.
    ///
    /// A slice shorter than the channel count is a fatal precondition
    /// violation, not a recoverable result.
    pub fn from_slice(vals: &[T]) -> (r: Self)
        requires
            vals@.len() >= 3,
        ensures
            r == (BareYCbCr { luma: vals@[0], cb: vals@[1], cr: vals@[2] }),
    {
        BareYCbCr { luma: vals[0], cb: vals[1], cr: vals[2] }
    }

    /// Construct a `YCbCr` from `self` and a model.
    pub fn with_model<M, R>(self, model: M) -> (r: YCbCr<T, M>) where
        M: YCbCrModel<T, R>,
        R: FreeChannelScalar,

        ensures
            r.ycbcr_spec() == self,
            r.model_spec() == model,
    {
        YCbCr::from_color_and_model(self, model)
    }

    /// Construct a `BareYCbCr` by converting from an RGB `value`.
    ///
    /// `model` is only used within the conversion; it is up to the caller to
    /// remember which model any `BareYCbCr` is using.
    pub fn from_rgb_and_model<M, R>(from: &Rgb<T>, model: &M) -> (r: Self) where
        M: YCbCrModel<T, R>,
        R: FreeChannelScalar,
        T: RealCast<R>,

        ensures
            (r.luma_spec(), r.cb_spec(), r.cr_spec()) == from_rgb_channels_spec(*from, *model),
    {
        let transform = model.forward_transform();
        let shift = model.shift();
        let (y, cb, cr) = transform.transform_vector((*from).to_tuple());
        BareYCbCr::from_channels(y.chan_add(shift.0), cb.chan_add(shift.1), cr.chan_add(shift.2))
    }

    /// Convert from YCbCr to RGB under `model`.
    ///
    /// `out_of_gamut_mode` selects how a result outside the RGB gamut is
    /// handled: preserved exactly or clipped into bounds.
    pub fn to_rgb<M, R>(&self, model: &M, out_of_gamut_mode: OutOfGamutMode) -> (r: Rgb<T>) where
        M: YCbCrModel<T, R>,
        R: FreeChannelScalar,
        T: RealCast<R>,

        ensures
            (r.red_spec(), r.green_spec(), r.blue_spec()) == to_rgb_channels_spec(
                *self,
                *model,
                out_of_gamut_mode,
            ),
    {
        let transform = model.inverse_transform();
        let shift = model.shift();
        let m = transform.as_array();
        let s0 = self.luma.to_real().r_sub(shift.0.to_real());
        let s1 = self.cb.to_real().r_sub(shift.1.to_real());
        let s2 = self.cr.to_real().r_sub(shift.2.to_real());
        let rr = m[0].r_mul(s0).r_add(m[1].r_mul(s1)).r_add(m[2].r_mul(s2));
        let gg = m[3].r_mul(s0).r_add(m[4].r_mul(s1)).r_add(m[5].r_mul(s2));
        let bb = m[6].r_mul(s0).r_add(m[7].r_mul(s1)).r_add(m[8].r_mul(s2));
        let out = Rgb::from_channels(T::from_real(rr), T::from_real(gg), T::from_real(bb));
        match out_of_gamut_mode {
            OutOfGamutMode::Preserve => out,
            OutOfGamutMode::Clip => out.normalize(),
        }
    }
}

impl<T> Invert for BareYCbCr<T> where T: NormalChannelScalar + PosNormalChannelScalar {
    open spec fn invert_spec(self) -> Self {
        BareYCbCr {
            luma: self.luma.pos_invert_spec(),
            cb: self.cb.norm_invert_spec(),
            cr: self.cr.norm_invert_spec(),
        }
    }

    fn invert(self) -> Self {
        BareYCbCr {
            luma: self.luma.pos_invert(),
            cb: self.cb.norm_invert(),
            cr: self.cr.norm_invert(),
        }
    }
}

impl<T> Bounded for BareYCbCr<T> where T: NormalChannelScalar + PosNormalChannelScalar {
    open spec fn normalize_spec(self) -> Self {
        BareYCbCr {
            luma: self.luma.pos_normalize_spec(),
            cb: self.cb.norm_normalize_spec(),
            cr: self.cr.norm_normalize_spec(),
        }
    }

    open spec fn is_normalized_spec(self) -> bool {
        self.luma.pos_is_normalized_spec() && self.cb.norm_is_normalized_spec()
            && self.cr.norm_is_normalized_spec()
    }

    fn normalize(self) -> Self {
        BareYCbCr {
            luma: self.luma.pos_normalize(),
            cb: self.cb.norm_normalize(),
            cr: self.cr.norm_normalize(),
        }
    }

    fn is_normalized(&self) -> bool {
        self.luma.pos_is_normalized() && self.cb.norm_is_normalized()
            && self.cr.norm_is_normalized()
    }

    proof fn normalize_idempotent(self) {
        self.luma.pos_normalize_idempotent();
        self.cb.norm_normalize_idempotent();
        self.cr.norm_normalize_idempotent();
    }
}

impl<T, P> Lerp<P> for BareYCbCr<T> where
    T: NormalChannelScalar + PosNormalChannelScalar + Lerp<P>,
    P: Copy,
 {
    open spec fn lerp_spec(self, right: Self, pos: P) -> Self {
        BareYCbCr {
            luma: self.luma.lerp_spec(right.luma, pos),
            cb: self.cb.lerp_spec(right.cb, pos),
            cr: self.cr.lerp_spec(right.cr, pos),
        }
    }

    fn lerp(&self, right: &Self, pos: P) -> Self {
        BareYCbCr {
            luma: self.luma.lerp(&right.luma, pos),
            cb: self.cb.lerp(&right.cb, pos),
            cr: self.cr.lerp(&right.cr, pos),
        }
    }
}

/// Inverting a `BareYCbCr` with 8-bit channels twice returns the original
/// color exactly.
pub proof fn lemma_bare_ycbcr_invert_involutive_u8(c: BareYCbCr<u8>)
    ensures
        c.invert_spec().invert_spec() == c,
{
}

/// Inverting a `BareYCbCr` with 16-bit channels twice returns the original
/// color exactly.
pub proof fn lemma_bare_ycbcr_invert_involutive_u16(c: BareYCbCr<u16>)
    ensures
        c.invert_spec().invert_spec() == c,
{
}

/// Inverting a `BareYCbCr` with 32-bit channels twice returns the original
/// color exactly.
pub proof fn lemma_bare_ycbcr_invert_involutive_u32(c: BareYCbCr<u32>)
    ensures
        c.invert_spec().invert_spec() == c,
{
}

} // verus!
