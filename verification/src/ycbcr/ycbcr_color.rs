//! The `YCbCr` color: channel values together with the model they belong to.

use vstd::prelude::*;
use crate::channel::{
    ChannelFormatCast, FreeChannelScalar, NormalChannelFormatCast, NormalChannelScalar,
    PosNormalChannelScalar, RealCast,
};
use crate::color::{Bounded, Invert, Lerp};
use crate::rgb::Rgb;
use crate::ycbcr::bare_ycbcr::{
    from_rgb_channels_spec, to_rgb_channels_spec, BareYCbCr, OutOfGamutMode,
};
use crate::ycbcr::model::{Canonicalize, CustomYCbCrModel, JpegModel, UnitModel, YCbCrModel, YiqModel};

verus! {

/// A color in the YCbCr family of color spaces.
///
/// The channel values are stored together with the model that relates them to
/// RGB. A model is either a stateless unit struct known at compile time
/// (such as [`JpegModel`] or [`YiqModel`]) or a reference to a model built at
/// runtime.
#[derive(Clone, Copy, Debug, PartialEq)]
pub struct YCbCr<T, M = JpegModel> {
    pub ycbcr: BareYCbCr<T>,
    pub model: M,
}

/// A YCbCr color with a `YiqModel`.
pub type Yiq<T> = YCbCr<T, YiqModel>;

/// A YCbCr color with a `JpegModel`.
pub type YCbCrJpeg<T> = YCbCr<T, JpegModel>;

/// A YCbCr color holding a reference to a `CustomYCbCrModel`.
pub type YCbCrCustom<'a, T, R> = YCbCr<T, &'a CustomYCbCrModel<R>>;

impl<T, M> YCbCr<T, M> where T: NormalChannelScalar + PosNormalChannelScalar, M: Copy {
    pub open spec fn ycbcr_spec(self) -> BareYCbCr<T> {
        self.ycbcr
    }

    pub open spec fn model_spec(self) -> M {
        self.model
    }

    /// Construct a `YCbCr` from a `BareYCbCr` and a model.
    pub fn from_color_and_model(ycbcr: BareYCbCr<T>, model: M) -> (r: Self)
        ensures
            r == (YCbCr { ycbcr, model }),
    {
        YCbCr { ycbcr, model }
    }

    /// Construct a `YCbCr` from channel values and a model.
    pub fn from_channels_and_model(y: T, cb: T, cr: T, model: M) -> (r: Self)
        ensures
            r == (YCbCr { ycbcr: BareYCbCr { luma: y, cb, cr }, model }),
    {
        YCbCr { ycbcr: BareYCbCr::from_channels(y, cb, cr), model }
    }

    /// Cast between channel scalar representations: the bounded-positive
    /// luma channel converts directly, the bounded-symmetric chroma channels
    /// convert with recentring.
    pub fn color_cast<TOut>(&self) -> (r: YCbCr<TOut, M>) where
        T: ChannelFormatCast<TOut> + NormalChannelFormatCast<TOut>,
        TOut: NormalChannelScalar + PosNormalChannelScalar,

        ensures
            r.ycbcr_spec() == (BareYCbCr {
                luma: self.ycbcr_spec().luma_spec().cast_spec(),
                cb: self.ycbcr_spec().cb_spec().norm_cast_spec(),
                cr: self.ycbcr_spec().cr_spec().norm_cast_spec(),
            }),
            r.model_spec() == self.model_spec(),
    {
        YCbCr { ycbcr: self.ycbcr.color_cast(), model: self.model }
    }

    /// Get a reference to the model of the given `YCbCr`.
    pub fn model(&self) -> (r: &M)
        ensures
            *r == self.model_spec(),
    {
        &self.model
    }

    /// Get a reference to the "bare" color.
    pub fn bare_ycbcr(&self) -> (r: &BareYCbCr<T>)
        ensures
            *r == self.ycbcr_spec(),
    {
        &self.ycbcr
    }

    /// Get the luma (Y') channel.
    pub fn luma(&self) -> (r: T)
        ensures
            r == self.ycbcr_spec().luma_spec(),
    {
        self.ycbcr.luma()
    }

    /// Get the Cb channel.
    pub fn cb(&self) -> (r: T)
        ensures
            r == self.ycbcr_spec().cb_spec(),
    {
        self.ycbcr.cb()
    }

    /// Get the Cr channel.
    pub fn cr(&self) -> (r: T)
        ensures
            r == self.ycbcr_spec().cr_spec(),
    {
        self.ycbcr.cr()
    }

    /// Get a mutable reference to the luma (Y') channel.
    pub fn luma_mut(&mut self) -> (r: &mut T)
        ensures
            *r == old(self).ycbcr_spec().luma_spec(),
            *final(self) == (YCbCr {
                ycbcr: BareYCbCr { luma: *final(r), ..old(self).ycbcr_spec() },
                model: old(self).model_spec(),
            }),
    {
        &mut self.ycbcr.luma
    }

    /// Get a mutable reference to the Cb channel.
    pub fn cb_mut(&mut self) -> (r: &mut T)
        ensures
            *r == old(self).ycbcr_spec().cb_spec(),
            *final(self) == (YCbCr {
                ycbcr: BareYCbCr { cb: *final(r), ..old(self).ycbcr_spec() },
                model: old(self).model_spec(),
            }),
    {
        &mut self.ycbcr.cb
    }

    /// Get a mutable reference to the Cr channel.
    pub fn cr_mut(&mut self) -> (r: &mut T)
        ensures
            *r == old(self).ycbcr_spec().cr_spec(),
            *final(self) == (YCbCr {
                ycbcr: BareYCbCr { cr: *final(r), ..old(self).ycbcr_spec() },
                model: old(self).model_spec(),
            }),
    {
        &mut self.ycbcr.cr
    }

    /// Set the luma (Y') channel to a value.
    pub fn set_luma(&mut self, val: T)
        ensures
            *final(self) == (YCbCr {
                ycbcr: BareYCbCr { luma: val, ..old(self).ycbcr_spec() },
                model: old(self).model_spec(),
            }),
    {
        self.ycbcr.set_luma(val);
    }

    /// Set the Cb channel to a value.
    pub fn set_cb(&mut self, val: T)
        ensures
            *final(self) == (YCbCr {
                ycbcr: BareYCbCr { cb: val, ..old(self).ycbcr_spec() },
                model: old(self).model_spec(),
            }),
    {
        self.ycbcr.set_cb(val);
    }

    /// Set the Cr channel to a value.
    pub fn set_cr(&mut self, val: T)
        ensures
            *final(self) == (YCbCr {
                ycbcr: BareYCbCr { cr: val, ..old(self).ycbcr_spec() },
                model: old(self).model_spec(),
            }),
    {
        self.ycbcr.set_cr(val);
    }

    /// Remove the model information from the given `YCbCr`.
    ///
    /// This returns a `BareYCbCr` with all the same channel values. No
    /// conversion happens; the model information is simply dropped.
    pub fn strip_model(self) -> (r: BareYCbCr<T>)
        ensures
            r == self.ycbcr_spec(),
    {
        self.ycbcr
    }

    pub fn num_channels() -> (n: u32)
        ensures
            n == 3,
    {
        3
    }

    /// Decompose the color into its ordered channel tuple.
    pub fn to_tuple(self) -> (r: (T, T, T))
        ensures
            r == (
                self.ycbcr_spec().luma_spec(),
                self.ycbcr_spec().cb_spec(),
                self.ycbcr_spec().cr_spec(),
            ),
    {
        self.ycbcr.to_tuple()
    }

    /// The channels as a contiguous sequence, in declared order.
    pub fn as_slice(&self) -> (r: Vec<T>)
        ensures
            r@ == seq![
                self.ycbcr_spec().luma_spec(),
                self.ycbcr_spec().cb_spec(),
                self.ycbcr_spec().cr_spec(),
            ],
    {
        self.ycbcr.as_slice()
    }
}

impl<T, M> YCbCr<T, M> where
    T: NormalChannelScalar + PosNormalChannelScalar,
    M: Copy + UnitModel<T>,
 {
    /// Construct a `YCbCr` from channel values.
    ///
    /// This method takes no model parameter and so is only usable for colors
    /// whose model is a stateless type implementing [`UnitModel`]; the model
    /// is set to `M::unit_value()`.
    pub fn from_channels(y: T, cb: T, cr: T) -> (r: Self)
        ensures
            r == (YCbCr { ycbcr: BareYCbCr { luma: y, cb, cr }, model: M::unit_spec() }),
    {
        YCbCr::from_channels_and_model(y, cb, cr, M::unit_value())
    }

    /// Construct a `YCbCr` from an ordered channel tuple.
    pub fn from_tuple(values: (T, T, T)) -> (r: Self)
        ensures
            r == (YCbCr {
                ycbcr: BareYCbCr { luma: values.0, cb: values.1, cr: values.2 },
                model: M::unit_spec(),
            }),
    {
        YCbCr::from_channels(values.0, values.1, values.2)
    }

    /// Construct a `YCbCr` from the first three values of a slice.
    ///
    /// A slice shorter than the channel count is a fatal precondition
    /// violation, not a recoverable result.
    pub fn from_slice(vals: &[T]) -> (r: Self)
        requires
            vals@.len() >= 3,
        ensures
            r == (YCbCr {
                ycbcr: BareYCbCr { luma: vals@[0], cb: vals@[1], cr: vals@[2] },
                model: M::unit_spec(),
            }),
    {
        YCbCr::from_channels(vals[0], vals[1], vals[2])
    }
}

impl<T, M> YCbCr<T, M> where
    T: NormalChannelScalar + PosNormalChannelScalar + FreeChannelScalar,
    M: Copy + Canonicalize<T>,
 {
    /// Return the channels rescaled to their canonical range for the given
    /// `YCbCr`'s model.
    ///
    /// Most YUV and YIQ standards define the chroma ranges to be different
    /// from the `[-1, 1]` used internally by this library; this returns the
    /// same color rescaled to the model's published range.
    pub fn to_canonical_representation(self) -> (r: (T, T, T))
        ensures
            r == (
                self.ycbcr_spec().luma_spec(),
                self.ycbcr_spec().cb_spec().r_mul_spec(M::canonical_scale_spec().0),
                self.ycbcr_spec().cr_spec().r_mul_spec(M::canonical_scale_spec().1),
            ),
    {
        let (scale_cb, scale_cr) = M::canonical_scale();
        (self.ycbcr.luma(), self.ycbcr.cb().r_mul(scale_cb), self.ycbcr.cr().r_mul(scale_cr))
    }
}

impl<T> YCbCr<T, YiqModel> where T: NormalChannelScalar + PosNormalChannelScalar {
    /// The `I` channel of a YIQ color.
    ///
    /// Because YIQ is implemented as a model on top of YCbCr, this is
    /// equivalent to `self.cb()`.
    pub fn i(&self) -> (r: T)
        ensures
            r == self.ycbcr_spec().cb_spec(),
    {
        self.cb()
    }

    /// The `Q` channel of a YIQ color.
    ///
    /// Because YIQ is implemented as a model on top of YCbCr, this is
    /// equivalent to `self.cr()`.
    pub fn q(&self) -> (r: T)
        ensures
            r == self.ycbcr_spec().cr_spec(),
    {
        self.cr()
    }

    /// Return a mutable reference to the `I` channel.
    pub fn i_mut(&mut self) -> (r: &mut T)
        ensures
            *r == old(self).ycbcr_spec().cb_spec(),
            *final(self) == (YCbCr {
                ycbcr: BareYCbCr { cb: *final(r), ..old(self).ycbcr_spec() },
                model: old(self).model_spec(),
            }),
    {
        self.cb_mut()
    }

    /// Return a mutable reference to the `Q` channel.
    pub fn q_mut(&mut self) -> (r: &mut T)
        ensures
            *r == old(self).ycbcr_spec().cr_spec(),
            *final(self) == (YCbCr {
                ycbcr: BareYCbCr { cr: *final(r), ..old(self).ycbcr_spec() },
                model: old(self).model_spec(),
            }),
    {
        self.cr_mut()
    }

    /// Set the `I` channel to a value.
    pub fn set_i(&mut self, val: T)
        ensures
            *final(self) == (YCbCr {
                ycbcr: BareYCbCr { cb: val, ..old(self).ycbcr_spec() },
                model: old(self).model_spec(),
            }),
    {
        self.set_cb(val)
    }

    /// Set the `Q` channel to a value.
    pub fn set_q(&mut self, val: T)
        ensures
            *final(self) == (YCbCr {
                ycbcr: BareYCbCr { cr: val, ..old(self).ycbcr_spec() },
                model: old(self).model_spec(),
            }),
    {
        self.set_cr(val)
    }
}

impl<T, M> Invert for YCbCr<T, M> where
    T: NormalChannelScalar + PosNormalChannelScalar,
    M: Copy,
 {
    open spec fn invert_spec(self) -> Self {
        YCbCr { ycbcr: self.ycbcr.invert_spec(), model: self.model }
    }

    fn invert(self) -> Self {
        YCbCr { ycbcr: self.ycbcr.invert(), model: self.model }
    }
}

impl<T, M> Bounded for YCbCr<T, M> where
    T: NormalChannelScalar + PosNormalChannelScalar,
    M: Copy,
 {
    open spec fn normalize_spec(self) -> Self {
        YCbCr { ycbcr: self.ycbcr.normalize_spec(), model: self.model }
    }

    open spec fn is_normalized_spec(self) -> bool {
        self.ycbcr.is_normalized_spec()
    }

    fn normalize(self) -> Self {
        YCbCr { ycbcr: self.ycbcr.normalize(), model: self.model }
    }

    fn is_normalized(&self) -> bool {
        self.ycbcr.is_normalized()
    }

    proof fn normalize_idempotent(self) {
        self.ycbcr.normalize_idempotent();
    }
}

impl<T, M, P> Lerp<P> for YCbCr<T, M> where
    T: NormalChannelScalar + PosNormalChannelScalar + Lerp<P>,
    M: Copy,
    P: Copy,
 {
    open spec fn lerp_spec(self, right: Self, pos: P) -> Self {
        YCbCr { ycbcr: self.ycbcr.lerp_spec(right.ycbcr, pos), model: self.model }
    }

    fn lerp(&self, right: &Self, pos: P) -> Self {
        YCbCr { ycbcr: self.ycbcr.lerp(&right.ycbcr, pos), model: self.model }
    }
}

impl<T, M> YCbCr<T, M> where T: NormalChannelScalar + PosNormalChannelScalar, M: Copy {
    /// Convert from RGB to YCbCr for unit models.
    pub fn from_rgb<R>(from: &Rgb<T>) -> (r: Self) where
        M: YCbCrModel<T, R> + UnitModel<T>,
        R: FreeChannelScalar,
        T: RealCast<R>,

        ensures
            (
                r.ycbcr_spec().luma_spec(),
                r.ycbcr_spec().cb_spec(),
                r.ycbcr_spec().cr_spec(),
            ) == from_rgb_channels_spec(*from, M::unit_spec()),
            r.model_spec() == M::unit_spec(),
    {
        Self::from_rgb_and_model(from, M::unit_value())
    }

    /// Convert from RGB to YCbCr, using `model`.
    ///
    /// The returned value stores the passed model.
    pub fn from_rgb_and_model<R>(from: &Rgb<T>, model: M) -> (r: Self) where
        M: YCbCrModel<T, R>,
        R: FreeChannelScalar,
        T: RealCast<R>,

        ensures
            (
                r.ycbcr_spec().luma_spec(),
                r.ycbcr_spec().cb_spec(),
                r.ycbcr_spec().cr_spec(),
            ) == from_rgb_channels_spec(*from, model),
            r.model_spec() == model,
    {
        let ycbcr = BareYCbCr::from_rgb_and_model(from, &model);
        YCbCr::from_color_and_model(ycbcr, model)
    }

    /// Convert from YCbCr to RGB under the stored model.
    ///
    /// `out_of_gamut_mode` selects how a result outside the RGB gamut is
    /// handled: preserved exactly or clipped into bounds.
    pub fn to_rgb<R>(&self, out_of_gamut_mode: OutOfGamutMode) -> (r: Rgb<T>) where
        M: YCbCrModel<T, R>,
        R: FreeChannelScalar,
        T: RealCast<R>,

        ensures
            (r.red_spec(), r.green_spec(), r.blue_spec()) == to_rgb_channels_spec(
                self.ycbcr_spec(),
                self.model_spec(),
                out_of_gamut_mode,
            ),
    {
        self.ycbcr.to_rgb(&self.model, out_of_gamut_mode)
    }

    /// Convert from RGB, like [`YCbCr::from_rgb`].
    pub fn from_color<R>(from: &Rgb<T>) -> (r: Self) where
        M: YCbCrModel<T, R> + UnitModel<T>,
        R: FreeChannelScalar,
        T: RealCast<R>,

        ensures
            (
                r.ycbcr_spec().luma_spec(),
                r.ycbcr_spec().cb_spec(),
                r.ycbcr_spec().cr_spec(),
            ) == from_rgb_channels_spec(*from, M::unit_spec()),
            r.model_spec() == M::unit_spec(),
    {
        YCbCr::from_rgb(from)
    }
}

impl<T> Rgb<T> where T: NormalChannelScalar + PosNormalChannelScalar {
    /// Convert from YCbCr to RGB, requiring the result to be in gamut.
    ///
    /// The exact transformation result is returned if every channel is in
    /// bounds, and absence is reported otherwise: an out-of-gamut result is
    /// not an error.
    pub fn try_from_color<M, R>(from: &YCbCr<T, M>) -> (r: Option<Rgb<T>>) where
        M: Copy + YCbCrModel<T, R>,
        R: FreeChannelScalar,
        T: RealCast<R>,

        ensures
            ({
                let c = to_rgb_channels_spec(
                    from.ycbcr_spec(),
                    from.model_spec(),
                    OutOfGamutMode::Preserve,
                );
                let out = (Rgb { red: c.0, green: c.1, blue: c.2 });
                if out.is_normalized_spec() {
                    r == Some(out)
                } else {
                    r == None::<Rgb<T>>
                }
            }),
    {
        let out = from.to_rgb(OutOfGamutMode::Preserve);
        if out.is_normalized() {
            Some(out)
        } else {
            None
        }
    }
}

/// Inverting a `YCbCr` with 8-bit channels twice returns the original color
/// exactly; the model is carried through unchanged.
pub proof fn lemma_ycbcr_invert_involutive_u8<M: Copy>(c: YCbCr<u8, M>)
    ensures
        c.invert_spec().invert_spec() == c,
{
}

/// Inverting a `YCbCr` with 16-bit channels twice returns the original color
/// exactly; the model is carried through unchanged.
pub proof fn lemma_ycbcr_invert_involutive_u16<M: Copy>(c: YCbCr<u16, M>)
    ensures
        c.invert_spec().invert_spec() == c,
{
}

/// Inverting a `YCbCr` with 32-bit channels twice returns the original color
/// exactly; the model is carried through unchanged.
pub proof fn lemma_ycbcr_invert_involutive_u32<M: Copy>(c: YCbCr<u32, M>)
    ensures
        c.invert_spec().invert_spec() == c,
{
}

} // verus!
