//! The alpha decorator: wraps any inner color with one additional
//! bounded-positive alpha channel, delegating every contract operation to the
//! inner color and handling the alpha channel identically and independently.

use vstd::prelude::*;
use core::marker::PhantomData;
use crate::channel::PosNormalChannelScalar;
use crate::color::{Bounded, Invert, Lerp};

verus! {

/// A unit struct for identifying and constraining alpha-decorated colors in
/// generic code.
pub struct AlphaTag<T>(pub PhantomData<T>);

/// An inner color plus an independent alpha channel.
#[derive(Clone, Copy, Debug, PartialEq)]
pub struct Alpha<T, InnerColor> {
    pub color: InnerColor,
    pub alpha: T,
}

impl<T, InnerColor> Alpha<T, InnerColor> where T: PosNormalChannelScalar, InnerColor: Copy {
    pub open spec fn color_spec(self) -> InnerColor {
        self.color
    }

    pub open spec fn alpha_spec(self) -> T {
        self.alpha
    }

    /// Construct an `Alpha` from an inner color and an alpha value.
    pub fn from_color_and_alpha(color: InnerColor, alpha: T) -> (r: Self)
        ensures
            r == (Alpha { color, alpha }),
    {
        Alpha { color, alpha }
    }

    /// Split the color back into its inner color and alpha value.
    pub fn decompose(self) -> (r: (InnerColor, T))
        ensures
            r == (self.color_spec(), self.alpha_spec()),
    {
        (self.color, self.alpha)
    }

    /// Get a reference to the inner color.
    pub fn color(&self) -> (r: &InnerColor)
        ensures
            *r == self.color_spec(),
    {
        &self.color
    }

    /// Get the alpha channel.
    pub fn alpha(&self) -> (r: T)
        ensures
            r == self.alpha_spec(),
    {
        self.alpha
    }

    /// Get a mutable reference to the inner color.
    pub fn color_mut(&mut self) -> (r: &mut InnerColor)
        ensures
            *r == old(self).color_spec(),
            *final(self) == (Alpha { color: *final(r), alpha: old(self).alpha_spec() }),
    {
        &mut self.color
    }

    /// Get a mutable reference to the alpha channel.
    pub fn alpha_mut(&mut self) -> (r: &mut T)
        ensures
            *r == old(self).alpha_spec(),
            *final(self) == (Alpha { color: old(self).color_spec(), alpha: *final(r) }),
    {
        &mut self.alpha
    }

    /// Replace the inner color.
    pub fn set_color(&mut self, color: InnerColor)
        ensures
            *final(self) == (Alpha { color, alpha: old(self).alpha_spec() }),
    {
        self.color = color;
    }

    /// Set the alpha channel to a value.
    pub fn set_alpha(&mut self, alpha: T)
        ensures
            *final(self) == (Alpha { color: old(self).color_spec(), alpha }),
    {
        self.alpha = alpha;
    }
}

impl<T, InnerColor> Invert for Alpha<T, InnerColor> where
    T: PosNormalChannelScalar,
    InnerColor: Invert,
 {
    open spec fn invert_spec(self) -> Self {
        Alpha { color: self.color.invert_spec(), alpha: self.alpha.pos_invert_spec() }
    }

    fn invert(self) -> Self {
        Alpha { color: self.color.invert(), alpha: self.alpha.pos_invert() }
    }
}

impl<T, InnerColor> Bounded for Alpha<T, InnerColor> where
    T: PosNormalChannelScalar,
    InnerColor: Bounded,
 {
    open spec fn normalize_spec(self) -> Self {
        Alpha { color: self.color.normalize_spec(), alpha: self.alpha.pos_normalize_spec() }
    }

    open spec fn is_normalized_spec(self) -> bool {
        self.color.is_normalized_spec() && self.alpha.pos_is_normalized_spec()
    }

    fn normalize(self) -> Self {
        Alpha { color: self.color.normalize(), alpha: self.alpha.pos_normalize() }
    }

    fn is_normalized(&self) -> bool {
        self.color.is_normalized() && self.alpha.pos_is_normalized()
    }

    proof fn normalize_idempotent(self) {
        self.color.normalize_idempotent();
        self.alpha.pos_normalize_idempotent();
    }
}

impl<T, InnerColor, P> Lerp<P> for Alpha<T, InnerColor> where
    T: PosNormalChannelScalar + Lerp<P>,
    InnerColor: Lerp<P>,
    P: Copy,
 {
    open spec fn lerp_spec(self, right: Self, pos: P) -> Self {
        Alpha {
            color: self.color.lerp_spec(right.color, pos),
            alpha: self.alpha.lerp_spec(right.alpha, pos),
        }
    }

    fn lerp(&self, right: &Self, pos: P) -> Self {
        Alpha {
            color: self.color.lerp(&right.color, pos),
            alpha: self.alpha.lerp(&right.alpha, pos),
        }
    }
}

/// Inverting an alpha-decorated color twice returns the original color
/// whenever inverting the inner color twice does; the 8-bit alpha channel
/// round-trips exactly.
pub proof fn lemma_alpha_invert_involutive_u8<InnerColor: Invert>(c: Alpha<u8, InnerColor>)
    requires
        c.color_spec().invert_spec().invert_spec() == c.color_spec(),
    ensures
        c.invert_spec().invert_spec() == c,
{
}

} // verus!
