//! The contract framework every concrete color composes: the capability
//! traits a color type implements for exactly the operations its channels
//! support.

use vstd::prelude::*;

verus! {

/// A color whose channels can be reflected within their bounds.
///
/// Bounded channels invert to `min + max - value`; applying `invert` twice
/// returns the original color exactly for integer channels (see the
/// per-representation involution lemmas beside the implementations).
pub trait Invert: Copy + Sized {
    /// The exact color `invert` produces.
    open spec fn invert_spec(self) -> Self {
        vstd::pervasive::arbitrary()
    }

    fn invert(self) -> (r: Self)
        ensures
            r == self.invert_spec(),
    ;
}

/// A color whose channels are confined to bounds.
///
/// `normalize` clamps every channel independently into its bounds and is
/// idempotent; a law every implementation must prove.
pub trait Bounded: Copy + Sized {
    /// The exact color `normalize` produces.
    open spec fn normalize_spec(self) -> Self {
        vstd::pervasive::arbitrary()
    }

    /// Whether every channel lies within its bounds.
    open spec fn is_normalized_spec(self) -> bool {
        vstd::pervasive::arbitrary()
    }

    fn normalize(self) -> (r: Self)
        ensures
            r == self.normalize_spec(),
    ;

    fn is_normalized(&self) -> (r: bool)
        ensures
            r == self.is_normalized_spec(),
    ;

    /// Normalizing twice gives the same color as normalizing once.
    proof fn normalize_idempotent(self)
        ensures
            self.normalize_spec().normalize_spec() == self.normalize_spec(),
    ;
}

/// A value that interpolates linearly towards another by a position `P`.
///
/// The position is deliberately not clamped to `[0, 1]`: callers may
/// extrapolate. Each channel representation interpolates with its own
/// numeric semantics, so the position type comes from the numeric
/// foundation and is a parameter here.
pub trait Lerp<P: Copy>: Copy + Sized {
    /// The exact value `lerp` produces.
    open spec fn lerp_spec(self, right: Self, pos: P) -> Self {
        vstd::pervasive::arbitrary()
    }

    fn lerp(&self, right: &Self, pos: P) -> (r: Self)
        ensures
            r == self.lerp_spec(*right, pos),
    ;
}

} // verus!
