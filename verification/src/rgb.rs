//! The RGB device color space: three bounded-positive channels.

use vstd::prelude::*;
use crate::alpha::Alpha;
use crate::channel::PosNormalChannelScalar;
use crate::color::Bounded;

verus! {

/// A unit struct for identifying and constraining RGB colors in generic code.
pub struct RgbTag;

/// An additive RGB color: red, green and blue, each bounded positive.
#[derive(Clone, Copy, Debug, PartialEq)]
pub struct Rgb<T> {
    pub red: T,
    pub green: T,
    pub blue: T,
}

impl<T: PosNormalChannelScalar> Rgb<T> {
    pub open spec fn red_spec(self) -> T {
        self.red
    }

    pub open spec fn green_spec(self) -> T {
        self.green
    }

    pub open spec fn blue_spec(self) -> T {
        self.blue
    }

    /// Construct an `Rgb` from channel values.
    pub fn from_channels(red: T, green: T, blue: T) -> (r: Self)
        ensures
            r.red_spec() == red,
            r.green_spec() == green,
            r.blue_spec() == blue,
    {
        Rgb { red, green, blue }
    }

    /// Get the red channel.
    pub fn red(&self) -> (r: T)
        ensures
            r == self.red_spec(),
    {
        self.red
    }

    /// Get the green channel.
    pub fn green(&self) -> (r: T)
        ensures
            r == self.green_spec(),
    {
        self.green
    }

    /// Get the blue channel.
    pub fn blue(&self) -> (r: T)
        ensures
            r == self.blue_spec(),
    {
        self.blue
    }

    pub fn num_channels() -> (n: u32)
        ensures
            n == 3,
    {
        3
    }

    /// Decompose the color into its ordered channel tuple.
    pub fn to_tuple(self) -> (r: (T, T, T))
        ensures
            r == (self.red_spec(), self.green_spec(), self.blue_spec()),
    {
        (self.red, self.green, self.blue)
    }

    /// Construct an `Rgb` from an ordered channel tuple.
    pub fn from_tuple(values: (T, T, T)) -> (r: Self)
        ensures
            r.red_spec() == values.0,
            r.green_spec() == values.1,
            r.blue_spec() == values.2,
    {
        Rgb { red: values.0, green: values.1, blue: values.2 }
    }
}

impl<T: PosNormalChannelScalar> Bounded for Rgb<T> {
    open spec fn normalize_spec(self) -> Self {
        Rgb {
            red: self.red.pos_normalize_spec(),
            green: self.green.pos_normalize_spec(),
            blue: self.blue.pos_normalize_spec(),
        }
    }

    open spec fn is_normalized_spec(self) -> bool {
        self.red.pos_is_normalized_spec() && self.green.pos_is_normalized_spec()
            && self.blue.pos_is_normalized_spec()
    }

    fn normalize(self) -> Self {
        Rgb {
            red: self.red.pos_normalize(),
            green: self.green.pos_normalize(),
            blue: self.blue.pos_normalize(),
        }
    }

    fn is_normalized(&self) -> bool {
        self.red.pos_is_normalized() && self.green.pos_is_normalized()
            && self.blue.pos_is_normalized()
    }

    proof fn normalize_idempotent(self) {
        self.red.pos_normalize_idempotent();
        self.green.pos_normalize_idempotent();
        self.blue.pos_normalize_idempotent();
    }
}

/// An RGB color with an alpha channel.
pub type Rgba<T> = Alpha<T, Rgb<T>>;

impl<T: PosNormalChannelScalar> Rgba<T> {
    pub fn num_channels() -> (n: u32)
        ensures
            n == 4,
    {
        4
    }

    /// The channels as a contiguous sequence: the inner color's channels in
    /// declared order, with alpha appended as the last element.
    pub fn as_slice(&self) -> (r: Vec<T>)
        ensures
            r@ == seq![
                self.color_spec().red_spec(),
                self.color_spec().green_spec(),
                self.color_spec().blue_spec(),
                self.alpha_spec(),
            ],
    {
        let mut v: Vec<T> = Vec::new();
        v.push(self.color().red());
        v.push(self.color().green());
        v.push(self.color().blue());
        v.push(self.alpha());
        proof {
            assert(v@ =~= seq![
                self.color_spec().red_spec(),
                self.color_spec().green_spec(),
                self.color_spec().blue_spec(),
                self.alpha_spec(),
            ]);
        }
        v
    }

    /// Construct an `Rgba` from the first four values of a slice.
    ///
    /// A slice shorter than the channel count is a fatal precondition
    /// violation, not a recoverable result.
    pub fn from_slice(vals: &[T]) -> (r: Self)
        requires
            vals@.len() >= 4,
        ensures
            r.color_spec() == (Rgb { red: vals@[0], green: vals@[1], blue: vals@[2] }),
            r.alpha_spec() == vals@[3],
    {
        Alpha::from_color_and_alpha(
            Rgb::from_channels(vals[0], vals[1], vals[2]),
            vals[3],
        )
    }
}

} // verus!
