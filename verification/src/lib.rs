//! Colors as fixed-arity tuples of channel scalars.
//!
//! Every color type is generic over the scalar representation of its
//! channels. Integer scalars are implemented and verified here; real-valued
//! (floating point) scalars are supplied by the embedding application through
//! the scalar traits of [`channel`], which act as the interface to the
//! numeric foundation.

#![allow(non_snake_case)]

pub mod alpha;
pub mod channel;
pub mod color;
pub mod color_space;
pub mod lab;
pub mod linalg;
pub mod rgb;
pub mod white_point;
pub mod xyy;
pub mod xyz;
pub mod ycbcr;
