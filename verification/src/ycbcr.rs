//! The YCbCr family of color spaces: a luma channel plus two chroma
//! channels, related to RGB by a per-model 3x3 matrix and shift.

pub mod bare_ycbcr;
pub mod model;

pub use bare_ycbcr::{BareYCbCr, OutOfGamutMode, YCbCrTag};
pub use model::{build_transform, Canonicalize, CustomYCbCrModel, JpegModel, StandardShift, UnitModel, YCbCrModel, YCbCrShift, YiqModel};

mod ycbcr_color;

pub use ycbcr_color::{YCbCr, YCbCrCustom, YCbCrJpeg, Yiq};
