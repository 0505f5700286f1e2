//! Channel scalars: the numeric kinds a color channel can be stored in, and
//! bit-exact casting between them.
//!
//! The traits here are the library's interface to its numeric foundation.
//! Unsigned integer scalars are implemented and verified in this crate; the
//! real-valued (floating point) scalars that several color spaces need are
//! implemented by the embedding application, which supplies the foundation's
//! arithmetic through these same traits.
//!
//! Every executable operation is paired with a specification-level mirror
//! (`*_spec`). The mirrors default to an unspecified value, so an
//! implementation outside this crate supplies only the executable members
//! and its operations are treated as opaque pure functions; the integer
//! implementations here override each mirror with its exact definition.

use vstd::prelude::*;

verus! {

/// Conversion between channel storage formats.
///
/// A cast maps the source format onto the destination format so that the
/// represented channel intensity is preserved: widening an integer replicates
/// its bit pattern (so the maximum maps to the maximum), narrowing keeps the
/// most-significant bits. Casts are total: no input fails.
pub trait ChannelFormatCast<Out>: Sized {
    /// The exact value this cast produces.
    open spec fn cast_spec(self) -> Out {
        vstd::pervasive::arbitrary()
    }

    fn cast(self) -> (r: Out)
        ensures
            r == self.cast_spec(),
    ;
}

impl ChannelFormatCast<u8> for u8 {
    open spec fn cast_spec(self) -> u8 {
        self
    }

    fn cast(self) -> u8 {
        self
    }
}

impl ChannelFormatCast<u16> for u8 {
    open spec fn cast_spec(self) -> u16 {
        (self * 0x0101) as u16
    }

    fn cast(self) -> u16 {
        (self as u16) * 0x0101
    }
}

impl ChannelFormatCast<u32> for u8 {
    open spec fn cast_spec(self) -> u32 {
        (self * 0x0101_0101) as u32
    }

    fn cast(self) -> u32 {
        (self as u32) * 0x0101_0101
    }
}

impl ChannelFormatCast<u64> for u8 {
    open spec fn cast_spec(self) -> u64 {
        (self * 0x0101_0101_0101_0101) as u64
    }

    fn cast(self) -> u64 {
        (self as u64) * 0x0101_0101_0101_0101
    }
}

impl ChannelFormatCast<u8> for u16 {
    open spec fn cast_spec(self) -> u8 {
        (self >> 8) as u8
    }

    fn cast(self) -> u8 {
        (self >> 8) as u8
    }
}

impl ChannelFormatCast<u16> for u16 {
    open spec fn cast_spec(self) -> u16 {
        self
    }

    fn cast(self) -> u16 {
        self
    }
}

impl ChannelFormatCast<u32> for u16 {
    open spec fn cast_spec(self) -> u32 {
        (self * 0x0001_0001) as u32
    }

    fn cast(self) -> u32 {
        (self as u32) * 0x0001_0001
    }
}

impl ChannelFormatCast<u64> for u16 {
    open spec fn cast_spec(self) -> u64 {
        (self * 0x0001_0001_0001_0001) as u64
    }

    fn cast(self) -> u64 {
        (self as u64) * 0x0001_0001_0001_0001
    }
}

impl ChannelFormatCast<u8> for u32 {
    open spec fn cast_spec(self) -> u8 {
        (self >> 24) as u8
    }

    fn cast(self) -> u8 {
        (self >> 24) as u8
    }
}

impl ChannelFormatCast<u16> for u32 {
    open spec fn cast_spec(self) -> u16 {
        (self >> 16) as u16
    }

    fn cast(self) -> u16 {
        (self >> 16) as u16
    }
}

impl ChannelFormatCast<u32> for u32 {
    open spec fn cast_spec(self) -> u32 {
        self
    }

    fn cast(self) -> u32 {
        self
    }
}

impl ChannelFormatCast<u64> for u32 {
    open spec fn cast_spec(self) -> u64 {
        (self * 0x0000_0001_0000_0001) as u64
    }

    fn cast(self) -> u64 {
        (self as u64) * 0x0000_0001_0000_0001
    }
}

impl ChannelFormatCast<u8> for u64 {
    open spec fn cast_spec(self) -> u8 {
        (self >> 56) as u8
    }

    fn cast(self) -> u8 {
        (self >> 56) as u8
    }
}

impl ChannelFormatCast<u16> for u64 {
    open spec fn cast_spec(self) -> u16 {
        (self >> 48) as u16
    }

    fn cast(self) -> u16 {
        (self >> 48) as u16
    }
}

impl ChannelFormatCast<u32> for u64 {
    open spec fn cast_spec(self) -> u32 {
        (self >> 32) as u32
    }

    fn cast(self) -> u32 {
        (self >> 32) as u32
    }
}

impl ChannelFormatCast<u64> for u64 {
    open spec fn cast_spec(self) -> u64 {
        self
    }

    fn cast(self) -> u64 {
        self
    }
}


/// Conversion between channel storage formats for a bounded-symmetric
/// channel.
///
/// Between two integer formats, or between two real formats, a symmetric
/// channel converts exactly like a bounded-positive one. Between an integer
/// and a real format the value is additionally recentred: the integer range
/// stands for `[-1, 1]`, not `[0, 1]`, so the conversion shifts by half the
/// range. Those mixed conversions are supplied by the numeric foundation.
pub trait NormalChannelFormatCast<Out>: Sized {
    /// The exact value this cast produces.
    open spec fn norm_cast_spec(self) -> Out {
        vstd::pervasive::arbitrary()
    }

    fn norm_cast(self) -> (r: Out)
        ensures
            r == self.norm_cast_spec(),
    ;
}

impl NormalChannelFormatCast<u8> for u8 {
    open spec fn norm_cast_spec(self) -> u8 {
        ChannelFormatCast::<u8>::cast_spec(self)
    }

    fn norm_cast(self) -> u8 {
        ChannelFormatCast::<u8>::cast(self)
    }
}

impl NormalChannelFormatCast<u16> for u8 {
    open spec fn norm_cast_spec(self) -> u16 {
        ChannelFormatCast::<u16>::cast_spec(self)
    }

    fn norm_cast(self) -> u16 {
        ChannelFormatCast::<u16>::cast(self)
    }
}

impl NormalChannelFormatCast<u32> for u8 {
    open spec fn norm_cast_spec(self) -> u32 {
        ChannelFormatCast::<u32>::cast_spec(self)
    }

    fn norm_cast(self) -> u32 {
        ChannelFormatCast::<u32>::cast(self)
    }
}

impl NormalChannelFormatCast<u8> for u16 {
    open spec fn norm_cast_spec(self) -> u8 {
        ChannelFormatCast::<u8>::cast_spec(self)
    }

    fn norm_cast(self) -> u8 {
        ChannelFormatCast::<u8>::cast(self)
    }
}

impl NormalChannelFormatCast<u16> for u16 {
    open spec fn norm_cast_spec(self) -> u16 {
        ChannelFormatCast::<u16>::cast_spec(self)
    }

    fn norm_cast(self) -> u16 {
        ChannelFormatCast::<u16>::cast(self)
    }
}

impl NormalChannelFormatCast<u32> for u16 {
    open spec fn norm_cast_spec(self) -> u32 {
        ChannelFormatCast::<u32>::cast_spec(self)
    }

    fn norm_cast(self) -> u32 {
        ChannelFormatCast::<u32>::cast(self)
    }
}

impl NormalChannelFormatCast<u8> for u32 {
    open spec fn norm_cast_spec(self) -> u8 {
        ChannelFormatCast::<u8>::cast_spec(self)
    }

    fn norm_cast(self) -> u8 {
        ChannelFormatCast::<u8>::cast(self)
    }
}

impl NormalChannelFormatCast<u16> for u32 {
    open spec fn norm_cast_spec(self) -> u16 {
        ChannelFormatCast::<u16>::cast_spec(self)
    }

    fn norm_cast(self) -> u16 {
        ChannelFormatCast::<u16>::cast(self)
    }
}

impl NormalChannelFormatCast<u32> for u32 {
    open spec fn norm_cast_spec(self) -> u32 {
        ChannelFormatCast::<u32>::cast_spec(self)
    }

    fn norm_cast(self) -> u32 {
        ChannelFormatCast::<u32>::cast(self)
    }
}

/// Widening an 8-bit channel to 16 bits and narrowing it back returns the
/// original value: the most-significant byte of `v * 0x0101` is `v`.
pub proof fn lemma_cast_round_trip_u8_u16(v: u8)
    ensures
        ChannelFormatCast::<u8>::cast_spec(ChannelFormatCast::<u16>::cast_spec(v)) == v,
{
    assert(((((v as u16) * 0x0101) as u16) >> 8) as u8 == v) by (bit_vector);
}

/// Widening an 8-bit channel to 32 bits and narrowing it back returns the
/// original value.
pub proof fn lemma_cast_round_trip_u8_u32(v: u8)
    ensures
        ChannelFormatCast::<u8>::cast_spec(ChannelFormatCast::<u32>::cast_spec(v)) == v,
{
    assert(((((v as u32) * 0x0101_0101) as u32) >> 24) as u8 == v) by (bit_vector);
}

/// Widening a 16-bit channel to 32 bits and narrowing it back returns the
/// original value.
pub proof fn lemma_cast_round_trip_u16_u32(v: u16)
    ensures
        ChannelFormatCast::<u16>::cast_spec(ChannelFormatCast::<u32>::cast_spec(v)) == v,
{
    assert(((((v as u32) * 0x0001_0001) as u32) >> 16) as u16 == v) by (bit_vector);
}

/// Widening a 32-bit channel to 64 bits and narrowing it back returns the
/// original value.
pub proof fn lemma_cast_round_trip_u32_u64(v: u32)
    ensures
        ChannelFormatCast::<u32>::cast_spec(ChannelFormatCast::<u64>::cast_spec(v)) == v,
{
    assert(((((v as u64) * 0x0000_0001_0000_0001) as u64) >> 32) as u32 == v) by (bit_vector);
}

/// Widening casts carry the extremes to the extremes: zero maps to zero and
/// the maximum maps to the maximum, so the full intensity range is preserved.
pub proof fn lemma_cast_widen_preserves_extremes()
    ensures
        ChannelFormatCast::<u16>::cast_spec(0xFFu8) == 0xFFFFu16,
        ChannelFormatCast::<u32>::cast_spec(0xFFu8) == 0xFFFF_FFFFu32,
        ChannelFormatCast::<u64>::cast_spec(0xFFu8) == 0xFFFF_FFFF_FFFF_FFFFu64,
        ChannelFormatCast::<u16>::cast_spec(0u8) == 0u16,
        ChannelFormatCast::<u32>::cast_spec(0u8) == 0u32,
        ChannelFormatCast::<u64>::cast_spec(0u8) == 0u64,
{
}


/// A scalar that a bounded channel can be stored in.
///
/// The one arithmetic operation the engine itself performs in the channel's
/// own domain is adding a per-channel shift; integer representations wrap
/// modulo their width, mirroring two's-complement addition.
pub trait BoundedChannelScalar: Copy + Sized {
    /// The exact sum `self + o` in the scalar's own arithmetic.
    open spec fn chan_add_spec(self, o: Self) -> Self {
        vstd::pervasive::arbitrary()
    }

    fn chan_add(self, o: Self) -> (r: Self)
        ensures
            r == self.chan_add_spec(o),
    ;
}

/// A scalar usable for a bounded-positive channel, ranging over
/// `[pos_min, pos_max]`.
///
/// For the unsigned integer representations the bounds are the full type
/// range, so every value is already normalized and `pos_normalize` is the
/// identity. Real-valued representations bound the channel to `[0, 1]` and
/// normalize by clamping; they are supplied by the embedding application.
pub trait PosNormalChannelScalar: BoundedChannelScalar {
    open spec fn pos_min_spec() -> Self {
        vstd::pervasive::arbitrary()
    }

    open spec fn pos_max_spec() -> Self {
        vstd::pervasive::arbitrary()
    }

    /// Whether the value lies within `[pos_min, pos_max]`.
    open spec fn pos_is_normalized_spec(self) -> bool {
        vstd::pervasive::arbitrary()
    }

    /// The value clamped into `[pos_min, pos_max]`.
    open spec fn pos_normalize_spec(self) -> Self {
        vstd::pervasive::arbitrary()
    }

    /// The value reflected within its bounds: `pos_min + pos_max - self`.
    open spec fn pos_invert_spec(self) -> Self {
        vstd::pervasive::arbitrary()
    }

    fn pos_min_bound() -> (r: Self)
        ensures
            r == Self::pos_min_spec(),
    ;

    fn pos_max_bound() -> (r: Self)
        ensures
            r == Self::pos_max_spec(),
    ;

    fn pos_is_normalized(&self) -> (r: bool)
        ensures
            r == self.pos_is_normalized_spec(),
    ;

    fn pos_normalize(self) -> (r: Self)
        ensures
            r == self.pos_normalize_spec(),
    ;

    fn pos_invert(self) -> (r: Self)
        ensures
            r == self.pos_invert_spec(),
    ;

    /// Clamping into bounds is idempotent.
    proof fn pos_normalize_idempotent(self)
        ensures
            self.pos_normalize_spec().pos_normalize_spec() == self.pos_normalize_spec(),
    ;

    /// A value already in bounds is left unchanged by normalization.
    proof fn pos_normalize_of_normalized(self)
        requires
            self.pos_is_normalized_spec(),
        ensures
            self.pos_normalize_spec() == self,
    ;
}

/// A scalar usable for a bounded-symmetric channel, ranging over
/// `[norm_min, norm_max]`.
///
/// Integer representations store such channels shifted into their full
/// unsigned range, so the bounds are again the whole type range. Real-valued
/// representations use `[-1, 1]`.
pub trait NormalChannelScalar: BoundedChannelScalar {
    open spec fn norm_min_spec() -> Self {
        vstd::pervasive::arbitrary()
    }

    open spec fn norm_max_spec() -> Self {
        vstd::pervasive::arbitrary()
    }

    /// Whether the value lies within `[norm_min, norm_max]`.
    open spec fn norm_is_normalized_spec(self) -> bool {
        vstd::pervasive::arbitrary()
    }

    /// The value clamped into `[norm_min, norm_max]`.
    open spec fn norm_normalize_spec(self) -> Self {
        vstd::pervasive::arbitrary()
    }

    /// The value reflected within its bounds: `norm_min + norm_max - self`.
    open spec fn norm_invert_spec(self) -> Self {
        vstd::pervasive::arbitrary()
    }

    fn norm_min_bound() -> (r: Self)
        ensures
            r == Self::norm_min_spec(),
    ;

    fn norm_max_bound() -> (r: Self)
        ensures
            r == Self::norm_max_spec(),
    ;

    fn norm_is_normalized(&self) -> (r: bool)
        ensures
            r == self.norm_is_normalized_spec(),
    ;

    fn norm_normalize(self) -> (r: Self)
        ensures
            r == self.norm_normalize_spec(),
    ;

    fn norm_invert(self) -> (r: Self)
        ensures
            r == self.norm_invert_spec(),
    ;

    /// Clamping into bounds is idempotent.
    proof fn norm_normalize_idempotent(self)
        ensures
            self.norm_normalize_spec().norm_normalize_spec() == self.norm_normalize_spec(),
    ;

    /// A value already in bounds is left unchanged by normalization.
    proof fn norm_normalize_of_normalized(self)
        requires
            self.norm_is_normalized_spec(),
        ensures
            self.norm_normalize_spec() == self,
    ;
}

/// A scalar usable for an unbounded ("free") channel, together with the real
/// arithmetic the conversion engines run on.
///
/// No type in this crate implements it: it is the interface to the numeric
/// foundation, implemented by the embedding application for its real number
/// types. Each operation is a pure function of its arguments; nothing more is
/// assumed of the foundation's arithmetic.
pub trait FreeChannelScalar: Copy + Sized {
    open spec fn zero_spec() -> Self {
        vstd::pervasive::arbitrary()
    }

    open spec fn one_spec() -> Self {
        vstd::pervasive::arbitrary()
    }

    /// The representation of the exact rational `num / den`.
    open spec fn from_ratio_spec(num: i64, den: u64) -> Self {
        vstd::pervasive::arbitrary()
    }

    open spec fn r_add_spec(self, o: Self) -> Self {
        vstd::pervasive::arbitrary()
    }

    open spec fn r_sub_spec(self, o: Self) -> Self {
        vstd::pervasive::arbitrary()
    }

    open spec fn r_mul_spec(self, o: Self) -> Self {
        vstd::pervasive::arbitrary()
    }

    open spec fn r_div_spec(self, o: Self) -> Self {
        vstd::pervasive::arbitrary()
    }

    /// The cube root.
    open spec fn r_cbrt_spec(self) -> Self {
        vstd::pervasive::arbitrary()
    }

    /// The strict order `self < o`.
    open spec fn r_lt_spec(self, o: Self) -> bool {
        vstd::pervasive::arbitrary()
    }

    /// The order `self <= o`.
    open spec fn r_le_spec(self, o: Self) -> bool {
        vstd::pervasive::arbitrary()
    }

    /// The equality test of the foundation's arithmetic.
    open spec fn r_eq_spec(self, o: Self) -> bool {
        vstd::pervasive::arbitrary()
    }

    fn zero() -> (r: Self)
        ensures
            r == Self::zero_spec(),
    ;

    fn one() -> (r: Self)
        ensures
            r == Self::one_spec(),
    ;

    fn from_ratio(num: i64, den: u64) -> (r: Self)
        ensures
            r == Self::from_ratio_spec(num, den),
    ;

    fn r_add(self, o: Self) -> (r: Self)
        ensures
            r == self.r_add_spec(o),
    ;

    fn r_sub(self, o: Self) -> (r: Self)
        ensures
            r == self.r_sub_spec(o),
    ;

    fn r_mul(self, o: Self) -> (r: Self)
        ensures
            r == self.r_mul_spec(o),
    ;

    fn r_div(self, o: Self) -> (r: Self)
        ensures
            r == self.r_div_spec(o),
    ;

    fn r_cbrt(self) -> (r: Self)
        ensures
            r == self.r_cbrt_spec(),
    ;

    fn r_lt(self, o: Self) -> (b: bool)
        ensures
            b == self.r_lt_spec(o),
    ;

    fn r_le(self, o: Self) -> (b: bool)
        ensures
            b == self.r_le_spec(o),
    ;

    fn r_eq(self, o: Self) -> (b: bool)
        ensures
            b == self.r_eq_spec(o),
    ;
}

/// A scalar usable for an angular (periodic) channel, such as a hue.
///
/// No type in this crate implements it: like [`FreeChannelScalar`] it is the
/// interface to the periodic-angle part of the numeric foundation.
pub trait AngularChannelScalar: Copy + Sized {
    open spec fn ang_min_spec() -> Self {
        vstd::pervasive::arbitrary()
    }

    /// One full period of the angular unit.
    open spec fn ang_max_spec() -> Self {
        vstd::pervasive::arbitrary()
    }

    /// Whether the value lies within `[ang_min, ang_max)`.
    open spec fn ang_is_normalized_spec(self) -> bool {
        vstd::pervasive::arbitrary()
    }

    /// The value wrapped into `[ang_min, ang_max)`.
    open spec fn ang_normalize_spec(self) -> Self {
        vstd::pervasive::arbitrary()
    }

    fn ang_min_bound() -> (r: Self)
        ensures
            r == Self::ang_min_spec(),
    ;

    fn ang_max_bound() -> (r: Self)
        ensures
            r == Self::ang_max_spec(),
    ;

    fn ang_is_normalized(&self) -> (r: bool)
        ensures
            r == self.ang_is_normalized_spec(),
    ;

    fn ang_normalize(self) -> (r: Self)
        ensures
            r == self.ang_normalize_spec(),
    ;

    /// Wrapping into the period is idempotent.
    proof fn ang_normalize_idempotent(self)
        ensures
            self.ang_normalize_spec().ang_normalize_spec() == self.ang_normalize_spec(),
    ;
}

/// Raw-value conversion between a channel scalar and the real scalar the
/// transform engines compute in.
///
/// Unlike [`ChannelFormatCast`] this does not rescale: an integer converts to
/// the real number of the same magnitude. Conversion back to an integer
/// truncates and saturates at the integer's bounds, so it is total.
/// Implemented by the embedding application alongside its real types.
pub trait RealCast<R>: Copy + Sized {
    open spec fn to_real_spec(self) -> R {
        vstd::pervasive::arbitrary()
    }

    open spec fn from_real_spec(r: R) -> Self {
        vstd::pervasive::arbitrary()
    }

    fn to_real(self) -> (r: R)
        ensures
            r == self.to_real_spec(),
    ;

    fn from_real(r: R) -> (t: Self)
        ensures
            t == Self::from_real_spec(r),
    ;
}

impl BoundedChannelScalar for u8 {
    open spec fn chan_add_spec(self, o: Self) -> Self {
        ((self + o) % 0x100) as u8
    }

    fn chan_add(self, o: Self) -> Self {
        ((self as u16 + o as u16) % 0x100) as u8
    }
}

impl BoundedChannelScalar for u16 {
    open spec fn chan_add_spec(self, o: Self) -> Self {
        ((self + o) % 0x1_0000) as u16
    }

    fn chan_add(self, o: Self) -> Self {
        ((self as u32 + o as u32) % 0x1_0000) as u16
    }
}

impl BoundedChannelScalar for u32 {
    open spec fn chan_add_spec(self, o: Self) -> Self {
        ((self + o) % 0x1_0000_0000) as u32
    }

    fn chan_add(self, o: Self) -> Self {
        ((self as u64 + o as u64) % 0x1_0000_0000) as u32
    }
}

impl PosNormalChannelScalar for u8 {
    open spec fn pos_min_spec() -> Self {
        0
    }

    open spec fn pos_max_spec() -> Self {
        0xFF
    }

    open spec fn pos_is_normalized_spec(self) -> bool {
        true
    }

    open spec fn pos_normalize_spec(self) -> Self {
        self
    }

    open spec fn pos_invert_spec(self) -> Self {
        (0xFF - self) as u8
    }

    fn pos_min_bound() -> Self {
        0
    }

    fn pos_max_bound() -> Self {
        0xFF
    }

    fn pos_is_normalized(&self) -> bool {
        true
    }

    fn pos_normalize(self) -> Self {
        self
    }

    fn pos_invert(self) -> Self {
        0xFF - self
    }

    proof fn pos_normalize_idempotent(self) {
    }

    proof fn pos_normalize_of_normalized(self) {
    }
}

impl PosNormalChannelScalar for u16 {
    open spec fn pos_min_spec() -> Self {
        0
    }

    open spec fn pos_max_spec() -> Self {
        0xFFFF
    }

    open spec fn pos_is_normalized_spec(self) -> bool {
        true
    }

    open spec fn pos_normalize_spec(self) -> Self {
        self
    }

    open spec fn pos_invert_spec(self) -> Self {
        (0xFFFF - self) as u16
    }

    fn pos_min_bound() -> Self {
        0
    }

    fn pos_max_bound() -> Self {
        0xFFFF
    }

    fn pos_is_normalized(&self) -> bool {
        true
    }

    fn pos_normalize(self) -> Self {
        self
    }

    fn pos_invert(self) -> Self {
        0xFFFF - self
    }

    proof fn pos_normalize_idempotent(self) {
    }

    proof fn pos_normalize_of_normalized(self) {
    }
}

impl PosNormalChannelScalar for u32 {
    open spec fn pos_min_spec() -> Self {
        0
    }

    open spec fn pos_max_spec() -> Self {
        0xFFFF_FFFF
    }

    open spec fn pos_is_normalized_spec(self) -> bool {
        true
    }

    open spec fn pos_normalize_spec(self) -> Self {
        self
    }

    open spec fn pos_invert_spec(self) -> Self {
        (0xFFFF_FFFF - self) as u32
    }

    fn pos_min_bound() -> Self {
        0
    }

    fn pos_max_bound() -> Self {
        0xFFFF_FFFF
    }

    fn pos_is_normalized(&self) -> bool {
        true
    }

    fn pos_normalize(self) -> Self {
        self
    }

    fn pos_invert(self) -> Self {
        0xFFFF_FFFF - self
    }

    proof fn pos_normalize_idempotent(self) {
    }

    proof fn pos_normalize_of_normalized(self) {
    }
}

impl NormalChannelScalar for u8 {
    open spec fn norm_min_spec() -> Self {
        0
    }

    open spec fn norm_max_spec() -> Self {
        0xFF
    }

    open spec fn norm_is_normalized_spec(self) -> bool {
        true
    }

    open spec fn norm_normalize_spec(self) -> Self {
        self
    }

    open spec fn norm_invert_spec(self) -> Self {
        (0xFF - self) as u8
    }

    fn norm_min_bound() -> Self {
        0
    }

    fn norm_max_bound() -> Self {
        0xFF
    }

    fn norm_is_normalized(&self) -> bool {
        true
    }

    fn norm_normalize(self) -> Self {
        self
    }

    fn norm_invert(self) -> Self {
        0xFF - self
    }

    proof fn norm_normalize_idempotent(self) {
    }

    proof fn norm_normalize_of_normalized(self) {
    }
}

impl NormalChannelScalar for u16 {
    open spec fn norm_min_spec() -> Self {
        0
    }

    open spec fn norm_max_spec() -> Self {
        0xFFFF
    }

    open spec fn norm_is_normalized_spec(self) -> bool {
        true
    }

    open spec fn norm_normalize_spec(self) -> Self {
        self
    }

    open spec fn norm_invert_spec(self) -> Self {
        (0xFFFF - self) as u16
    }

    fn norm_min_bound() -> Self {
        0
    }

    fn norm_max_bound() -> Self {
        0xFFFF
    }

    fn norm_is_normalized(&self) -> bool {
        true
    }

    fn norm_normalize(self) -> Self {
        self
    }

    fn norm_invert(self) -> Self {
        0xFFFF - self
    }

    proof fn norm_normalize_idempotent(self) {
    }

    proof fn norm_normalize_of_normalized(self) {
    }
}

impl NormalChannelScalar for u32 {
    open spec fn norm_min_spec() -> Self {
        0
    }

    open spec fn norm_max_spec() -> Self {
        0xFFFF_FFFF
    }

    open spec fn norm_is_normalized_spec(self) -> bool {
        true
    }

    open spec fn norm_normalize_spec(self) -> Self {
        self
    }

    open spec fn norm_invert_spec(self) -> Self {
        (0xFFFF_FFFF - self) as u32
    }

    fn norm_min_bound() -> Self {
        0
    }

    fn norm_max_bound() -> Self {
        0xFFFF_FFFF
    }

    fn norm_is_normalized(&self) -> bool {
        true
    }

    fn norm_normalize(self) -> Self {
        self
    }

    fn norm_invert(self) -> Self {
        0xFFFF_FFFF - self
    }

    proof fn norm_normalize_idempotent(self) {
    }

    proof fn norm_normalize_of_normalized(self) {
    }
}

/// Inverting an integer channel twice returns the original value exactly.
pub proof fn lemma_invert_involutive_u8(v: u8)
    ensures
        v.pos_invert_spec().pos_invert_spec() == v,
        v.norm_invert_spec().norm_invert_spec() == v,
{
}

/// Inverting an integer channel twice returns the original value exactly.
pub proof fn lemma_invert_involutive_u16(v: u16)
    ensures
        v.pos_invert_spec().pos_invert_spec() == v,
        v.norm_invert_spec().norm_invert_spec() == v,
{
}

/// Inverting an integer channel twice returns the original value exactly.
pub proof fn lemma_invert_involutive_u32(v: u32)
    ensures
        v.pos_invert_spec().pos_invert_spec() == v,
        v.norm_invert_spec().norm_invert_spec() == v,
{
}

/// Narrowing a 16-bit channel to 8 bits and widening it back changes the
/// value by at most the width of one 8-bit step: narrowing is lossy, but
/// only approximately.
pub proof fn lemma_cast_narrow_round_trip_u16_u8(v: u16)
    ensures
        ChannelFormatCast::<u16>::cast_spec(ChannelFormatCast::<u8>::cast_spec(v)) <= v + 0xFF,
        v <= ChannelFormatCast::<u16>::cast_spec(ChannelFormatCast::<u8>::cast_spec(v)) + 0xFF,
{
    assert((((v >> 8) as u8) as u16) * 0x0101 <= v + 0xFF) by (bit_vector);
    assert(v <= (((v >> 8) as u8) as u16) * 0x0101 + 0xFF) by (bit_vector);
}

/// Narrowing a 32-bit channel to 16 bits and widening it back changes the
/// value by at most the width of one 16-bit step.
pub proof fn lemma_cast_narrow_round_trip_u32_u16(v: u32)
    ensures
        ChannelFormatCast::<u32>::cast_spec(ChannelFormatCast::<u16>::cast_spec(v)) <= v
            + 0xFFFF,
        v <= ChannelFormatCast::<u32>::cast_spec(ChannelFormatCast::<u16>::cast_spec(v))
            + 0xFFFF,
{
    assert((((v >> 16) as u16) as u32) * 0x0001_0001 <= v + 0xFFFF) by (bit_vector);
    assert(v <= (((v >> 16) as u16) as u32) * 0x0001_0001 + 0xFFFF) by (bit_vector);
}

} // verus!

