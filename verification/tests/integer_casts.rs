//! Integer-representation behavior: bit-replicating casts and the exact
//! involution of invert on integer channels.

use simple_color::alpha::Alpha;
use simple_color::channel::ChannelFormatCast;
use simple_color::color::{Bounded, Invert};
use simple_color::rgb::{Rgb, Rgba};
use simple_color::ycbcr::{BareYCbCr, StandardShift, YCbCrShift};

#[test]
fn cast_widens_by_bit_replication() {
    assert_eq!(ChannelFormatCast::<u16>::cast(0xFFu8), 0xFFFFu16);
    assert_eq!(ChannelFormatCast::<u32>::cast(0xFFu8), 0xFFFF_FFFFu32);
    assert_eq!(ChannelFormatCast::<u64>::cast(0xFFu8), 0xFFFF_FFFF_FFFF_FFFFu64);
    assert_eq!(ChannelFormatCast::<u16>::cast(0x12u8), 0x1212u16);
    assert_eq!(ChannelFormatCast::<u32>::cast(0x12u8), 0x1212_1212u32);
    assert_eq!(ChannelFormatCast::<u64>::cast(0xABu8), 0xABAB_ABAB_ABAB_ABABu64);
    assert_eq!(ChannelFormatCast::<u32>::cast(0xBEEFu16), 0xBEEF_BEEFu32);
    assert_eq!(ChannelFormatCast::<u64>::cast(0xBEEFu16), 0xBEEF_BEEF_BEEF_BEEFu64);
    assert_eq!(ChannelFormatCast::<u64>::cast(0xDEAD_BEEFu32), 0xDEAD_BEEF_DEAD_BEEFu64);
    assert_eq!(ChannelFormatCast::<u16>::cast(0u8), 0u16);
}

#[test]
fn cast_narrows_to_most_significant_bits() {
    assert_eq!(ChannelFormatCast::<u8>::cast(0xABCDu16), 0xABu8);
    assert_eq!(ChannelFormatCast::<u8>::cast(0xABCD_EF01u32), 0xABu8);
    assert_eq!(ChannelFormatCast::<u16>::cast(0xABCD_EF01u32), 0xABCDu16);
    assert_eq!(ChannelFormatCast::<u8>::cast(0xABCD_EF01_2345_6789u64), 0xABu8);
    assert_eq!(ChannelFormatCast::<u16>::cast(0xABCD_EF01_2345_6789u64), 0xABCDu16);
    assert_eq!(ChannelFormatCast::<u32>::cast(0xABCD_EF01_2345_6789u64), 0xABCD_EF01u32);
}

#[test]
fn cast_round_trips_through_wider_formats() {
    for v in 0..=255u8 {
        let w16: u16 = v.cast();
        let w32: u32 = v.cast();
        let w64: u64 = v.cast();
        assert_eq!(ChannelFormatCast::<u8>::cast(w16), v);
        assert_eq!(ChannelFormatCast::<u8>::cast(w32), v);
        assert_eq!(ChannelFormatCast::<u8>::cast(w64), v);
    }
    let v: u16 = 0x1234;
    assert_eq!(ChannelFormatCast::<u16>::cast(ChannelFormatCast::<u32>::cast(v)), v);
    assert_eq!(ChannelFormatCast::<u16>::cast(ChannelFormatCast::<u64>::cast(v)), v);
    let v: u32 = 0x1234_5678;
    assert_eq!(ChannelFormatCast::<u32>::cast(ChannelFormatCast::<u64>::cast(v)), v);
}

#[test]
fn identity_casts_leave_values_unchanged() {
    assert_eq!(ChannelFormatCast::<u8>::cast(0x5Au8), 0x5Au8);
    assert_eq!(ChannelFormatCast::<u16>::cast(0x5AA5u16), 0x5AA5u16);
    assert_eq!(ChannelFormatCast::<u32>::cast(0x5AA5_1234u32), 0x5AA5_1234u32);
    assert_eq!(ChannelFormatCast::<u64>::cast(0x5AA5_1234_8765_4321u64), 0x5AA5_1234_8765_4321u64);
}

#[test]
fn bare_ycbcr_invert_is_involutive_on_integers() {
    let c = BareYCbCr::from_channels(200u8, 170u8, 50u8);
    assert_eq!(c.invert(), BareYCbCr::from_channels(55u8, 85u8, 205u8));
    assert_eq!(c.invert().invert(), c);

    let c = BareYCbCr::from_channels(40000u16, 123u16, 65535u16);
    assert_eq!(c.invert().invert(), c);

    let c = BareYCbCr::from_channels(7u32, 4_000_000_000u32, 0u32);
    assert_eq!(c.invert().invert(), c);
}

#[test]
fn integer_channels_are_always_normalized() {
    let c = BareYCbCr::from_channels(200u8, 0u8, 255u8);
    assert!(c.is_normalized());
    assert_eq!(c.normalize(), c);
    assert_eq!(c.normalize().normalize(), c.normalize());
}

#[test]
fn alpha_decorator_delegates_structural_operations() {
    let rgb = Rgb::from_channels(30u8, 120u8, 255u8);
    let mut c = Alpha::from_color_and_alpha(rgb, 222u8);
    assert_eq!(c.alpha(), 222u8);
    assert_eq!(c.color().red(), 30u8);
    assert_eq!(c.color().green(), 120u8);
    assert_eq!(c.color().blue(), 255u8);
    let (inner, a) = c.decompose();
    assert_eq!(inner, rgb);
    assert_eq!(a, 222u8);

    c.set_alpha(100u8);
    assert_eq!(c.alpha(), 100u8);
    c.set_color(Rgb::from_channels(1u8, 2u8, 3u8));
    assert_eq!(c.color().red(), 1u8);
    *c.alpha_mut() = 7u8;
    assert_eq!(c.alpha(), 7u8);
    *c.color_mut() = rgb;
    assert_eq!(*c.color(), rgb);
}

#[test]
fn alpha_invert_is_involutive_on_integers() {
    let c = Alpha::from_color_and_alpha(BareYCbCr::from_channels(30u8, 255u8, 200u8), 155u8);
    assert_eq!(c.invert().invert(), c);
    assert_eq!(
        c.invert(),
        Alpha::from_color_and_alpha(BareYCbCr::from_channels(225u8, 0u8, 55u8), 100u8)
    );
}

#[test]
fn ycbcr_mutable_accessors_write_through() {
    let mut c = BareYCbCr::from_channels(10u8, 20u8, 30u8);
    *c.luma_mut() = 11;
    *c.cb_mut() = 21;
    *c.cr_mut() = 31;
    assert_eq!(c.to_tuple(), (11u8, 21u8, 31u8));
    c.set_luma(1);
    c.set_cb(2);
    c.set_cr(3);
    assert_eq!(c, BareYCbCr::from_tuple((1u8, 2u8, 3u8)));
}

#[test]
fn ycbcr_flatten_round_trips_on_integers() {
    let c = BareYCbCr::from_channels(9u8, 8u8, 7u8);
    let flat = c.as_slice();
    assert_eq!(flat, vec![9u8, 8u8, 7u8]);
    assert_eq!(BareYCbCr::from_slice(&flat), c);
}

#[test]
fn standard_shift_recenters_chroma_by_half_range() {
    assert_eq!(<StandardShift<u8> as YCbCrShift<u8>>::get_shift(), (0u8, 128u8, 128u8));
    assert_eq!(<StandardShift<u16> as YCbCrShift<u16>>::get_shift(), (0u16, 32768u16, 32768u16));
    assert_eq!(
        <StandardShift<u32> as YCbCrShift<u32>>::get_shift(),
        (0u32, 0x8000_0000u32, 0x8000_0000u32)
    );
}

#[test]
fn rgba_flatten_appends_alpha_last() {
    let c = Rgba::from_color_and_alpha(Rgb::from_channels(100u8, 50, 175), 254);
    assert_eq!(Rgba::<u8>::num_channels(), 4);
    assert_eq!(c.as_slice(), vec![100u8, 50, 175, 254]);
    assert_eq!(Rgba::from_slice(&c.as_slice()), c);
}
