use sandlot::color::{Rgb, Rgba};

#[test]
fn rgba_hex_reads_each_byte() {
    let c = Rgba::<u8>::rgba_hex(0x11223344);
    assert_eq!(c, Rgba::new(0x11, 0x22, 0x33, 0x44));
}

#[test]
fn rgb_hex_ignores_top_byte_and_is_opaque() {
    let c = Rgba::<u8>::rgb_hex(0xAA112233);
    assert_eq!(c, Rgba::rgb(0x11, 0x22, 0x33));
    assert_eq!(c.a, 255);
}

#[test]
fn rgba_hex_roundtrip_on_concrete_values() {
    for &v in &[0u32, 0xffffffff, 0x01020304, 0xdeadbeef, 0x80000001] {
        let c = Rgba::<u8>::rgba_hex(v);
        let back = (c.rgb.r as u32) << 24 | (c.rgb.g as u32) << 16 | (c.rgb.b as u32) << 8 | c.a as u32;
        assert_eq!(back, v);
    }
}

#[test]
fn rgb_hex_matches_shifted_rgba_hex() {
    let v = 0x00c0ffeeu32;
    let a = Rgba::<u8>::rgb_hex(v);
    let b = Rgba::<u8>::rgba_hex(v << 8);
    assert_eq!(a.rgb, b.rgb);
    assert_eq!(a.a, 255);
}

#[test]
fn named_rgb_colors() {
    assert_eq!(Rgb::<u8>::black(), Rgb::new(0, 0, 0));
    assert_eq!(Rgb::<u8>::red(), Rgb::new(255, 0, 0));
    assert_eq!(Rgb::<u8>::green(), Rgb::new(0, 255, 0));
    assert_eq!(Rgb::<u8>::blue(), Rgb::new(0, 0, 255));
    assert_eq!(Rgb::<u8>::cyan(), Rgb::new(0, 255, 255));
    assert_eq!(Rgb::<u8>::white(), Rgb::new(255, 255, 255));
}

#[test]
fn named_rgba_colors_are_opaque() {
    assert_eq!(Rgba::<u8>::black(), Rgba::new(0, 0, 0, 255));
    assert_eq!(Rgba::<u8>::red(), Rgba::new(255, 0, 0, 255));
    assert_eq!(Rgba::<u8>::green(), Rgba::new(0, 255, 0, 255));
    assert_eq!(Rgba::<u8>::blue(), Rgba::new(0, 0, 255, 255));
    assert_eq!(Rgba::<u8>::cyan(), Rgba::new(0, 255, 255, 255));
    assert_eq!(Rgba::<u8>::white(), Rgba::new(255, 255, 255, 255));
    assert_eq!(Rgba::<u8>::transparent(), Rgba::new(0, 0, 0, 0));
}

#[test]
fn alpha_conversions() {
    let c = Rgb::<u8>::new(1, 2, 3);
    assert_eq!(c.to_rgba(), Rgba::new(1, 2, 3, 255));
    assert_eq!(c.with_alpha(7), Rgba::new(1, 2, 3, 7));
    let d: Rgba<u8> = Rgba::from(c);
    assert_eq!(d, c.to_rgba());
}
