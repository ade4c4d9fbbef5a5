use sandlot::pixels::{BlendFactor, BlendMode, BlendOperation, ByteOrderFormats, Colorspace, PixelFormat, PixelFormatMask, ScaleMode};

#[test]
fn pixel_format_codes() {
    assert_eq!(PixelFormat::Rgba8888.to_sdl(), 0x16462004);
    assert_eq!(PixelFormat::Index1Lsb.to_sdl(), 0x11100100);
    assert_eq!(PixelFormat::Mjpg.to_sdl(), 0x47504a4d);
    assert_eq!(PixelFormat::from_sdl(0x16462004), Some(PixelFormat::Rgba8888));
    assert_eq!(PixelFormat::from_sdl(0x3231564e), Some(PixelFormat::Nv12));
}

#[test]
fn pixel_format_unknown_codes() {
    assert_eq!(PixelFormat::from_sdl(0), None);
    assert_eq!(PixelFormat::from_sdl(-1), None);
    assert_eq!(PixelFormat::from_sdl(0x16462005), None);
}

#[test]
fn pixel_format_roundtrip() {
    for f in [PixelFormat::Index8, PixelFormat::Rgb565, PixelFormat::Abgr2101010, PixelFormat::Rgba128Float, PixelFormat::ExternalOes] {
        assert_eq!(PixelFormat::from_sdl(f.to_sdl()), Some(f));
    }
}

#[test]
fn pixel_format_byte_order_aliases() {
    assert_eq!(PixelFormat::rgba32_for(true), PixelFormat::Abgr8888);
    assert_eq!(PixelFormat::rgba32_for(false), PixelFormat::Rgba8888);
    assert_eq!(PixelFormat::xbgr32_for(true), PixelFormat::Rgbx8888);
    let little = u16::from_ne_bytes([1, 0]) == 1;
    assert_eq!(PixelFormat::rgba32(), PixelFormat::rgba32_for(little));
    assert_eq!(PixelFormat::argb32(), PixelFormat::argb32_for(little));
    assert_eq!(PixelFormat::bgrx32(), PixelFormat::bgrx32_for(little));
}

#[test]
fn blend_mode_codes() {
    assert_eq!(BlendMode::none().to_sdl(), 0);
    assert_eq!(BlendMode::blend().to_sdl(), 1);
    assert_eq!(BlendMode::blend_premul().to_sdl(), 0x10);
    assert_eq!(BlendMode::add().to_sdl(), 2);
    assert_eq!(BlendMode::add_premul().to_sdl(), 0x20);
    assert_eq!(BlendMode::modulate().to_sdl(), 4);
    assert_eq!(BlendMode::mul().to_sdl(), 8);
    assert_eq!(BlendMode::from_sdl(0x0a0a0a0a).to_sdl(), 0x0a0a0a0a);
}

#[test]
fn blend_factor_and_operation_codes() {
    assert_eq!(BlendFactor::Zero.to_sdl(), 1);
    assert_eq!(BlendFactor::OneMinusDstAlpha.to_sdl(), 10);
    assert_eq!(BlendFactor::from_sdl(0), None);
    assert_eq!(BlendOperation::Maximum.to_sdl(), 5);
    assert_eq!(BlendOperation::from_sdl(3), Some(BlendOperation::RevSubtract));
    assert_eq!(ScaleMode::from_sdl(2), Some(ScaleMode::PixelArt));
    assert_eq!(ScaleMode::from_sdl(-1), None);
}

#[test]
fn colorspace_codes_and_defaults() {
    assert_eq!(Colorspace::rgb_default(), Colorspace::Srgb);
    assert_eq!(Colorspace::yuv_default(), Colorspace::Bt601Limited);
    assert_eq!(Colorspace::Srgb.to_sdl(), 0x120005a0);
    assert_eq!(Colorspace::from_sdl(0x22102609), Some(Colorspace::Bt2020Full));
    assert_eq!(Colorspace::from_sdl(0), None);
}

#[test]
fn pixel_format_mask_fields() {
    let m = PixelFormatMask::new(32, 0xff000000, 0xff0000, 0xff00, 0xff);
    assert_eq!((m.bpp, m.r, m.g, m.b, m.a), (32, 0xff000000, 0xff0000, 0xff00, 0xff));
}

#[test]
fn byte_order_formats_for_each_order() {
    let le = ByteOrderFormats::for_order(true);
    assert_eq!(
        [le.rgba32, le.argb32, le.bgra32, le.abgr32, le.rgbx32, le.xrgb32, le.bgrx32, le.xbgr32],
        [
            PixelFormat::Abgr8888,
            PixelFormat::Bgra8888,
            PixelFormat::Argb8888,
            PixelFormat::Rgba8888,
            PixelFormat::Xbgr8888,
            PixelFormat::Bgrx8888,
            PixelFormat::Xrgb8888,
            PixelFormat::Rgbx8888,
        ]
    );
    let be = ByteOrderFormats::for_order(false);
    assert_eq!(
        [be.rgba32, be.argb32, be.bgra32, be.abgr32, be.rgbx32, be.xrgb32, be.bgrx32, be.xbgr32],
        [
            PixelFormat::Rgba8888,
            PixelFormat::Argb8888,
            PixelFormat::Bgra8888,
            PixelFormat::Abgr8888,
            PixelFormat::Rgbx8888,
            PixelFormat::Xrgb8888,
            PixelFormat::Bgrx8888,
            PixelFormat::Xbgr8888,
        ]
    );
}

#[test]
fn byte_order_formats_follow_this_machine() {
    let little = u16::from_ne_bytes([1, 0]) == 1;
    let m = ByteOrderFormats::this_machine();
    assert_eq!(m, ByteOrderFormats::for_order(little));
    assert_eq!(m.rgba32, PixelFormat::rgba32());
    assert_eq!(m.xbgr32, PixelFormat::xbgr32());
}
