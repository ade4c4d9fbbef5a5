//! Pixel formats, colorspaces, scaling and blending.
//!
//! Each enumeration knows the number SDL uses for each of its values, and
//! turns numbers back into values where a number names one.

use vstd::prelude::*;

verus! {

/// A blend mode: how the pixels of a drawing operation (the source) are
/// combined with those already in the render target (the destination).
///
/// Besides the predefined modes, SDL can compose custom ones; any `u32` it
/// hands out is carried as is.
#[derive(Clone, Copy, Debug, PartialEq, Eq, Hash, Structural)]
pub struct BlendMode {
    code: u32,
}

impl View for BlendMode {
    type V = u32;

    closed spec fn view(&self) -> u32 {
        self.code
    }
}

impl BlendMode {
    /// No blending: `dstRGBA = srcRGBA`.
    pub fn none() -> (m: Self)
        ensures
            m@ == 0x0u32,
    {
        BlendMode { code: 0x0 }
    }

    /// Alpha blending: `dstRGB = (srcRGB * srcA) + (dstRGB * (1-srcA))`,
    /// `dstA = srcA + (dstA * (1-srcA))`.
    pub fn blend() -> (m: Self)
        ensures
            m@ == 0x1u32,
    {
        BlendMode { code: 0x1 }
    }

    /// Pre-multiplied alpha blending: `dstRGBA = srcRGBA + (dstRGBA * (1-srcA))`.
    pub fn blend_premul() -> (m: Self)
        ensures
            m@ == 0x10u32,
    {
        BlendMode { code: 0x10 }
    }

    /// Additive blending: `dstRGB = (srcRGB * srcA) + dstRGB`, `dstA = dstA`.
    pub fn add() -> (m: Self)
        ensures
            m@ == 0x2u32,
    {
        BlendMode { code: 0x2 }
    }

    /// Pre-multiplied additive blending: `dstRGB = srcRGB + dstRGB`, `dstA = dstA`.
    pub fn add_premul() -> (m: Self)
        ensures
            m@ == 0x20u32,
    {
        BlendMode { code: 0x20 }
    }

    /// Color modulate: `dstRGB = srcRGB * dstRGB`, `dstA = dstA`.
    pub fn modulate() -> (m: Self)
        ensures
            m@ == 0x4u32,
    {
        BlendMode { code: 0x4 }
    }

    /// Color multiply: `dstRGB = (srcRGB * dstRGB) + (dstRGB * (1-srcA))`, `dstA = dstA`.
    pub fn mul() -> (m: Self)
        ensures
            m@ == 0x8u32,
    {
        BlendMode { code: 0x8 }
    }

    /// The blend mode SDL denotes by `code`.
    pub fn from_sdl(code: u32) -> (m: Self)
        ensures
            m@ == code,
    {
        BlendMode { code }
    }

    /// The SDL code of this blend mode.
    pub fn to_sdl(self) -> (c: u32)
        ensures
            c == self@,
    {
        self.code
    }
}

/// The normalized factor by which pixel components are multiplied before blending.
///
/// The values are those of `SDL_BlendFactor`.
#[derive(Clone, Copy, Debug, PartialEq, Eq, Hash, Structural)]
pub enum BlendFactor {
    /// `0, 0, 0, 0`.
    Zero,
    /// `1, 1, 1, 1`.
    One,
    /// `srcR, srcG, srcB, srcA`.
    SrcColor,
    /// `1-srcR, 1-srcG, 1-srcB, 1-srcA`.
    OneMinusSrcColor,
    /// `srcA, srcA, srcA, srcA`.
    SrcAlpha,
    /// `1-srcA, 1-srcA, 1-srcA, 1-srcA`.
    OneMinusSrcAlpha,
    /// `dstR, dstG, dstB, dstA`.
    DstColor,
    /// `1-dstR, 1-dstG, 1-dstB, 1-dstA`.
    OneMinusDstColor,
    /// `dstA, dstA, dstA, dstA`.
    DstAlpha,
    /// `1-dstA, 1-dstA, 1-dstA, 1-dstA`.
    OneMinusDstAlpha,
}

impl BlendFactor {
    /// The SDL code of this value.
    pub open spec fn code(self) -> i32 {
        match self {
            BlendFactor::Zero => 1i32,
            BlendFactor::One => 2i32,
            BlendFactor::SrcColor => 3i32,
            BlendFactor::OneMinusSrcColor => 4i32,
            BlendFactor::SrcAlpha => 5i32,
            BlendFactor::OneMinusSrcAlpha => 6i32,
            BlendFactor::DstColor => 7i32,
            BlendFactor::OneMinusDstColor => 8i32,
            BlendFactor::DstAlpha => 9i32,
            BlendFactor::OneMinusDstAlpha => 10i32,
        }
    }

    /// The value whose SDL code is `code`, if any.
    pub open spec fn from_code(code: i32) -> Option<BlendFactor> {
        if code == 1i32 {
            Some(BlendFactor::Zero)
        } else if code == 2i32 {
            Some(BlendFactor::One)
        } else if code == 3i32 {
            Some(BlendFactor::SrcColor)
        } else if code == 4i32 {
            Some(BlendFactor::OneMinusSrcColor)
        } else if code == 5i32 {
            Some(BlendFactor::SrcAlpha)
        } else if code == 6i32 {
            Some(BlendFactor::OneMinusSrcAlpha)
        } else if code == 7i32 {
            Some(BlendFactor::DstColor)
        } else if code == 8i32 {
            Some(BlendFactor::OneMinusDstColor)
        } else if code == 9i32 {
            Some(BlendFactor::DstAlpha)
        } else if code == 10i32 {
            Some(BlendFactor::OneMinusDstAlpha)
        } else {
            None
        }
    }

    /// The SDL code of this value.
    pub fn to_sdl(self) -> (c: i32)
        ensures
            c == self.code(),
    {
        match self {
            BlendFactor::Zero => 1i32,
            BlendFactor::One => 2i32,
            BlendFactor::SrcColor => 3i32,
            BlendFactor::OneMinusSrcColor => 4i32,
            BlendFactor::SrcAlpha => 5i32,
            BlendFactor::OneMinusSrcAlpha => 6i32,
            BlendFactor::DstColor => 7i32,
            BlendFactor::OneMinusDstColor => 8i32,
            BlendFactor::DstAlpha => 9i32,
            BlendFactor::OneMinusDstAlpha => 10i32,
        }
    }

    /// The value whose SDL code is `code`; `None` for a code that names
    /// no value of this type.
    pub fn from_sdl(code: i32) -> (r: Option<Self>)
        ensures
            r == Self::from_code(code),
    {
        if code == 1i32 {
            Some(BlendFactor::Zero)
        } else if code == 2i32 {
            Some(BlendFactor::One)
        } else if code == 3i32 {
            Some(BlendFactor::SrcColor)
        } else if code == 4i32 {
            Some(BlendFactor::OneMinusSrcColor)
        } else if code == 5i32 {
            Some(BlendFactor::SrcAlpha)
        } else if code == 6i32 {
            Some(BlendFactor::OneMinusSrcAlpha)
        } else if code == 7i32 {
            Some(BlendFactor::DstColor)
        } else if code == 8i32 {
            Some(BlendFactor::OneMinusDstColor)
        } else if code == 9i32 {
            Some(BlendFactor::DstAlpha)
        } else if code == 10i32 {
            Some(BlendFactor::OneMinusDstAlpha)
        } else {
            None
        }
    }
}

/// Every BlendFactor has its own SDL code: the code of a value reads back as
/// that value, and a code that reads back as a value is that value's code.
pub proof fn lemma_blend_factor_code_roundtrip(v: BlendFactor, code: i32)
    ensures
        BlendFactor::from_code(v.code()) == Some(v),
        BlendFactor::from_code(code) == Some(v) ==> v.code() == code,
{
}

/// The code of each BlendFactor is the number SDL's headers give the `SDL_BlendFactor`
/// constant of the same name, value by value.
pub proof fn lemma_blend_factor_sdl_codes()
    ensures
        BlendFactor::Zero.code() == 1i32,
        BlendFactor::One.code() == 2i32,
        BlendFactor::SrcColor.code() == 3i32,
        BlendFactor::OneMinusSrcColor.code() == 4i32,
        BlendFactor::SrcAlpha.code() == 5i32,
        BlendFactor::OneMinusSrcAlpha.code() == 6i32,
        BlendFactor::DstColor.code() == 7i32,
        BlendFactor::OneMinusDstColor.code() == 8i32,
        BlendFactor::DstAlpha.code() == 9i32,
        BlendFactor::OneMinusDstAlpha.code() == 10i32,
{
}

/// The operation combining source and destination pixel components.
///
/// The values are those of `SDL_BlendOperation`.
#[derive(Clone, Copy, Debug, PartialEq, Eq, Hash, Structural)]
pub enum BlendOperation {
    /// `dst + src`: supported by all renderers.
    Add,
    /// `src - dst`.
    Subtract,
    /// `dst - src`.
    RevSubtract,
    /// `min(dst, src)`.
    Minimum,
    /// `max(dst, src)`.
    Maximum,
}

impl BlendOperation {
    /// The SDL code of this value.
    pub open spec fn code(self) -> i32 {
        match self {
            BlendOperation::Add => 1i32,
            BlendOperation::Subtract => 2i32,
            BlendOperation::RevSubtract => 3i32,
            BlendOperation::Minimum => 4i32,
            BlendOperation::Maximum => 5i32,
        }
    }

    /// The value whose SDL code is `code`, if any.
    pub open spec fn from_code(code: i32) -> Option<BlendOperation> {
        if code == 1i32 {
            Some(BlendOperation::Add)
        } else if code == 2i32 {
            Some(BlendOperation::Subtract)
        } else if code == 3i32 {
            Some(BlendOperation::RevSubtract)
        } else if code == 4i32 {
            Some(BlendOperation::Minimum)
        } else if code == 5i32 {
            Some(BlendOperation::Maximum)
        } else {
            None
        }
    }

    /// The SDL code of this value.
    pub fn to_sdl(self) -> (c: i32)
        ensures
            c == self.code(),
    {
        match self {
            BlendOperation::Add => 1i32,
            BlendOperation::Subtract => 2i32,
            BlendOperation::RevSubtract => 3i32,
            BlendOperation::Minimum => 4i32,
            BlendOperation::Maximum => 5i32,
        }
    }

    /// The value whose SDL code is `code`; `None` for a code that names
    /// no value of this type.
    pub fn from_sdl(code: i32) -> (r: Option<Self>)
        ensures
            r == Self::from_code(code),
    {
        if code == 1i32 {
            Some(BlendOperation::Add)
        } else if code == 2i32 {
            Some(BlendOperation::Subtract)
        } else if code == 3i32 {
            Some(BlendOperation::RevSubtract)
        } else if code == 4i32 {
            Some(BlendOperation::Minimum)
        } else if code == 5i32 {
            Some(BlendOperation::Maximum)
        } else {
            None
        }
    }
}

/// Every BlendOperation has its own SDL code: the code of a value reads back as
/// that value, and a code that reads back as a value is that value's code.
pub proof fn lemma_blend_operation_code_roundtrip(v: BlendOperation, code: i32)
    ensures
        BlendOperation::from_code(v.code()) == Some(v),
        BlendOperation::from_code(code) == Some(v) ==> v.code() == code,
{
}

/// The code of each BlendOperation is the number SDL's headers give the `SDL_BlendOperation`
/// constant of the same name, value by value.
pub proof fn lemma_blend_operation_sdl_codes()
    ensures
        BlendOperation::Add.code() == 1i32,
        BlendOperation::Subtract.code() == 2i32,
        BlendOperation::RevSubtract.code() == 3i32,
        BlendOperation::Minimum.code() == 4i32,
        BlendOperation::Maximum.code() == 5i32,
{
}

/// The scaling mode.
///
/// The values are those of `SDL_ScaleMode`.
#[derive(Clone, Copy, Debug, PartialEq, Eq, Hash, Structural)]
pub enum ScaleMode {
    /// Nearest pixel sampling.
    Nearest,
    /// Linear filtering.
    Linear,
    /// Nearest pixel sampling with improved scaling for pixel art.
    PixelArt,
}

impl ScaleMode {
    /// The SDL code of this value.
    pub open spec fn code(self) -> i32 {
        match self {
            ScaleMode::Nearest => 0i32,
            ScaleMode::Linear => 1i32,
            ScaleMode::PixelArt => 2i32,
        }
    }

    /// The value whose SDL code is `code`, if any.
    pub open spec fn from_code(code: i32) -> Option<ScaleMode> {
        if code == 0i32 {
            Some(ScaleMode::Nearest)
        } else if code == 1i32 {
            Some(ScaleMode::Linear)
        } else if code == 2i32 {
            Some(ScaleMode::PixelArt)
        } else {
            None
        }
    }

    /// The SDL code of this value.
    pub fn to_sdl(self) -> (c: i32)
        ensures
            c == self.code(),
    {
        match self {
            ScaleMode::Nearest => 0i32,
            ScaleMode::Linear => 1i32,
            ScaleMode::PixelArt => 2i32,
        }
    }

    /// The value whose SDL code is `code`; `None` for a code that names
    /// no value of this type.
    pub fn from_sdl(code: i32) -> (r: Option<Self>)
        ensures
            r == Self::from_code(code),
    {
        if code == 0i32 {
            Some(ScaleMode::Nearest)
        } else if code == 1i32 {
            Some(ScaleMode::Linear)
        } else if code == 2i32 {
            Some(ScaleMode::PixelArt)
        } else {
            None
        }
    }
}

/// Every ScaleMode has its own SDL code: the code of a value reads back as
/// that value, and a code that reads back as a value is that value's code.
pub proof fn lemma_scale_mode_code_roundtrip(v: ScaleMode, code: i32)
    ensures
        ScaleMode::from_code(v.code()) == Some(v),
        ScaleMode::from_code(code) == Some(v) ==> v.code() == code,
{
}

/// The code of each ScaleMode is the number SDL's headers give the `SDL_ScaleMode`
/// constant of the same name, value by value.
pub proof fn lemma_scale_mode_sdl_codes()
    ensures
        ScaleMode::Nearest.code() == 0i32,
        ScaleMode::Linear.code() == 1i32,
        ScaleMode::PixelArt.code() == 2i32,
{
}

/// A representative sample of the colorspaces SDL supports.
///
/// The values are those of `SDL_Colorspace`.
#[derive(Clone, Copy, Debug, PartialEq, Eq, Hash, Structural)]
pub enum Colorspace {
    /// Gamma-corrected sRGB, the default for rendering and 8-bit RGB surfaces.
    Srgb,
    /// Linear sRGB, the default for floating point surfaces.
    SrgbLinear,
    /// Non-linear HDR, the default for 10-bit surfaces.
    Hdr10,
    Jpeg,
    Bt601Limited,
    Bt601Full,
    Bt709Limited,
    Bt709Full,
    Bt2020Limited,
    Bt2020Full,
}

impl Colorspace {
    /// The SDL code of this value.
    pub open spec fn code(self) -> u32 {
        match self {
            Colorspace::Srgb => 0x120005a0u32,
            Colorspace::SrgbLinear => 0x12000500u32,
            Colorspace::Hdr10 => 0x12002600u32,
            Colorspace::Jpeg => 0x220004c6u32,
            Colorspace::Bt601Limited => 0x211018c6u32,
            Colorspace::Bt601Full => 0x221018c6u32,
            Colorspace::Bt709Limited => 0x21100421u32,
            Colorspace::Bt709Full => 0x22100421u32,
            Colorspace::Bt2020Limited => 0x21102609u32,
            Colorspace::Bt2020Full => 0x22102609u32,
        }
    }

    /// The value whose SDL code is `code`, if any.
    pub open spec fn from_code(code: u32) -> Option<Colorspace> {
        if code == 0x120005a0u32 {
            Some(Colorspace::Srgb)
        } else if code == 0x12000500u32 {
            Some(Colorspace::SrgbLinear)
        } else if code == 0x12002600u32 {
            Some(Colorspace::Hdr10)
        } else if code == 0x220004c6u32 {
            Some(Colorspace::Jpeg)
        } else if code == 0x211018c6u32 {
            Some(Colorspace::Bt601Limited)
        } else if code == 0x221018c6u32 {
            Some(Colorspace::Bt601Full)
        } else if code == 0x21100421u32 {
            Some(Colorspace::Bt709Limited)
        } else if code == 0x22100421u32 {
            Some(Colorspace::Bt709Full)
        } else if code == 0x21102609u32 {
            Some(Colorspace::Bt2020Limited)
        } else if code == 0x22102609u32 {
            Some(Colorspace::Bt2020Full)
        } else {
            None
        }
    }

    /// The SDL code of this value.
    pub fn to_sdl(self) -> (c: u32)
        ensures
            c == self.code(),
    {
        match self {
            Colorspace::Srgb => 0x120005a0u32,
            Colorspace::SrgbLinear => 0x12000500u32,
            Colorspace::Hdr10 => 0x12002600u32,
            Colorspace::Jpeg => 0x220004c6u32,
            Colorspace::Bt601Limited => 0x211018c6u32,
            Colorspace::Bt601Full => 0x221018c6u32,
            Colorspace::Bt709Limited => 0x21100421u32,
            Colorspace::Bt709Full => 0x22100421u32,
            Colorspace::Bt2020Limited => 0x21102609u32,
            Colorspace::Bt2020Full => 0x22102609u32,
        }
    }

    /// The value whose SDL code is `code`; `None` for a code that names
    /// no value of this type.
    pub fn from_sdl(code: u32) -> (r: Option<Self>)
        ensures
            r == Self::from_code(code),
    {
        if code == 0x120005a0u32 {
            Some(Colorspace::Srgb)
        } else if code == 0x12000500u32 {
            Some(Colorspace::SrgbLinear)
        } else if code == 0x12002600u32 {
            Some(Colorspace::Hdr10)
        } else if code == 0x220004c6u32 {
            Some(Colorspace::Jpeg)
        } else if code == 0x211018c6u32 {
            Some(Colorspace::Bt601Limited)
        } else if code == 0x221018c6u32 {
            Some(Colorspace::Bt601Full)
        } else if code == 0x21100421u32 {
            Some(Colorspace::Bt709Limited)
        } else if code == 0x22100421u32 {
            Some(Colorspace::Bt709Full)
        } else if code == 0x21102609u32 {
            Some(Colorspace::Bt2020Limited)
        } else if code == 0x22102609u32 {
            Some(Colorspace::Bt2020Full)
        } else {
            None
        }
    }
}

/// Every Colorspace has its own SDL code: the code of a value reads back as
/// that value, and a code that reads back as a value is that value's code.
pub proof fn lemma_colorspace_code_roundtrip(v: Colorspace, code: u32)
    ensures
        Colorspace::from_code(v.code()) == Some(v),
        Colorspace::from_code(code) == Some(v) ==> v.code() == code,
{
}

/// The code of each Colorspace is the number SDL's headers give the `SDL_Colorspace`
/// constant of the same name, value by value.
pub proof fn lemma_colorspace_sdl_codes()
    ensures
        Colorspace::Srgb.code() == 0x120005a0u32,
        Colorspace::SrgbLinear.code() == 0x12000500u32,
        Colorspace::Hdr10.code() == 0x12002600u32,
        Colorspace::Jpeg.code() == 0x220004c6u32,
        Colorspace::Bt601Limited.code() == 0x211018c6u32,
        Colorspace::Bt601Full.code() == 0x221018c6u32,
        Colorspace::Bt709Limited.code() == 0x21100421u32,
        Colorspace::Bt709Full.code() == 0x22100421u32,
        Colorspace::Bt2020Limited.code() == 0x21102609u32,
        Colorspace::Bt2020Full.code() == 0x22102609u32,
{
}

impl Colorspace {
    /// The colorspace of RGB surfaces when none is given.
    pub fn rgb_default() -> (c: Self)
        ensures
            c == Colorspace::Srgb,
    {
        Colorspace::Srgb
    }

    /// The colorspace of YUV surfaces when none is given.
    pub fn yuv_default() -> (c: Self)
        ensures
            c == Colorspace::Bt601Limited,
    {
        Colorspace::Bt601Limited
    }
}

/// The bits per pixel and the color masks of a pixel format.
#[derive(Clone, Copy, Debug, PartialEq, Eq, Structural)]
pub struct PixelFormatMask {
    /// Bits per pixel (usually 15, 16 or 32).
    pub bpp: i32,
    /// Red color mask.
    pub r: u32,
    /// Green color mask.
    pub g: u32,
    /// Blue color mask.
    pub b: u32,
    /// Alpha (opacity) mask.
    pub a: u32,
}

impl PixelFormatMask {
    pub fn new(bpp: i32, r: u32, g: u32, b: u32, a: u32) -> (m: Self)
        ensures
            m == (PixelFormatMask { bpp, r, g, b, a }),
    {
        PixelFormatMask { bpp, r, g, b, a }
    }
}

/// A pixel format: how the bits of a pixel encode its color.
///
/// The values are those of `SDL_PixelFormat`.
#[derive(Clone, Copy, Debug, PartialEq, Eq, Hash, Structural)]
pub enum PixelFormat {
    Index1Lsb,
    Index1Msb,
    Index2Lsb,
    Index2Msb,
    Index4Lsb,
    Index4Msb,
    Index8,
    Rgb332,
    Xrgb4444,
    Xbgr4444,
    Xrgb1555,
    Xbgr1555,
    Argb4444,
    Rgba4444,
    Abgr4444,
    Bgra4444,
    Argb1555,
    Rgba5551,
    Abgr1555,
    Bgra5551,
    Rgb565,
    Bgr565,
    Rgb24,
    Bgr24,
    Xrgb8888,
    Rgbx8888,
    Xbgr8888,
    Bgrx8888,
    Argb8888,
    Rgba8888,
    Abgr8888,
    Bgra8888,
    Xrgb2101010,
    Xbgr2101010,
    Argb2101010,
    Abgr2101010,
    Rgb48,
    Bgr48,
    Rgba64,
    Argb64,
    Bgra64,
    Abgr64,
    Rgb48Float,
    Bgr48Float,
    Rgba64Float,
    Argb64Float,
    Bgra64Float,
    Abgr64Float,
    Rgb96Float,
    Bgr96Float,
    Rgba128Float,
    Argb128Float,
    Bgra128Float,
    Abgr128Float,
    Yv12,
    Iyuv,
    Yuy2,
    Uyvy,
    Yvyu,
    Nv12,
    Nv21,
    P010,
    ExternalOes,
    Mjpg,
}

impl PixelFormat {
    /// The SDL code of this value.
    pub open spec fn code(self) -> i32 {
        match self {
            PixelFormat::Index1Lsb => 0x11100100i32,
            PixelFormat::Index1Msb => 0x11200100i32,
            PixelFormat::Index2Lsb => 0x1c100200i32,
            PixelFormat::Index2Msb => 0x1c200200i32,
            PixelFormat::Index4Lsb => 0x12100400i32,
            PixelFormat::Index4Msb => 0x12200400i32,
            PixelFormat::Index8 => 0x13000801i32,
            PixelFormat::Rgb332 => 0x14110801i32,
            PixelFormat::Xrgb4444 => 0x15120c02i32,
            PixelFormat::Xbgr4444 => 0x15520c02i32,
            PixelFormat::Xrgb1555 => 0x15130f02i32,
            PixelFormat::Xbgr1555 => 0x15530f02i32,
            PixelFormat::Argb4444 => 0x15321002i32,
            PixelFormat::Rgba4444 => 0x15421002i32,
            PixelFormat::Abgr4444 => 0x15721002i32,
            PixelFormat::Bgra4444 => 0x15821002i32,
            PixelFormat::Argb1555 => 0x15331002i32,
            PixelFormat::Rgba5551 => 0x15441002i32,
            PixelFormat::Abgr1555 => 0x15731002i32,
            PixelFormat::Bgra5551 => 0x15841002i32,
            PixelFormat::Rgb565 => 0x15151002i32,
            PixelFormat::Bgr565 => 0x15551002i32,
            PixelFormat::Rgb24 => 0x17101803i32,
            PixelFormat::Bgr24 => 0x17401803i32,
            PixelFormat::Xrgb8888 => 0x16161804i32,
            PixelFormat::Rgbx8888 => 0x16261804i32,
            PixelFormat::Xbgr8888 => 0x16561804i32,
            PixelFormat::Bgrx8888 => 0x16661804i32,
            PixelFormat::Argb8888 => 0x16362004i32,
            PixelFormat::Rgba8888 => 0x16462004i32,
            PixelFormat::Abgr8888 => 0x16762004i32,
            PixelFormat::Bgra8888 => 0x16862004i32,
            PixelFormat::Xrgb2101010 => 0x16172004i32,
            PixelFormat::Xbgr2101010 => 0x16572004i32,
            PixelFormat::Argb2101010 => 0x16372004i32,
            PixelFormat::Abgr2101010 => 0x16772004i32,
            PixelFormat::Rgb48 => 0x18103006i32,
            PixelFormat::Bgr48 => 0x18403006i32,
            PixelFormat::Rgba64 => 0x18204008i32,
            PixelFormat::Argb64 => 0x18304008i32,
            PixelFormat::Bgra64 => 0x18504008i32,
            PixelFormat::Abgr64 => 0x18604008i32,
            PixelFormat::Rgb48Float => 0x1a103006i32,
            PixelFormat::Bgr48Float => 0x1a403006i32,
            PixelFormat::Rgba64Float => 0x1a204008i32,
            PixelFormat::Argb64Float => 0x1a304008i32,
            PixelFormat::Bgra64Float => 0x1a504008i32,
            PixelFormat::Abgr64Float => 0x1a604008i32,
            PixelFormat::Rgb96Float => 0x1b10600ci32,
            PixelFormat::Bgr96Float => 0x1b40600ci32,
            PixelFormat::Rgba128Float => 0x1b208010i32,
            PixelFormat::Argb128Float => 0x1b308010i32,
            PixelFormat::Bgra128Float => 0x1b508010i32,
            PixelFormat::Abgr128Float => 0x1b608010i32,
            PixelFormat::Yv12 => 0x32315659i32,
            PixelFormat::Iyuv => 0x56555949i32,
            PixelFormat::Yuy2 => 0x32595559i32,
            PixelFormat::Uyvy => 0x59565955i32,
            PixelFormat::Yvyu => 0x55595659i32,
            PixelFormat::Nv12 => 0x3231564ei32,
            PixelFormat::Nv21 => 0x3132564ei32,
            PixelFormat::P010 => 0x30313050i32,
            PixelFormat::ExternalOes => 0x2053454fi32,
            PixelFormat::Mjpg => 0x47504a4di32,
        }
    }

    /// The value whose SDL code is `code`, if any.
    pub open spec fn from_code(code: i32) -> Option<PixelFormat> {
        if code == 0x11100100i32 {
            Some(PixelFormat::Index1Lsb)
        } else if code == 0x11200100i32 {
            Some(PixelFormat::Index1Msb)
        } else if code == 0x1c100200i32 {
            Some(PixelFormat::Index2Lsb)
        } else if code == 0x1c200200i32 {
            Some(PixelFormat::Index2Msb)
        } else if code == 0x12100400i32 {
            Some(PixelFormat::Index4Lsb)
        } else if code == 0x12200400i32 {
            Some(PixelFormat::Index4Msb)
        } else if code == 0x13000801i32 {
            Some(PixelFormat::Index8)
        } else if code == 0x14110801i32 {
            Some(PixelFormat::Rgb332)
        } else if code == 0x15120c02i32 {
            Some(PixelFormat::Xrgb4444)
        } else if code == 0x15520c02i32 {
            Some(PixelFormat::Xbgr4444)
        } else if code == 0x15130f02i32 {
            Some(PixelFormat::Xrgb1555)
        } else if code == 0x15530f02i32 {
            Some(PixelFormat::Xbgr1555)
        } else if code == 0x15321002i32 {
            Some(PixelFormat::Argb4444)
        } else if code == 0x15421002i32 {
            Some(PixelFormat::Rgba4444)
        } else if code == 0x15721002i32 {
            Some(PixelFormat::Abgr4444)
        } else if code == 0x15821002i32 {
            Some(PixelFormat::Bgra4444)
        } else if code == 0x15331002i32 {
            Some(PixelFormat::Argb1555)
        } else if code == 0x15441002i32 {
            Some(PixelFormat::Rgba5551)
        } else if code == 0x15731002i32 {
            Some(PixelFormat::Abgr1555)
        } else if code == 0x15841002i32 {
            Some(PixelFormat::Bgra5551)
        } else if code == 0x15151002i32 {
            Some(PixelFormat::Rgb565)
        } else if code == 0x15551002i32 {
            Some(PixelFormat::Bgr565)
        } else if code == 0x17101803i32 {
            Some(PixelFormat::Rgb24)
        } else if code == 0x17401803i32 {
            Some(PixelFormat::Bgr24)
        } else if code == 0x16161804i32 {
            Some(PixelFormat::Xrgb8888)
        } else if code == 0x16261804i32 {
            Some(PixelFormat::Rgbx8888)
        } else if code == 0x16561804i32 {
            Some(PixelFormat::Xbgr8888)
        } else if code == 0x16661804i32 {
            Some(PixelFormat::Bgrx8888)
        } else if code == 0x16362004i32 {
            Some(PixelFormat::Argb8888)
        } else if code == 0x16462004i32 {
            Some(PixelFormat::Rgba8888)
        } else if code == 0x16762004i32 {
            Some(PixelFormat::Abgr8888)
        } else if code == 0x16862004i32 {
            Some(PixelFormat::Bgra8888)
        } else if code == 0x16172004i32 {
            Some(PixelFormat::Xrgb2101010)
        } else if code == 0x16572004i32 {
            Some(PixelFormat::Xbgr2101010)
        } else if code == 0x16372004i32 {
            Some(PixelFormat::Argb2101010)
        } else if code == 0x16772004i32 {
            Some(PixelFormat::Abgr2101010)
        } else if code == 0x18103006i32 {
            Some(PixelFormat::Rgb48)
        } else if code == 0x18403006i32 {
            Some(PixelFormat::Bgr48)
        } else if code == 0x18204008i32 {
            Some(PixelFormat::Rgba64)
        } else if code == 0x18304008i32 {
            Some(PixelFormat::Argb64)
        } else if code == 0x18504008i32 {
            Some(PixelFormat::Bgra64)
        } else if code == 0x18604008i32 {
            Some(PixelFormat::Abgr64)
        } else if code == 0x1a103006i32 {
            Some(PixelFormat::Rgb48Float)
        } else if code == 0x1a403006i32 {
            Some(PixelFormat::Bgr48Float)
        } else if code == 0x1a204008i32 {
            Some(PixelFormat::Rgba64Float)
        } else if code == 0x1a304008i32 {
            Some(PixelFormat::Argb64Float)
        } else if code == 0x1a504008i32 {
            Some(PixelFormat::Bgra64Float)
        } else if code == 0x1a604008i32 {
            Some(PixelFormat::Abgr64Float)
        } else if code == 0x1b10600ci32 {
            Some(PixelFormat::Rgb96Float)
        } else if code == 0x1b40600ci32 {
            Some(PixelFormat::Bgr96Float)
        } else if code == 0x1b208010i32 {
            Some(PixelFormat::Rgba128Float)
        } else if code == 0x1b308010i32 {
            Some(PixelFormat::Argb128Float)
        } else if code == 0x1b508010i32 {
            Some(PixelFormat::Bgra128Float)
        } else if code == 0x1b608010i32 {
            Some(PixelFormat::Abgr128Float)
        } else if code == 0x32315659i32 {
            Some(PixelFormat::Yv12)
        } else if code == 0x56555949i32 {
            Some(PixelFormat::Iyuv)
        } else if code == 0x32595559i32 {
            Some(PixelFormat::Yuy2)
        } else if code == 0x59565955i32 {
            Some(PixelFormat::Uyvy)
        } else if code == 0x55595659i32 {
            Some(PixelFormat::Yvyu)
        } else if code == 0x3231564ei32 {
            Some(PixelFormat::Nv12)
        } else if code == 0x3132564ei32 {
            Some(PixelFormat::Nv21)
        } else if code == 0x30313050i32 {
            Some(PixelFormat::P010)
        } else if code == 0x2053454fi32 {
            Some(PixelFormat::ExternalOes)
        } else if code == 0x47504a4di32 {
            Some(PixelFormat::Mjpg)
        } else {
            None
        }
    }

    /// The SDL code of this value.
    pub fn to_sdl(self) -> (c: i32)
        ensures
            c == self.code(),
    {
        match self {
            PixelFormat::Index1Lsb => 0x11100100i32,
            PixelFormat::Index1Msb => 0x11200100i32,
            PixelFormat::Index2Lsb => 0x1c100200i32,
            PixelFormat::Index2Msb => 0x1c200200i32,
            PixelFormat::Index4Lsb => 0x12100400i32,
            PixelFormat::Index4Msb => 0x12200400i32,
            PixelFormat::Index8 => 0x13000801i32,
            PixelFormat::Rgb332 => 0x14110801i32,
            PixelFormat::Xrgb4444 => 0x15120c02i32,
            PixelFormat::Xbgr4444 => 0x15520c02i32,
            PixelFormat::Xrgb1555 => 0x15130f02i32,
            PixelFormat::Xbgr1555 => 0x15530f02i32,
            PixelFormat::Argb4444 => 0x15321002i32,
            PixelFormat::Rgba4444 => 0x15421002i32,
            PixelFormat::Abgr4444 => 0x15721002i32,
            PixelFormat::Bgra4444 => 0x15821002i32,
            PixelFormat::Argb1555 => 0x15331002i32,
            PixelFormat::Rgba5551 => 0x15441002i32,
            PixelFormat::Abgr1555 => 0x15731002i32,
            PixelFormat::Bgra5551 => 0x15841002i32,
            PixelFormat::Rgb565 => 0x15151002i32,
            PixelFormat::Bgr565 => 0x15551002i32,
            PixelFormat::Rgb24 => 0x17101803i32,
            PixelFormat::Bgr24 => 0x17401803i32,
            PixelFormat::Xrgb8888 => 0x16161804i32,
            PixelFormat::Rgbx8888 => 0x16261804i32,
            PixelFormat::Xbgr8888 => 0x16561804i32,
            PixelFormat::Bgrx8888 => 0x16661804i32,
            PixelFormat::Argb8888 => 0x16362004i32,
            PixelFormat::Rgba8888 => 0x16462004i32,
            PixelFormat::Abgr8888 => 0x16762004i32,
            PixelFormat::Bgra8888 => 0x16862004i32,
            PixelFormat::Xrgb2101010 => 0x16172004i32,
            PixelFormat::Xbgr2101010 => 0x16572004i32,
            PixelFormat::Argb2101010 => 0x16372004i32,
            PixelFormat::Abgr2101010 => 0x16772004i32,
            PixelFormat::Rgb48 => 0x18103006i32,
            PixelFormat::Bgr48 => 0x18403006i32,
            PixelFormat::Rgba64 => 0x18204008i32,
            PixelFormat::Argb64 => 0x18304008i32,
            PixelFormat::Bgra64 => 0x18504008i32,
            PixelFormat::Abgr64 => 0x18604008i32,
            PixelFormat::Rgb48Float => 0x1a103006i32,
            PixelFormat::Bgr48Float => 0x1a403006i32,
            PixelFormat::Rgba64Float => 0x1a204008i32,
            PixelFormat::Argb64Float => 0x1a304008i32,
            PixelFormat::Bgra64Float => 0x1a504008i32,
            PixelFormat::Abgr64Float => 0x1a604008i32,
            PixelFormat::Rgb96Float => 0x1b10600ci32,
            PixelFormat::Bgr96Float => 0x1b40600ci32,
            PixelFormat::Rgba128Float => 0x1b208010i32,
            PixelFormat::Argb128Float => 0x1b308010i32,
            PixelFormat::Bgra128Float => 0x1b508010i32,
            PixelFormat::Abgr128Float => 0x1b608010i32,
            PixelFormat::Yv12 => 0x32315659i32,
            PixelFormat::Iyuv => 0x56555949i32,
            PixelFormat::Yuy2 => 0x32595559i32,
            PixelFormat::Uyvy => 0x59565955i32,
            PixelFormat::Yvyu => 0x55595659i32,
            PixelFormat::Nv12 => 0x3231564ei32,
            PixelFormat::Nv21 => 0x3132564ei32,
            PixelFormat::P010 => 0x30313050i32,
            PixelFormat::ExternalOes => 0x2053454fi32,
            PixelFormat::Mjpg => 0x47504a4di32,
        }
    }

    /// The value whose SDL code is `code`; `None` for a code that names
    /// no value of this type.
    pub fn from_sdl(code: i32) -> (r: Option<Self>)
        ensures
            r == Self::from_code(code),
    {
        if code == 0x11100100i32 {
            Some(PixelFormat::Index1Lsb)
        } else if code == 0x11200100i32 {
            Some(PixelFormat::Index1Msb)
        } else if code == 0x1c100200i32 {
            Some(PixelFormat::Index2Lsb)
        } else if code == 0x1c200200i32 {
            Some(PixelFormat::Index2Msb)
        } else if code == 0x12100400i32 {
            Some(PixelFormat::Index4Lsb)
        } else if code == 0x12200400i32 {
            Some(PixelFormat::Index4Msb)
        } else if code == 0x13000801i32 {
            Some(PixelFormat::Index8)
        } else if code == 0x14110801i32 {
            Some(PixelFormat::Rgb332)
        } else if code == 0x15120c02i32 {
            Some(PixelFormat::Xrgb4444)
        } else if code == 0x15520c02i32 {
            Some(PixelFormat::Xbgr4444)
        } else if code == 0x15130f02i32 {
            Some(PixelFormat::Xrgb1555)
        } else if code == 0x15530f02i32 {
            Some(PixelFormat::Xbgr1555)
        } else if code == 0x15321002i32 {
            Some(PixelFormat::Argb4444)
        } else if code == 0x15421002i32 {
            Some(PixelFormat::Rgba4444)
        } else if code == 0x15721002i32 {
            Some(PixelFormat::Abgr4444)
        } else if code == 0x15821002i32 {
            Some(PixelFormat::Bgra4444)
        } else if code == 0x15331002i32 {
            Some(PixelFormat::Argb1555)
        } else if code == 0x15441002i32 {
            Some(PixelFormat::Rgba5551)
        } else if code == 0x15731002i32 {
            Some(PixelFormat::Abgr1555)
        } else if code == 0x15841002i32 {
            Some(PixelFormat::Bgra5551)
        } else if code == 0x15151002i32 {
            Some(PixelFormat::Rgb565)
        } else if code == 0x15551002i32 {
            Some(PixelFormat::Bgr565)
        } else if code == 0x17101803i32 {
            Some(PixelFormat::Rgb24)
        } else if code == 0x17401803i32 {
            Some(PixelFormat::Bgr24)
        } else if code == 0x16161804i32 {
            Some(PixelFormat::Xrgb8888)
        } else if code == 0x16261804i32 {
            Some(PixelFormat::Rgbx8888)
        } else if code == 0x16561804i32 {
            Some(PixelFormat::Xbgr8888)
        } else if code == 0x16661804i32 {
            Some(PixelFormat::Bgrx8888)
        } else if code == 0x16362004i32 {
            Some(PixelFormat::Argb8888)
        } else if code == 0x16462004i32 {
            Some(PixelFormat::Rgba8888)
        } else if code == 0x16762004i32 {
            Some(PixelFormat::Abgr8888)
        } else if code == 0x16862004i32 {
            Some(PixelFormat::Bgra8888)
        } else if code == 0x16172004i32 {
            Some(PixelFormat::Xrgb2101010)
        } else if code == 0x16572004i32 {
            Some(PixelFormat::Xbgr2101010)
        } else if code == 0x16372004i32 {
            Some(PixelFormat::Argb2101010)
        } else if code == 0x16772004i32 {
            Some(PixelFormat::Abgr2101010)
        } else if code == 0x18103006i32 {
            Some(PixelFormat::Rgb48)
        } else if code == 0x18403006i32 {
            Some(PixelFormat::Bgr48)
        } else if code == 0x18204008i32 {
            Some(PixelFormat::Rgba64)
        } else if code == 0x18304008i32 {
            Some(PixelFormat::Argb64)
        } else if code == 0x18504008i32 {
            Some(PixelFormat::Bgra64)
        } else if code == 0x18604008i32 {
            Some(PixelFormat::Abgr64)
        } else if code == 0x1a103006i32 {
            Some(PixelFormat::Rgb48Float)
        } else if code == 0x1a403006i32 {
            Some(PixelFormat::Bgr48Float)
        } else if code == 0x1a204008i32 {
            Some(PixelFormat::Rgba64Float)
        } else if code == 0x1a304008i32 {
            Some(PixelFormat::Argb64Float)
        } else if code == 0x1a504008i32 {
            Some(PixelFormat::Bgra64Float)
        } else if code == 0x1a604008i32 {
            Some(PixelFormat::Abgr64Float)
        } else if code == 0x1b10600ci32 {
            Some(PixelFormat::Rgb96Float)
        } else if code == 0x1b40600ci32 {
            Some(PixelFormat::Bgr96Float)
        } else if code == 0x1b208010i32 {
            Some(PixelFormat::Rgba128Float)
        } else if code == 0x1b308010i32 {
            Some(PixelFormat::Argb128Float)
        } else if code == 0x1b508010i32 {
            Some(PixelFormat::Bgra128Float)
        } else if code == 0x1b608010i32 {
            Some(PixelFormat::Abgr128Float)
        } else if code == 0x32315659i32 {
            Some(PixelFormat::Yv12)
        } else if code == 0x56555949i32 {
            Some(PixelFormat::Iyuv)
        } else if code == 0x32595559i32 {
            Some(PixelFormat::Yuy2)
        } else if code == 0x59565955i32 {
            Some(PixelFormat::Uyvy)
        } else if code == 0x55595659i32 {
            Some(PixelFormat::Yvyu)
        } else if code == 0x3231564ei32 {
            Some(PixelFormat::Nv12)
        } else if code == 0x3132564ei32 {
            Some(PixelFormat::Nv21)
        } else if code == 0x30313050i32 {
            Some(PixelFormat::P010)
        } else if code == 0x2053454fi32 {
            Some(PixelFormat::ExternalOes)
        } else if code == 0x47504a4di32 {
            Some(PixelFormat::Mjpg)
        } else {
            None
        }
    }
}

/// Every PixelFormat has its own SDL code: the code of a value reads back as
/// that value, and a code that reads back as a value is that value's code.
pub proof fn lemma_pixel_format_code_roundtrip(v: PixelFormat, code: i32)
    ensures
        PixelFormat::from_code(v.code()) == Some(v),
        PixelFormat::from_code(code) == Some(v) ==> v.code() == code,
{
}

/// SDL's number for a pixel format that is not a FourCC code: a flag bit,
/// then the pixel type, the component order, the packed layout, the bits
/// per pixel and the bytes per pixel, each in its own field
/// (`SDL_DEFINE_PIXELFORMAT`).
pub open spec fn pixel_format_code(pixel_type: int, order: int, layout: int, bits: int, bytes: int) -> int {
    0x10000000 + pixel_type * 0x1000000 + order * 0x100000 + layout * 0x10000 + bits * 0x100 + bytes
}

/// SDL's number for a FourCC pixel format: the four characters' codes,
/// the first in the lowest byte (`SDL_DEFINE_PIXELFOURCC`).
pub open spec fn pixel_fourcc(a: char, b: char, c: char, d: char) -> int {
    (a as int) + (b as int) * 0x100 + (c as int) * 0x10000 + (d as int) * 0x1000000
}

/// `SDL_PIXELTYPE_INDEX1`.
pub open spec fn pixeltype_index1() -> int {
    1
}

/// `SDL_PIXELTYPE_INDEX4`.
pub open spec fn pixeltype_index4() -> int {
    2
}

/// `SDL_PIXELTYPE_INDEX8`.
pub open spec fn pixeltype_index8() -> int {
    3
}

/// `SDL_PIXELTYPE_PACKED8`.
pub open spec fn pixeltype_packed8() -> int {
    4
}

/// `SDL_PIXELTYPE_PACKED16`.
pub open spec fn pixeltype_packed16() -> int {
    5
}

/// `SDL_PIXELTYPE_PACKED32`.
pub open spec fn pixeltype_packed32() -> int {
    6
}

/// `SDL_PIXELTYPE_ARRAYU8`.
pub open spec fn pixeltype_arrayu8() -> int {
    7
}

/// `SDL_PIXELTYPE_ARRAYU16`.
pub open spec fn pixeltype_arrayu16() -> int {
    8
}

/// `SDL_PIXELTYPE_ARRAYU32`.
pub open spec fn pixeltype_arrayu32() -> int {
    9
}

/// `SDL_PIXELTYPE_ARRAYF16`.
pub open spec fn pixeltype_arrayf16() -> int {
    10
}

/// `SDL_PIXELTYPE_ARRAYF32`.
pub open spec fn pixeltype_arrayf32() -> int {
    11
}

/// `SDL_PIXELTYPE_INDEX2`.
pub open spec fn pixeltype_index2() -> int {
    12
}

/// `SDL_BITMAPORDER_4321`: the first pixel in the low bits of a byte.
pub open spec fn bitmaporder_4321() -> int {
    1
}

/// `SDL_BITMAPORDER_1234`: the first pixel in the high bits of a byte.
pub open spec fn bitmaporder_1234() -> int {
    2
}

/// `SDL_PACKEDORDER_XRGB`: components X, R, G, B from the most significant bits down.
pub open spec fn packedorder_xrgb() -> int {
    1
}

/// `SDL_PACKEDORDER_RGBX`: components R, G, B, X from the most significant bits down.
pub open spec fn packedorder_rgbx() -> int {
    2
}

/// `SDL_PACKEDORDER_ARGB`: components A, R, G, B from the most significant bits down.
pub open spec fn packedorder_argb() -> int {
    3
}

/// `SDL_PACKEDORDER_RGBA`: components R, G, B, A from the most significant bits down.
pub open spec fn packedorder_rgba() -> int {
    4
}

/// `SDL_PACKEDORDER_XBGR`: components X, B, G, R from the most significant bits down.
pub open spec fn packedorder_xbgr() -> int {
    5
}

/// `SDL_PACKEDORDER_BGRX`: components B, G, R, X from the most significant bits down.
pub open spec fn packedorder_bgrx() -> int {
    6
}

/// `SDL_PACKEDORDER_ABGR`: components A, B, G, R from the most significant bits down.
pub open spec fn packedorder_abgr() -> int {
    7
}

/// `SDL_PACKEDORDER_BGRA`: components B, G, R, A from the most significant bits down.
pub open spec fn packedorder_bgra() -> int {
    8
}

/// `SDL_ARRAYORDER_RGB`: components R, G, B in memory order.
pub open spec fn arrayorder_rgb() -> int {
    1
}

/// `SDL_ARRAYORDER_RGBA`: components R, G, B, A in memory order.
pub open spec fn arrayorder_rgba() -> int {
    2
}

/// `SDL_ARRAYORDER_ARGB`: components A, R, G, B in memory order.
pub open spec fn arrayorder_argb() -> int {
    3
}

/// `SDL_ARRAYORDER_BGR`: components B, G, R in memory order.
pub open spec fn arrayorder_bgr() -> int {
    4
}

/// `SDL_ARRAYORDER_BGRA`: components B, G, R, A in memory order.
pub open spec fn arrayorder_bgra() -> int {
    5
}

/// `SDL_ARRAYORDER_ABGR`: components A, B, G, R in memory order.
pub open spec fn arrayorder_abgr() -> int {
    6
}

/// `SDL_PACKEDLAYOUT_332`: component widths 3-3-2 bits.
pub open spec fn packedlayout_332() -> int {
    1
}

/// `SDL_PACKEDLAYOUT_4444`: component widths 4-4-4-4 bits.
pub open spec fn packedlayout_4444() -> int {
    2
}

/// `SDL_PACKEDLAYOUT_1555`: component widths 1-5-5-5 bits.
pub open spec fn packedlayout_1555() -> int {
    3
}

/// `SDL_PACKEDLAYOUT_5551`: component widths 5-5-5-1 bits.
pub open spec fn packedlayout_5551() -> int {
    4
}

/// `SDL_PACKEDLAYOUT_565`: component widths 5-6-5 bits.
pub open spec fn packedlayout_565() -> int {
    5
}

/// `SDL_PACKEDLAYOUT_8888`: component widths 8-8-8-8 bits.
pub open spec fn packedlayout_8888() -> int {
    6
}

/// `SDL_PACKEDLAYOUT_2101010`: component widths 2-10-10-10 bits.
pub open spec fn packedlayout_2101010() -> int {
    7
}

/// `SDL_PACKEDLAYOUT_1010102`: component widths 10-10-10-2 bits.
pub open spec fn packedlayout_1010102() -> int {
    8
}

/// The code of every pixel format is made from what its name says: a
/// packed format's type, component order and layout, an array format's
/// component type and order, an indexed format's bit order, with the bits
/// and bytes of one pixel; a YUV or compressed format's code is the FourCC
/// of its name. So, for instance, ARGB8888 and ABGR8888 differ only in the
/// order field.
pub proof fn lemma_pixel_format_codes_follow_their_names()
    ensures
        PixelFormat::Index1Lsb.code() == pixel_format_code(pixeltype_index1(), bitmaporder_4321(), 0, 1, 0),
        PixelFormat::Index1Msb.code() == pixel_format_code(pixeltype_index1(), bitmaporder_1234(), 0, 1, 0),
        PixelFormat::Index2Lsb.code() == pixel_format_code(pixeltype_index2(), bitmaporder_4321(), 0, 2, 0),
        PixelFormat::Index2Msb.code() == pixel_format_code(pixeltype_index2(), bitmaporder_1234(), 0, 2, 0),
        PixelFormat::Index4Lsb.code() == pixel_format_code(pixeltype_index4(), bitmaporder_4321(), 0, 4, 0),
        PixelFormat::Index4Msb.code() == pixel_format_code(pixeltype_index4(), bitmaporder_1234(), 0, 4, 0),
        PixelFormat::Index8.code() == pixel_format_code(pixeltype_index8(), 0, 0, 8, 1),
        PixelFormat::Rgb332.code() == pixel_format_code(pixeltype_packed8(), packedorder_xrgb(), packedlayout_332(), 8, 1),
        PixelFormat::Xrgb4444.code() == pixel_format_code(pixeltype_packed16(), packedorder_xrgb(), packedlayout_4444(), 12, 2),
        PixelFormat::Xbgr4444.code() == pixel_format_code(pixeltype_packed16(), packedorder_xbgr(), packedlayout_4444(), 12, 2),
        PixelFormat::Xrgb1555.code() == pixel_format_code(pixeltype_packed16(), packedorder_xrgb(), packedlayout_1555(), 15, 2),
        PixelFormat::Xbgr1555.code() == pixel_format_code(pixeltype_packed16(), packedorder_xbgr(), packedlayout_1555(), 15, 2),
        PixelFormat::Argb4444.code() == pixel_format_code(pixeltype_packed16(), packedorder_argb(), packedlayout_4444(), 16, 2),
        PixelFormat::Rgba4444.code() == pixel_format_code(pixeltype_packed16(), packedorder_rgba(), packedlayout_4444(), 16, 2),
        PixelFormat::Abgr4444.code() == pixel_format_code(pixeltype_packed16(), packedorder_abgr(), packedlayout_4444(), 16, 2),
        PixelFormat::Bgra4444.code() == pixel_format_code(pixeltype_packed16(), packedorder_bgra(), packedlayout_4444(), 16, 2),
        PixelFormat::Argb1555.code() == pixel_format_code(pixeltype_packed16(), packedorder_argb(), packedlayout_1555(), 16, 2),
        PixelFormat::Rgba5551.code() == pixel_format_code(pixeltype_packed16(), packedorder_rgba(), packedlayout_5551(), 16, 2),
        PixelFormat::Abgr1555.code() == pixel_format_code(pixeltype_packed16(), packedorder_abgr(), packedlayout_1555(), 16, 2),
        PixelFormat::Bgra5551.code() == pixel_format_code(pixeltype_packed16(), packedorder_bgra(), packedlayout_5551(), 16, 2),
        PixelFormat::Rgb565.code() == pixel_format_code(pixeltype_packed16(), packedorder_xrgb(), packedlayout_565(), 16, 2),
        PixelFormat::Bgr565.code() == pixel_format_code(pixeltype_packed16(), packedorder_xbgr(), packedlayout_565(), 16, 2),
        PixelFormat::Rgb24.code() == pixel_format_code(pixeltype_arrayu8(), arrayorder_rgb(), 0, 24, 3),
        PixelFormat::Bgr24.code() == pixel_format_code(pixeltype_arrayu8(), arrayorder_bgr(), 0, 24, 3),
        PixelFormat::Xrgb8888.code() == pixel_format_code(pixeltype_packed32(), packedorder_xrgb(), packedlayout_8888(), 24, 4),
        PixelFormat::Rgbx8888.code() == pixel_format_code(pixeltype_packed32(), packedorder_rgbx(), packedlayout_8888(), 24, 4),
        PixelFormat::Xbgr8888.code() == pixel_format_code(pixeltype_packed32(), packedorder_xbgr(), packedlayout_8888(), 24, 4),
        PixelFormat::Bgrx8888.code() == pixel_format_code(pixeltype_packed32(), packedorder_bgrx(), packedlayout_8888(), 24, 4),
        PixelFormat::Argb8888.code() == pixel_format_code(pixeltype_packed32(), packedorder_argb(), packedlayout_8888(), 32, 4),
        PixelFormat::Rgba8888.code() == pixel_format_code(pixeltype_packed32(), packedorder_rgba(), packedlayout_8888(), 32, 4),
        PixelFormat::Abgr8888.code() == pixel_format_code(pixeltype_packed32(), packedorder_abgr(), packedlayout_8888(), 32, 4),
        PixelFormat::Bgra8888.code() == pixel_format_code(pixeltype_packed32(), packedorder_bgra(), packedlayout_8888(), 32, 4),
        PixelFormat::Xrgb2101010.code() == pixel_format_code(pixeltype_packed32(), packedorder_xrgb(), packedlayout_2101010(), 32, 4),
        PixelFormat::Xbgr2101010.code() == pixel_format_code(pixeltype_packed32(), packedorder_xbgr(), packedlayout_2101010(), 32, 4),
        PixelFormat::Argb2101010.code() == pixel_format_code(pixeltype_packed32(), packedorder_argb(), packedlayout_2101010(), 32, 4),
        PixelFormat::Abgr2101010.code() == pixel_format_code(pixeltype_packed32(), packedorder_abgr(), packedlayout_2101010(), 32, 4),
        PixelFormat::Rgb48.code() == pixel_format_code(pixeltype_arrayu16(), arrayorder_rgb(), 0, 48, 6),
        PixelFormat::Bgr48.code() == pixel_format_code(pixeltype_arrayu16(), arrayorder_bgr(), 0, 48, 6),
        PixelFormat::Rgba64.code() == pixel_format_code(pixeltype_arrayu16(), arrayorder_rgba(), 0, 64, 8),
        PixelFormat::Argb64.code() == pixel_format_code(pixeltype_arrayu16(), arrayorder_argb(), 0, 64, 8),
        PixelFormat::Bgra64.code() == pixel_format_code(pixeltype_arrayu16(), arrayorder_bgra(), 0, 64, 8),
        PixelFormat::Abgr64.code() == pixel_format_code(pixeltype_arrayu16(), arrayorder_abgr(), 0, 64, 8),
        PixelFormat::Rgb48Float.code() == pixel_format_code(pixeltype_arrayf16(), arrayorder_rgb(), 0, 48, 6),
        PixelFormat::Bgr48Float.code() == pixel_format_code(pixeltype_arrayf16(), arrayorder_bgr(), 0, 48, 6),
        PixelFormat::Rgba64Float.code() == pixel_format_code(pixeltype_arrayf16(), arrayorder_rgba(), 0, 64, 8),
        PixelFormat::Argb64Float.code() == pixel_format_code(pixeltype_arrayf16(), arrayorder_argb(), 0, 64, 8),
        PixelFormat::Bgra64Float.code() == pixel_format_code(pixeltype_arrayf16(), arrayorder_bgra(), 0, 64, 8),
        PixelFormat::Abgr64Float.code() == pixel_format_code(pixeltype_arrayf16(), arrayorder_abgr(), 0, 64, 8),
        PixelFormat::Rgb96Float.code() == pixel_format_code(pixeltype_arrayf32(), arrayorder_rgb(), 0, 96, 12),
        PixelFormat::Bgr96Float.code() == pixel_format_code(pixeltype_arrayf32(), arrayorder_bgr(), 0, 96, 12),
        PixelFormat::Rgba128Float.code() == pixel_format_code(pixeltype_arrayf32(), arrayorder_rgba(), 0, 128, 16),
        PixelFormat::Argb128Float.code() == pixel_format_code(pixeltype_arrayf32(), arrayorder_argb(), 0, 128, 16),
        PixelFormat::Bgra128Float.code() == pixel_format_code(pixeltype_arrayf32(), arrayorder_bgra(), 0, 128, 16),
        PixelFormat::Abgr128Float.code() == pixel_format_code(pixeltype_arrayf32(), arrayorder_abgr(), 0, 128, 16),
        PixelFormat::Yv12.code() == pixel_fourcc('Y', 'V', '1', '2'),
        PixelFormat::Iyuv.code() == pixel_fourcc('I', 'Y', 'U', 'V'),
        PixelFormat::Yuy2.code() == pixel_fourcc('Y', 'U', 'Y', '2'),
        PixelFormat::Uyvy.code() == pixel_fourcc('U', 'Y', 'V', 'Y'),
        PixelFormat::Yvyu.code() == pixel_fourcc('Y', 'V', 'Y', 'U'),
        PixelFormat::Nv12.code() == pixel_fourcc('N', 'V', '1', '2'),
        PixelFormat::Nv21.code() == pixel_fourcc('N', 'V', '2', '1'),
        PixelFormat::P010.code() == pixel_fourcc('P', '0', '1', '0'),
        PixelFormat::ExternalOes.code() == pixel_fourcc('O', 'E', 'S', ' '),
        PixelFormat::Mjpg.code() == pixel_fourcc('M', 'J', 'P', 'G'),
{
}

/// Each byte-order alias names the order of its four bytes in memory. A
/// packed 32-bit format lists its components from the most significant
/// byte down, so on a big-endian machine the alias is the packed format of
/// the same name, and on a little-endian machine the one whose order is
/// reversed (RGBA32 is ABGR8888 there).
pub proof fn lemma_byte_order_aliases_follow_memory_order(little_endian: bool)
    ensures
        PixelFormat::rgba32_on(little_endian).code() == pixel_format_code(pixeltype_packed32(), if little_endian { packedorder_abgr() } else { packedorder_rgba() }, packedlayout_8888(), 32, 4),
        PixelFormat::argb32_on(little_endian).code() == pixel_format_code(pixeltype_packed32(), if little_endian { packedorder_bgra() } else { packedorder_argb() }, packedlayout_8888(), 32, 4),
        PixelFormat::bgra32_on(little_endian).code() == pixel_format_code(pixeltype_packed32(), if little_endian { packedorder_argb() } else { packedorder_bgra() }, packedlayout_8888(), 32, 4),
        PixelFormat::abgr32_on(little_endian).code() == pixel_format_code(pixeltype_packed32(), if little_endian { packedorder_rgba() } else { packedorder_abgr() }, packedlayout_8888(), 32, 4),
        PixelFormat::rgbx32_on(little_endian).code() == pixel_format_code(pixeltype_packed32(), if little_endian { packedorder_xbgr() } else { packedorder_rgbx() }, packedlayout_8888(), 24, 4),
        PixelFormat::xrgb32_on(little_endian).code() == pixel_format_code(pixeltype_packed32(), if little_endian { packedorder_bgrx() } else { packedorder_xrgb() }, packedlayout_8888(), 24, 4),
        PixelFormat::bgrx32_on(little_endian).code() == pixel_format_code(pixeltype_packed32(), if little_endian { packedorder_xrgb() } else { packedorder_bgrx() }, packedlayout_8888(), 24, 4),
        PixelFormat::xbgr32_on(little_endian).code() == pixel_format_code(pixeltype_packed32(), if little_endian { packedorder_rgbx() } else { packedorder_xbgr() }, packedlayout_8888(), 24, 4),
{
    lemma_pixel_format_codes_follow_their_names();
}

/// Calls `u16::from_ne_bytes`, which reads two bytes in the machine's own
/// byte order. The contract claims only that the result is one of the two
/// byte orders; which one depends on the machine and is left unsaid.
#[verifier::external_body]
fn u16_from_native_bytes(first: u8, second: u8) -> (v: u16)
    ensures
        v == first + 256 * second || v == second + 256 * first,
{
    u16::from_ne_bytes([first, second])
}

/// Whether this machine stores the least significant byte of a number
/// first.
fn is_little_endian() -> bool {
    u16_from_native_bytes(1, 0) == 1
}

impl PixelFormat {
    /// The packed 8888 format whose bytes lie in memory in the order
    /// RGBA, on a machine with the given byte order.
    pub open spec fn rgba32_on(little_endian: bool) -> Self {
        if little_endian { PixelFormat::Abgr8888 } else { PixelFormat::Rgba8888 }
    }

    /// The packed 8888 format whose bytes lie in memory in the order
    /// RGBA, on a machine with the given byte order.
    pub fn rgba32_for(little_endian: bool) -> (f: Self)
        ensures
            f == Self::rgba32_on(little_endian),
    {
        if little_endian {
            PixelFormat::Abgr8888
        } else {
            PixelFormat::Rgba8888
        }
    }

    /// The packed 8888 format whose bytes lie in memory in the order
    /// RGBA on this machine.
    pub fn rgba32() -> (f: Self)
        ensures
            f == Self::rgba32_on(true) || f == Self::rgba32_on(false),
    {
        Self::rgba32_for(is_little_endian())
    }

    /// The packed 8888 format whose bytes lie in memory in the order
    /// ARGB, on a machine with the given byte order.
    pub open spec fn argb32_on(little_endian: bool) -> Self {
        if little_endian { PixelFormat::Bgra8888 } else { PixelFormat::Argb8888 }
    }

    /// The packed 8888 format whose bytes lie in memory in the order
    /// ARGB, on a machine with the given byte order.
    pub fn argb32_for(little_endian: bool) -> (f: Self)
        ensures
            f == Self::argb32_on(little_endian),
    {
        if little_endian {
            PixelFormat::Bgra8888
        } else {
            PixelFormat::Argb8888
        }
    }

    /// The packed 8888 format whose bytes lie in memory in the order
    /// ARGB on this machine.
    pub fn argb32() -> (f: Self)
        ensures
            f == Self::argb32_on(true) || f == Self::argb32_on(false),
    {
        Self::argb32_for(is_little_endian())
    }

    /// The packed 8888 format whose bytes lie in memory in the order
    /// BGRA, on a machine with the given byte order.
    pub open spec fn bgra32_on(little_endian: bool) -> Self {
        if little_endian { PixelFormat::Argb8888 } else { PixelFormat::Bgra8888 }
    }

    /// The packed 8888 format whose bytes lie in memory in the order
    /// BGRA, on a machine with the given byte order.
    pub fn bgra32_for(little_endian: bool) -> (f: Self)
        ensures
            f == Self::bgra32_on(little_endian),
    {
        if little_endian {
            PixelFormat::Argb8888
        } else {
            PixelFormat::Bgra8888
        }
    }

    /// The packed 8888 format whose bytes lie in memory in the order
    /// BGRA on this machine.
    pub fn bgra32() -> (f: Self)
        ensures
            f == Self::bgra32_on(true) || f == Self::bgra32_on(false),
    {
        Self::bgra32_for(is_little_endian())
    }

    /// The packed 8888 format whose bytes lie in memory in the order
    /// ABGR, on a machine with the given byte order.
    pub open spec fn abgr32_on(little_endian: bool) -> Self {
        if little_endian { PixelFormat::Rgba8888 } else { PixelFormat::Abgr8888 }
    }

    /// The packed 8888 format whose bytes lie in memory in the order
    /// ABGR, on a machine with the given byte order.
    pub fn abgr32_for(little_endian: bool) -> (f: Self)
        ensures
            f == Self::abgr32_on(little_endian),
    {
        if little_endian {
            PixelFormat::Rgba8888
        } else {
            PixelFormat::Abgr8888
        }
    }

    /// The packed 8888 format whose bytes lie in memory in the order
    /// ABGR on this machine.
    pub fn abgr32() -> (f: Self)
        ensures
            f == Self::abgr32_on(true) || f == Self::abgr32_on(false),
    {
        Self::abgr32_for(is_little_endian())
    }

    /// The packed 8888 format whose bytes lie in memory in the order
    /// RGBX, on a machine with the given byte order.
    pub open spec fn rgbx32_on(little_endian: bool) -> Self {
        if little_endian { PixelFormat::Xbgr8888 } else { PixelFormat::Rgbx8888 }
    }

    /// The packed 8888 format whose bytes lie in memory in the order
    /// RGBX, on a machine with the given byte order.
    pub fn rgbx32_for(little_endian: bool) -> (f: Self)
        ensures
            f == Self::rgbx32_on(little_endian),
    {
        if little_endian {
            PixelFormat::Xbgr8888
        } else {
            PixelFormat::Rgbx8888
        }
    }

    /// The packed 8888 format whose bytes lie in memory in the order
    /// RGBX on this machine.
    pub fn rgbx32() -> (f: Self)
        ensures
            f == Self::rgbx32_on(true) || f == Self::rgbx32_on(false),
    {
        Self::rgbx32_for(is_little_endian())
    }

    /// The packed 8888 format whose bytes lie in memory in the order
    /// XRGB, on a machine with the given byte order.
    pub open spec fn xrgb32_on(little_endian: bool) -> Self {
        if little_endian { PixelFormat::Bgrx8888 } else { PixelFormat::Xrgb8888 }
    }

    /// The packed 8888 format whose bytes lie in memory in the order
    /// XRGB, on a machine with the given byte order.
    pub fn xrgb32_for(little_endian: bool) -> (f: Self)
        ensures
            f == Self::xrgb32_on(little_endian),
    {
        if little_endian {
            PixelFormat::Bgrx8888
        } else {
            PixelFormat::Xrgb8888
        }
    }

    /// The packed 8888 format whose bytes lie in memory in the order
    /// XRGB on this machine.
    pub fn xrgb32() -> (f: Self)
        ensures
            f == Self::xrgb32_on(true) || f == Self::xrgb32_on(false),
    {
        Self::xrgb32_for(is_little_endian())
    }

    /// The packed 8888 format whose bytes lie in memory in the order
    /// BGRX, on a machine with the given byte order.
    pub open spec fn bgrx32_on(little_endian: bool) -> Self {
        if little_endian { PixelFormat::Xrgb8888 } else { PixelFormat::Bgrx8888 }
    }

    /// The packed 8888 format whose bytes lie in memory in the order
    /// BGRX, on a machine with the given byte order.
    pub fn bgrx32_for(little_endian: bool) -> (f: Self)
        ensures
            f == Self::bgrx32_on(little_endian),
    {
        if little_endian {
            PixelFormat::Xrgb8888
        } else {
            PixelFormat::Bgrx8888
        }
    }

    /// The packed 8888 format whose bytes lie in memory in the order
    /// BGRX on this machine.
    pub fn bgrx32() -> (f: Self)
        ensures
            f == Self::bgrx32_on(true) || f == Self::bgrx32_on(false),
    {
        Self::bgrx32_for(is_little_endian())
    }

    /// The packed 8888 format whose bytes lie in memory in the order
    /// XBGR, on a machine with the given byte order.
    pub open spec fn xbgr32_on(little_endian: bool) -> Self {
        if little_endian { PixelFormat::Rgbx8888 } else { PixelFormat::Xbgr8888 }
    }

    /// The packed 8888 format whose bytes lie in memory in the order
    /// XBGR, on a machine with the given byte order.
    pub fn xbgr32_for(little_endian: bool) -> (f: Self)
        ensures
            f == Self::xbgr32_on(little_endian),
    {
        if little_endian {
            PixelFormat::Rgbx8888
        } else {
            PixelFormat::Xbgr8888
        }
    }

    /// The packed 8888 format whose bytes lie in memory in the order
    /// XBGR on this machine.
    pub fn xbgr32() -> (f: Self)
        ensures
            f == Self::xbgr32_on(true) || f == Self::xbgr32_on(false),
    {
        Self::xbgr32_for(is_little_endian())
    }

}

/// The eight packed 8888 formats named by the order in which their bytes lie
/// in memory, all for one byte order.
#[derive(Clone, Copy, Debug, PartialEq, Eq, Structural)]
pub struct ByteOrderFormats {
    pub rgba32: PixelFormat,
    pub argb32: PixelFormat,
    pub bgra32: PixelFormat,
    pub abgr32: PixelFormat,
    pub rgbx32: PixelFormat,
    pub xrgb32: PixelFormat,
    pub bgrx32: PixelFormat,
    pub xbgr32: PixelFormat,
}

impl ByteOrderFormats {
    /// The eight formats on a machine with the given byte order.
    pub open spec fn on(little_endian: bool) -> Self {
        ByteOrderFormats {
            rgba32: PixelFormat::rgba32_on(little_endian),
            argb32: PixelFormat::argb32_on(little_endian),
            bgra32: PixelFormat::bgra32_on(little_endian),
            abgr32: PixelFormat::abgr32_on(little_endian),
            rgbx32: PixelFormat::rgbx32_on(little_endian),
            xrgb32: PixelFormat::xrgb32_on(little_endian),
            bgrx32: PixelFormat::bgrx32_on(little_endian),
            xbgr32: PixelFormat::xbgr32_on(little_endian),
        }
    }

    /// The eight formats on a machine with the given byte order.
    pub fn for_order(little_endian: bool) -> (f: Self)
        ensures
            f == Self::on(little_endian),
    {
        ByteOrderFormats {
            rgba32: PixelFormat::rgba32_for(little_endian),
            argb32: PixelFormat::argb32_for(little_endian),
            bgra32: PixelFormat::bgra32_for(little_endian),
            abgr32: PixelFormat::abgr32_for(little_endian),
            rgbx32: PixelFormat::rgbx32_for(little_endian),
            xrgb32: PixelFormat::xrgb32_for(little_endian),
            bgrx32: PixelFormat::bgrx32_for(little_endian),
            xbgr32: PixelFormat::xbgr32_for(little_endian),
        }
    }

    /// The eight formats on this machine. The byte order is read once, so
    /// all eight follow the same one.
    pub fn this_machine() -> (f: Self)
        ensures
            f == Self::on(true) || f == Self::on(false),
    {
        Self::for_order(is_little_endian())
    }
}

} // verus!
