//! Texture types, formats, usages and sample counts.

use vstd::prelude::*;
use crate::rect::Point;
verus! {

/// The kind of a texture.
///
/// The values are those of `SDL_GPUTextureType`.
#[derive(Clone, Copy, Debug, PartialEq, Eq, Hash, Structural)]
pub enum TextureType {
    /// A two-dimensional texture.
    _2d,
    /// An array of two-dimensional textures.
    _2dArray,
    /// A three-dimensional texture.
    _3d,
    /// A cube texture.
    Cube,
    /// An array of cube textures.
    CubeArray,
}

impl TextureType {
    /// The SDL code of this value.
    pub open spec fn code(self) -> i32 {
        match self {
            TextureType::_2d => 0i32,
            TextureType::_2dArray => 1i32,
            TextureType::_3d => 2i32,
            TextureType::Cube => 3i32,
            TextureType::CubeArray => 4i32,
        }
    }

    /// The value whose SDL code is `code`, if any.
    pub open spec fn from_code(code: i32) -> Option<TextureType> {
        if code == 0i32 {
            Some(TextureType::_2d)
        } else if code == 1i32 {
            Some(TextureType::_2dArray)
        } else if code == 2i32 {
            Some(TextureType::_3d)
        } else if code == 3i32 {
            Some(TextureType::Cube)
        } else if code == 4i32 {
            Some(TextureType::CubeArray)
        } else {
            None
        }
    }

    /// The SDL code of this value.
    pub fn to_sdl(self) -> (c: i32)
        ensures
            c == self.code(),
    {
        match self {
            TextureType::_2d => 0i32,
            TextureType::_2dArray => 1i32,
            TextureType::_3d => 2i32,
            TextureType::Cube => 3i32,
            TextureType::CubeArray => 4i32,
        }
    }

    /// The value whose SDL code is `code`; `None` for a code that names
    /// no value of this type.
    pub fn from_sdl(code: i32) -> (r: Option<Self>)
        ensures
            r == Self::from_code(code),
    {
        if code == 0i32 {
            Some(TextureType::_2d)
        } else if code == 1i32 {
            Some(TextureType::_2dArray)
        } else if code == 2i32 {
            Some(TextureType::_3d)
        } else if code == 3i32 {
            Some(TextureType::Cube)
        } else if code == 4i32 {
            Some(TextureType::CubeArray)
        } else {
            None
        }
    }
}

/// Every TextureType has its own SDL code: the code of a value reads back as
/// that value, and a code that reads back as a value is that value's code.
pub proof fn lemma_texture_type_code_roundtrip(v: TextureType, code: i32)
    ensures
        TextureType::from_code(v.code()) == Some(v),
        TextureType::from_code(code) == Some(v) ==> v.code() == code,
{
}

/// The code of each TextureType is the number SDL's headers give the `SDL_GPUTextureType`
/// constant of the same name, value by value.
pub proof fn lemma_texture_type_sdl_codes()
    ensures
        TextureType::_2d.code() == 0i32,
        TextureType::_2dArray.code() == 1i32,
        TextureType::_3d.code() == 2i32,
        TextureType::Cube.code() == 3i32,
        TextureType::CubeArray.code() == 4i32,
{
}

/// How a texture is going to be used.
///
/// The bits are those of `SDL_GPUTextureUsageFlags`.
#[derive(Clone, Copy, Debug, PartialEq, Eq, Hash, Structural)]
pub struct TextureUsageFlags {
    bits: u32,
}

impl View for TextureUsageFlags {
    type V = u32;

    closed spec fn view(&self) -> u32 {
        self.bits
    }
}

impl TextureUsageFlags {
    /// The bits of all the named flags.
    pub open spec fn all_bits() -> u32 {
        0x7fu32
    }

    /// No flag set.
    pub fn empty() -> (f: Self)
        ensures
            f@ == 0,
    {
        TextureUsageFlags { bits: 0 }
    }

    /// Every named flag set.
    pub fn all() -> (f: Self)
        ensures
            f@ == Self::all_bits(),
    {
        TextureUsageFlags { bits: 0x7fu32 }
    }

    /// The texture can be sampled.
    pub fn sampler() -> (f: Self)
        ensures
            f@ == 0x1u32,
    {
        TextureUsageFlags { bits: 0x1u32 }
    }

    /// The texture is a color render target.
    pub fn color_target() -> (f: Self)
        ensures
            f@ == 0x2u32,
    {
        TextureUsageFlags { bits: 0x2u32 }
    }

    /// The texture is a depth stencil target.
    pub fn depth_stencil_target() -> (f: Self)
        ensures
            f@ == 0x4u32,
    {
        TextureUsageFlags { bits: 0x4u32 }
    }

    /// Graphics stages can read it as storage.
    pub fn graphics_storage_read() -> (f: Self)
        ensures
            f@ == 0x8u32,
    {
        TextureUsageFlags { bits: 0x8u32 }
    }

    /// Compute stages can read it as storage.
    pub fn compute_storage_read() -> (f: Self)
        ensures
            f@ == 0x10u32,
    {
        TextureUsageFlags { bits: 0x10u32 }
    }

    /// Compute stages can write it as storage.
    pub fn compute_storage_write() -> (f: Self)
        ensures
            f@ == 0x20u32,
    {
        TextureUsageFlags { bits: 0x20u32 }
    }

    /// Compute stages can read and write it as storage at once.
    pub fn compute_storage_read_write() -> (f: Self)
        ensures
            f@ == 0x40u32,
    {
        TextureUsageFlags { bits: 0x40u32 }
    }

    /// The raw bits.
    pub fn bits(&self) -> (b: u32)
        ensures
            b == self@,
    {
        self.bits
    }

    /// The flag set with exactly these bits, named or not.
    pub fn from_bits_retain(bits: u32) -> (f: Self)
        ensures
            f@ == bits,
    {
        TextureUsageFlags { bits }
    }

    /// The flag set with these bits, if every set bit is a named flag.
    pub fn from_bits(bits: u32) -> (r: Option<Self>)
        ensures
            r is Some <==> bits & Self::all_bits() == bits,
            r matches Some(f) ==> f@ == bits,
    {
        if bits & 0x7fu32 == bits {
            Some(TextureUsageFlags { bits })
        } else {
            None
        }
    }

    /// Whether no bit is set.
    pub fn is_empty(&self) -> (r: bool)
        ensures
            r == (self@ == 0),
    {
        self.bits == 0
    }

    /// Whether every bit of `other` is set here.
    pub fn contains(&self, other: Self) -> (r: bool)
        ensures
            r == (self@ & other@ == other@),
    {
        self.bits & other.bits == other.bits
    }

    /// Whether some bit of `other` is set here.
    pub fn intersects(&self, other: Self) -> (r: bool)
        ensures
            r == (self@ & other@ != 0),
    {
        self.bits & other.bits != 0
    }

    /// The bits set here or in `other`.
    pub fn union(self, other: Self) -> (f: Self)
        ensures
            f@ == self@ | other@,
    {
        TextureUsageFlags { bits: self.bits | other.bits }
    }

    /// The bits set both here and in `other`.
    pub fn intersection(self, other: Self) -> (f: Self)
        ensures
            f@ == self@ & other@,
    {
        TextureUsageFlags { bits: self.bits & other.bits }
    }

    /// Set the bits of `other`.
    pub fn insert(&mut self, other: Self)
        ensures
            final(self)@ == old(self)@ | other@,
    {
        self.bits = self.bits | other.bits;
    }

    /// Clear the bits of `other`.
    pub fn remove(&mut self, other: Self)
        ensures
            final(self)@ == old(self)@ & !other@,
    {
        self.bits = self.bits & !other.bits;
    }
}

/// Flag sets behave as sets: a union holds both sides and does not depend
/// on their order, an intersection lies within both sides, inserted flags
/// are then contained, removed flags no longer intersect, and the empty set
/// contains nothing but itself.
pub proof fn lemma_texture_usage_flags_set_algebra(a: TextureUsageFlags, b: TextureUsageFlags)
    ensures
        (a@ | b@) & a@ == a@,
        (a@ | b@) & b@ == b@,
        a@ | b@ == b@ | a@,
        (a@ & b@) & a@ == a@ & b@,
        (a@ & b@) & b@ == a@ & b@,
        (a@ & !b@) & b@ == 0,
        a@ | 0 == a@,
        a@ & 0 == 0,
{
    crate::bits::lemma_mask_algebra_u32(a@, b@);
}

/// The number of samples per pixel of a multisampled texture.
///
/// The values are those of `SDL_GPUSampleCount`.
#[derive(Clone, Copy, Debug, PartialEq, Eq, Hash, Structural)]
pub enum SampleCount {
    /// No multisampling.
    One,
    /// Two samples per pixel.
    Two,
    /// Four samples per pixel.
    Four,
    /// Eight samples per pixel.
    Eight,
}

impl SampleCount {
    /// The SDL code of this value.
    pub open spec fn code(self) -> i32 {
        match self {
            SampleCount::One => 0i32,
            SampleCount::Two => 1i32,
            SampleCount::Four => 2i32,
            SampleCount::Eight => 3i32,
        }
    }

    /// The value whose SDL code is `code`, if any.
    pub open spec fn from_code(code: i32) -> Option<SampleCount> {
        if code == 0i32 {
            Some(SampleCount::One)
        } else if code == 1i32 {
            Some(SampleCount::Two)
        } else if code == 2i32 {
            Some(SampleCount::Four)
        } else if code == 3i32 {
            Some(SampleCount::Eight)
        } else {
            None
        }
    }

    /// The SDL code of this value.
    pub fn to_sdl(self) -> (c: i32)
        ensures
            c == self.code(),
    {
        match self {
            SampleCount::One => 0i32,
            SampleCount::Two => 1i32,
            SampleCount::Four => 2i32,
            SampleCount::Eight => 3i32,
        }
    }

    /// The value whose SDL code is `code`; `None` for a code that names
    /// no value of this type.
    pub fn from_sdl(code: i32) -> (r: Option<Self>)
        ensures
            r == Self::from_code(code),
    {
        if code == 0i32 {
            Some(SampleCount::One)
        } else if code == 1i32 {
            Some(SampleCount::Two)
        } else if code == 2i32 {
            Some(SampleCount::Four)
        } else if code == 3i32 {
            Some(SampleCount::Eight)
        } else {
            None
        }
    }
}

/// Every SampleCount has its own SDL code: the code of a value reads back as
/// that value, and a code that reads back as a value is that value's code.
pub proof fn lemma_sample_count_code_roundtrip(v: SampleCount, code: i32)
    ensures
        SampleCount::from_code(v.code()) == Some(v),
        SampleCount::from_code(code) == Some(v) ==> v.code() == code,
{
}

/// The code of each SampleCount is the number SDL's headers give the `SDL_GPUSampleCount`
/// constant of the same name, value by value.
pub proof fn lemma_sample_count_sdl_codes()
    ensures
        SampleCount::One.code() == 0i32,
        SampleCount::Two.code() == 1i32,
        SampleCount::Four.code() == 2i32,
        SampleCount::Eight.code() == 3i32,
{
}

impl SampleCount {
    /// The number of samples per pixel.
    pub open spec fn samples(self) -> u8 {
        match self {
            SampleCount::One => 1,
            SampleCount::Two => 2,
            SampleCount::Four => 4,
            SampleCount::Eight => 8,
        }
    }

    /// The sample count with `n` samples per pixel, if `n` is 1, 2, 4 or 8.
    pub open spec fn of_samples(n: u8) -> Result<SampleCount, ()> {
        if n == 1 {
            Ok(SampleCount::One)
        } else if n == 2 {
            Ok(SampleCount::Two)
        } else if n == 4 {
            Ok(SampleCount::Four)
        } else if n == 8 {
            Ok(SampleCount::Eight)
        } else {
            Err(())
        }
    }
}

/// A sample count's number of samples per pixel is two to the power of its
/// SDL code: SDL numbers the counts 1, 2, 4 and 8 as 0, 1, 2 and 3.
pub proof fn lemma_samples_are_two_to_the_code(v: SampleCount)
    ensures
        v.samples() as nat == vstd::arithmetic::power2::pow2(v.code() as nat),
        SampleCount::of_samples(v.samples()) == Ok::<SampleCount, ()>(v),
{
    vstd::arithmetic::power2::lemma2_to64();
}

impl TryFrom<u8> for SampleCount {
    type Error = ();

    fn try_from(value: u8) -> (r: Result<Self, ()>) {
        match value {
            1 => Ok(SampleCount::One),
            2 => Ok(SampleCount::Two),
            4 => Ok(SampleCount::Four),
            8 => Ok(SampleCount::Eight),
            _ => Err(()),
        }
    }
}

impl vstd::std_specs::convert::TryFromSpecImpl<u8> for SampleCount {
    open spec fn obeys_try_from_spec() -> bool {
        true
    }

    open spec fn try_from_spec(v: u8) -> Result<SampleCount, ()> {
        SampleCount::of_samples(v)
    }
}

impl From<SampleCount> for u8 {
    fn from(value: SampleCount) -> (n: u8) {
        match value {
            SampleCount::One => 1,
            SampleCount::Two => 2,
            SampleCount::Four => 4,
            SampleCount::Eight => 8,
        }
    }
}

impl vstd::std_specs::convert::FromSpecImpl<SampleCount> for u8 {
    open spec fn obeys_from_spec() -> bool {
        true
    }

    open spec fn from_spec(v: SampleCount) -> u8 {
        v.samples()
    }
}

/// Converting a sample count to its number of samples and back gives the
/// same sample count; a number that converts to a sample count is that
/// count's number of samples.
pub proof fn lemma_sample_count_number_roundtrip(c: SampleCount, n: u8)
    ensures
        SampleCount::of_samples(c.samples()) == Ok::<SampleCount, ()>(c),
        SampleCount::of_samples(n) == Ok::<SampleCount, ()>(c) ==> c.samples() == n,
{
}

/// The format of a texture's texels.
///
/// The values are those of `SDL_GPUTextureFormat`.
#[derive(Clone, Copy, Debug, PartialEq, Eq, Hash, Structural)]
pub enum TextureFormat {
    A8Unorm,
    R8Unorm,
    R8g8Unorm,
    R8g8b8a8Unorm,
    R16Unorm,
    R16g16Unorm,
    R16g16b16a16Unorm,
    R10g10b10a2Unorm,
    B5g6r5Unorm,
    B5g5r5a1Unorm,
    B4g4r4a4Unorm,
    B8g8r8a8Unorm,
    Bc1RgbaUnorm,
    Bc2RgbaUnorm,
    Bc3RgbaUnorm,
    Bc4RUnorm,
    Bc5RgUnorm,
    Bc7RgbaUnorm,
    Bc6hRgbFloat,
    Bc6hRgbUfloat,
    R8Snorm,
    R8g8Snorm,
    R8g8b8a8Snorm,
    R16Snorm,
    R16g16Snorm,
    R16g16b16a16Snorm,
    R16Float,
    R16g16Float,
    R16g16b16a16Float,
    R32Float,
    R32g32Float,
    R32g32b32a32Float,
    R11g11b10Ufloat,
    R8Uint,
    R8g8Uint,
    R8g8b8a8Uint,
    R16Uint,
    R16g16Uint,
    R16g16b16a16Uint,
    R32Uint,
    R32g32Uint,
    R32g32b32a32Uint,
    R8Int,
    R8g8Int,
    R8g8b8a8Int,
    R16Int,
    R16g16Int,
    R16g16b16a16Int,
    R32Int,
    R32g32Int,
    R32g32b32a32Int,
    R8g8b8a8UnormSrgb,
    B8g8r8a8UnormSrgb,
    Bc1RgbaUnormSrgb,
    Bc2RgbaUnormSrgb,
    Bc3RgbaUnormSrgb,
    Bc7RgbaUnormSrgb,
    D16Unorm,
    D24Unorm,
    D32Float,
    D24UnormS8Uint,
    D32FloatS8Uint,
    Astc4x4Unorm,
    Astc5x4Unorm,
    Astc5x5Unorm,
    Astc6x5Unorm,
    Astc6x6Unorm,
    Astc8x5Unorm,
    Astc8x6Unorm,
    Astc8x8Unorm,
    Astc10x5Unorm,
    Astc10x6Unorm,
    Astc10x8Unorm,
    Astc10x10Unorm,
    Astc12x10Unorm,
    Astc12x12Unorm,
    Astc4x4UnormSrgb,
    Astc5x4UnormSrgb,
    Astc5x5UnormSrgb,
    Astc6x5UnormSrgb,
    Astc6x6UnormSrgb,
    Astc8x5UnormSrgb,
    Astc8x6UnormSrgb,
    Astc8x8UnormSrgb,
    Astc10x5UnormSrgb,
    Astc10x6UnormSrgb,
    Astc10x8UnormSrgb,
    Astc10x10UnormSrgb,
    Astc12x10UnormSrgb,
    Astc12x12UnormSrgb,
    Astc4x4Float,
    Astc5x4Float,
    Astc5x5Float,
    Astc6x5Float,
    Astc6x6Float,
    Astc8x5Float,
    Astc8x6Float,
    Astc8x8Float,
    Astc10x5Float,
    Astc10x6Float,
    Astc10x8Float,
    Astc10x10Float,
    Astc12x10Float,
    Astc12x12Float,
}

impl TextureFormat {
    /// The SDL code of this value.
    pub open spec fn code(self) -> i32 {
        match self {
            TextureFormat::A8Unorm => 1i32,
            TextureFormat::R8Unorm => 2i32,
            TextureFormat::R8g8Unorm => 3i32,
            TextureFormat::R8g8b8a8Unorm => 4i32,
            TextureFormat::R16Unorm => 5i32,
            TextureFormat::R16g16Unorm => 6i32,
            TextureFormat::R16g16b16a16Unorm => 7i32,
            TextureFormat::R10g10b10a2Unorm => 8i32,
            TextureFormat::B5g6r5Unorm => 9i32,
            TextureFormat::B5g5r5a1Unorm => 10i32,
            TextureFormat::B4g4r4a4Unorm => 11i32,
            TextureFormat::B8g8r8a8Unorm => 12i32,
            TextureFormat::Bc1RgbaUnorm => 13i32,
            TextureFormat::Bc2RgbaUnorm => 14i32,
            TextureFormat::Bc3RgbaUnorm => 15i32,
            TextureFormat::Bc4RUnorm => 16i32,
            TextureFormat::Bc5RgUnorm => 17i32,
            TextureFormat::Bc7RgbaUnorm => 18i32,
            TextureFormat::Bc6hRgbFloat => 19i32,
            TextureFormat::Bc6hRgbUfloat => 20i32,
            TextureFormat::R8Snorm => 21i32,
            TextureFormat::R8g8Snorm => 22i32,
            TextureFormat::R8g8b8a8Snorm => 23i32,
            TextureFormat::R16Snorm => 24i32,
            TextureFormat::R16g16Snorm => 25i32,
            TextureFormat::R16g16b16a16Snorm => 26i32,
            TextureFormat::R16Float => 27i32,
            TextureFormat::R16g16Float => 28i32,
            TextureFormat::R16g16b16a16Float => 29i32,
            TextureFormat::R32Float => 30i32,
            TextureFormat::R32g32Float => 31i32,
            TextureFormat::R32g32b32a32Float => 32i32,
            TextureFormat::R11g11b10Ufloat => 33i32,
            TextureFormat::R8Uint => 34i32,
            TextureFormat::R8g8Uint => 35i32,
            TextureFormat::R8g8b8a8Uint => 36i32,
            TextureFormat::R16Uint => 37i32,
            TextureFormat::R16g16Uint => 38i32,
            TextureFormat::R16g16b16a16Uint => 39i32,
            TextureFormat::R32Uint => 40i32,
            TextureFormat::R32g32Uint => 41i32,
            TextureFormat::R32g32b32a32Uint => 42i32,
            TextureFormat::R8Int => 43i32,
            TextureFormat::R8g8Int => 44i32,
            TextureFormat::R8g8b8a8Int => 45i32,
            TextureFormat::R16Int => 46i32,
            TextureFormat::R16g16Int => 47i32,
            TextureFormat::R16g16b16a16Int => 48i32,
            TextureFormat::R32Int => 49i32,
            TextureFormat::R32g32Int => 50i32,
            TextureFormat::R32g32b32a32Int => 51i32,
            TextureFormat::R8g8b8a8UnormSrgb => 52i32,
            TextureFormat::B8g8r8a8UnormSrgb => 53i32,
            TextureFormat::Bc1RgbaUnormSrgb => 54i32,
            TextureFormat::Bc2RgbaUnormSrgb => 55i32,
            TextureFormat::Bc3RgbaUnormSrgb => 56i32,
            TextureFormat::Bc7RgbaUnormSrgb => 57i32,
            TextureFormat::D16Unorm => 58i32,
            TextureFormat::D24Unorm => 59i32,
            TextureFormat::D32Float => 60i32,
            TextureFormat::D24UnormS8Uint => 61i32,
            TextureFormat::D32FloatS8Uint => 62i32,
            TextureFormat::Astc4x4Unorm => 63i32,
            TextureFormat::Astc5x4Unorm => 64i32,
            TextureFormat::Astc5x5Unorm => 65i32,
            TextureFormat::Astc6x5Unorm => 66i32,
            TextureFormat::Astc6x6Unorm => 67i32,
            TextureFormat::Astc8x5Unorm => 68i32,
            TextureFormat::Astc8x6Unorm => 69i32,
            TextureFormat::Astc8x8Unorm => 70i32,
            TextureFormat::Astc10x5Unorm => 71i32,
            TextureFormat::Astc10x6Unorm => 72i32,
            TextureFormat::Astc10x8Unorm => 73i32,
            TextureFormat::Astc10x10Unorm => 74i32,
            TextureFormat::Astc12x10Unorm => 75i32,
            TextureFormat::Astc12x12Unorm => 76i32,
            TextureFormat::Astc4x4UnormSrgb => 77i32,
            TextureFormat::Astc5x4UnormSrgb => 78i32,
            TextureFormat::Astc5x5UnormSrgb => 79i32,
            TextureFormat::Astc6x5UnormSrgb => 80i32,
            TextureFormat::Astc6x6UnormSrgb => 81i32,
            TextureFormat::Astc8x5UnormSrgb => 82i32,
            TextureFormat::Astc8x6UnormSrgb => 83i32,
            TextureFormat::Astc8x8UnormSrgb => 84i32,
            TextureFormat::Astc10x5UnormSrgb => 85i32,
            TextureFormat::Astc10x6UnormSrgb => 86i32,
            TextureFormat::Astc10x8UnormSrgb => 87i32,
            TextureFormat::Astc10x10UnormSrgb => 88i32,
            TextureFormat::Astc12x10UnormSrgb => 89i32,
            TextureFormat::Astc12x12UnormSrgb => 90i32,
            TextureFormat::Astc4x4Float => 91i32,
            TextureFormat::Astc5x4Float => 92i32,
            TextureFormat::Astc5x5Float => 93i32,
            TextureFormat::Astc6x5Float => 94i32,
            TextureFormat::Astc6x6Float => 95i32,
            TextureFormat::Astc8x5Float => 96i32,
            TextureFormat::Astc8x6Float => 97i32,
            TextureFormat::Astc8x8Float => 98i32,
            TextureFormat::Astc10x5Float => 99i32,
            TextureFormat::Astc10x6Float => 100i32,
            TextureFormat::Astc10x8Float => 101i32,
            TextureFormat::Astc10x10Float => 102i32,
            TextureFormat::Astc12x10Float => 103i32,
            TextureFormat::Astc12x12Float => 104i32,
        }
    }

    /// The value whose SDL code is `code`, if any.
    pub open spec fn from_code(code: i32) -> Option<TextureFormat> {
        if code == 1i32 {
            Some(TextureFormat::A8Unorm)
        } else if code == 2i32 {
            Some(TextureFormat::R8Unorm)
        } else if code == 3i32 {
            Some(TextureFormat::R8g8Unorm)
        } else if code == 4i32 {
            Some(TextureFormat::R8g8b8a8Unorm)
        } else if code == 5i32 {
            Some(TextureFormat::R16Unorm)
        } else if code == 6i32 {
            Some(TextureFormat::R16g16Unorm)
        } else if code == 7i32 {
            Some(TextureFormat::R16g16b16a16Unorm)
        } else if code == 8i32 {
            Some(TextureFormat::R10g10b10a2Unorm)
        } else if code == 9i32 {
            Some(TextureFormat::B5g6r5Unorm)
        } else if code == 10i32 {
            Some(TextureFormat::B5g5r5a1Unorm)
        } else if code == 11i32 {
            Some(TextureFormat::B4g4r4a4Unorm)
        } else if code == 12i32 {
            Some(TextureFormat::B8g8r8a8Unorm)
        } else if code == 13i32 {
            Some(TextureFormat::Bc1RgbaUnorm)
        } else if code == 14i32 {
            Some(TextureFormat::Bc2RgbaUnorm)
        } else if code == 15i32 {
            Some(TextureFormat::Bc3RgbaUnorm)
        } else if code == 16i32 {
            Some(TextureFormat::Bc4RUnorm)
        } else if code == 17i32 {
            Some(TextureFormat::Bc5RgUnorm)
        } else if code == 18i32 {
            Some(TextureFormat::Bc7RgbaUnorm)
        } else if code == 19i32 {
            Some(TextureFormat::Bc6hRgbFloat)
        } else if code == 20i32 {
            Some(TextureFormat::Bc6hRgbUfloat)
        } else if code == 21i32 {
            Some(TextureFormat::R8Snorm)
        } else if code == 22i32 {
            Some(TextureFormat::R8g8Snorm)
        } else if code == 23i32 {
            Some(TextureFormat::R8g8b8a8Snorm)
        } else if code == 24i32 {
            Some(TextureFormat::R16Snorm)
        } else if code == 25i32 {
            Some(TextureFormat::R16g16Snorm)
        } else if code == 26i32 {
            Some(TextureFormat::R16g16b16a16Snorm)
        } else if code == 27i32 {
            Some(TextureFormat::R16Float)
        } else if code == 28i32 {
            Some(TextureFormat::R16g16Float)
        } else if code == 29i32 {
            Some(TextureFormat::R16g16b16a16Float)
        } else if code == 30i32 {
            Some(TextureFormat::R32Float)
        } else if code == 31i32 {
            Some(TextureFormat::R32g32Float)
        } else if code == 32i32 {
            Some(TextureFormat::R32g32b32a32Float)
        } else if code == 33i32 {
            Some(TextureFormat::R11g11b10Ufloat)
        } else if code == 34i32 {
            Some(TextureFormat::R8Uint)
        } else if code == 35i32 {
            Some(TextureFormat::R8g8Uint)
        } else if code == 36i32 {
            Some(TextureFormat::R8g8b8a8Uint)
        } else if code == 37i32 {
            Some(TextureFormat::R16Uint)
        } else if code == 38i32 {
            Some(TextureFormat::R16g16Uint)
        } else if code == 39i32 {
            Some(TextureFormat::R16g16b16a16Uint)
        } else if code == 40i32 {
            Some(TextureFormat::R32Uint)
        } else if code == 41i32 {
            Some(TextureFormat::R32g32Uint)
        } else if code == 42i32 {
            Some(TextureFormat::R32g32b32a32Uint)
        } else if code == 43i32 {
            Some(TextureFormat::R8Int)
        } else if code == 44i32 {
            Some(TextureFormat::R8g8Int)
        } else if code == 45i32 {
            Some(TextureFormat::R8g8b8a8Int)
        } else if code == 46i32 {
            Some(TextureFormat::R16Int)
        } else if code == 47i32 {
            Some(TextureFormat::R16g16Int)
        } else if code == 48i32 {
            Some(TextureFormat::R16g16b16a16Int)
        } else if code == 49i32 {
            Some(TextureFormat::R32Int)
        } else if code == 50i32 {
            Some(TextureFormat::R32g32Int)
        } else if code == 51i32 {
            Some(TextureFormat::R32g32b32a32Int)
        } else if code == 52i32 {
            Some(TextureFormat::R8g8b8a8UnormSrgb)
        } else if code == 53i32 {
            Some(TextureFormat::B8g8r8a8UnormSrgb)
        } else if code == 54i32 {
            Some(TextureFormat::Bc1RgbaUnormSrgb)
        } else if code == 55i32 {
            Some(TextureFormat::Bc2RgbaUnormSrgb)
        } else if code == 56i32 {
            Some(TextureFormat::Bc3RgbaUnormSrgb)
        } else if code == 57i32 {
            Some(TextureFormat::Bc7RgbaUnormSrgb)
        } else if code == 58i32 {
            Some(TextureFormat::D16Unorm)
        } else if code == 59i32 {
            Some(TextureFormat::D24Unorm)
        } else if code == 60i32 {
            Some(TextureFormat::D32Float)
        } else if code == 61i32 {
            Some(TextureFormat::D24UnormS8Uint)
        } else if code == 62i32 {
            Some(TextureFormat::D32FloatS8Uint)
        } else if code == 63i32 {
            Some(TextureFormat::Astc4x4Unorm)
        } else if code == 64i32 {
            Some(TextureFormat::Astc5x4Unorm)
        } else if code == 65i32 {
            Some(TextureFormat::Astc5x5Unorm)
        } else if code == 66i32 {
            Some(TextureFormat::Astc6x5Unorm)
        } else if code == 67i32 {
            Some(TextureFormat::Astc6x6Unorm)
        } else if code == 68i32 {
            Some(TextureFormat::Astc8x5Unorm)
        } else if code == 69i32 {
            Some(TextureFormat::Astc8x6Unorm)
        } else if code == 70i32 {
            Some(TextureFormat::Astc8x8Unorm)
        } else if code == 71i32 {
            Some(TextureFormat::Astc10x5Unorm)
        } else if code == 72i32 {
            Some(TextureFormat::Astc10x6Unorm)
        } else if code == 73i32 {
            Some(TextureFormat::Astc10x8Unorm)
        } else if code == 74i32 {
            Some(TextureFormat::Astc10x10Unorm)
        } else if code == 75i32 {
            Some(TextureFormat::Astc12x10Unorm)
        } else if code == 76i32 {
            Some(TextureFormat::Astc12x12Unorm)
        } else if code == 77i32 {
            Some(TextureFormat::Astc4x4UnormSrgb)
        } else if code == 78i32 {
            Some(TextureFormat::Astc5x4UnormSrgb)
        } else if code == 79i32 {
            Some(TextureFormat::Astc5x5UnormSrgb)
        } else if code == 80i32 {
            Some(TextureFormat::Astc6x5UnormSrgb)
        } else if code == 81i32 {
            Some(TextureFormat::Astc6x6UnormSrgb)
        } else if code == 82i32 {
            Some(TextureFormat::Astc8x5UnormSrgb)
        } else if code == 83i32 {
            Some(TextureFormat::Astc8x6UnormSrgb)
        } else if code == 84i32 {
            Some(TextureFormat::Astc8x8UnormSrgb)
        } else if code == 85i32 {
            Some(TextureFormat::Astc10x5UnormSrgb)
        } else if code == 86i32 {
            Some(TextureFormat::Astc10x6UnormSrgb)
        } else if code == 87i32 {
            Some(TextureFormat::Astc10x8UnormSrgb)
        } else if code == 88i32 {
            Some(TextureFormat::Astc10x10UnormSrgb)
        } else if code == 89i32 {
            Some(TextureFormat::Astc12x10UnormSrgb)
        } else if code == 90i32 {
            Some(TextureFormat::Astc12x12UnormSrgb)
        } else if code == 91i32 {
            Some(TextureFormat::Astc4x4Float)
        } else if code == 92i32 {
            Some(TextureFormat::Astc5x4Float)
        } else if code == 93i32 {
            Some(TextureFormat::Astc5x5Float)
        } else if code == 94i32 {
            Some(TextureFormat::Astc6x5Float)
        } else if code == 95i32 {
            Some(TextureFormat::Astc6x6Float)
        } else if code == 96i32 {
            Some(TextureFormat::Astc8x5Float)
        } else if code == 97i32 {
            Some(TextureFormat::Astc8x6Float)
        } else if code == 98i32 {
            Some(TextureFormat::Astc8x8Float)
        } else if code == 99i32 {
            Some(TextureFormat::Astc10x5Float)
        } else if code == 100i32 {
            Some(TextureFormat::Astc10x6Float)
        } else if code == 101i32 {
            Some(TextureFormat::Astc10x8Float)
        } else if code == 102i32 {
            Some(TextureFormat::Astc10x10Float)
        } else if code == 103i32 {
            Some(TextureFormat::Astc12x10Float)
        } else if code == 104i32 {
            Some(TextureFormat::Astc12x12Float)
        } else {
            None
        }
    }

    /// The SDL code of this value.
    pub fn to_sdl(self) -> (c: i32)
        ensures
            c == self.code(),
    {
        match self {
            TextureFormat::A8Unorm => 1i32,
            TextureFormat::R8Unorm => 2i32,
            TextureFormat::R8g8Unorm => 3i32,
            TextureFormat::R8g8b8a8Unorm => 4i32,
            TextureFormat::R16Unorm => 5i32,
            TextureFormat::R16g16Unorm => 6i32,
            TextureFormat::R16g16b16a16Unorm => 7i32,
            TextureFormat::R10g10b10a2Unorm => 8i32,
            TextureFormat::B5g6r5Unorm => 9i32,
            TextureFormat::B5g5r5a1Unorm => 10i32,
            TextureFormat::B4g4r4a4Unorm => 11i32,
            TextureFormat::B8g8r8a8Unorm => 12i32,
            TextureFormat::Bc1RgbaUnorm => 13i32,
            TextureFormat::Bc2RgbaUnorm => 14i32,
            TextureFormat::Bc3RgbaUnorm => 15i32,
            TextureFormat::Bc4RUnorm => 16i32,
            TextureFormat::Bc5RgUnorm => 17i32,
            TextureFormat::Bc7RgbaUnorm => 18i32,
            TextureFormat::Bc6hRgbFloat => 19i32,
            TextureFormat::Bc6hRgbUfloat => 20i32,
            TextureFormat::R8Snorm => 21i32,
            TextureFormat::R8g8Snorm => 22i32,
            TextureFormat::R8g8b8a8Snorm => 23i32,
            TextureFormat::R16Snorm => 24i32,
            TextureFormat::R16g16Snorm => 25i32,
            TextureFormat::R16g16b16a16Snorm => 26i32,
            TextureFormat::R16Float => 27i32,
            TextureFormat::R16g16Float => 28i32,
            TextureFormat::R16g16b16a16Float => 29i32,
            TextureFormat::R32Float => 30i32,
            TextureFormat::R32g32Float => 31i32,
            TextureFormat::R32g32b32a32Float => 32i32,
            TextureFormat::R11g11b10Ufloat => 33i32,
            TextureFormat::R8Uint => 34i32,
            TextureFormat::R8g8Uint => 35i32,
            TextureFormat::R8g8b8a8Uint => 36i32,
            TextureFormat::R16Uint => 37i32,
            TextureFormat::R16g16Uint => 38i32,
            TextureFormat::R16g16b16a16Uint => 39i32,
            TextureFormat::R32Uint => 40i32,
            TextureFormat::R32g32Uint => 41i32,
            TextureFormat::R32g32b32a32Uint => 42i32,
            TextureFormat::R8Int => 43i32,
            TextureFormat::R8g8Int => 44i32,
            TextureFormat::R8g8b8a8Int => 45i32,
            TextureFormat::R16Int => 46i32,
            TextureFormat::R16g16Int => 47i32,
            TextureFormat::R16g16b16a16Int => 48i32,
            TextureFormat::R32Int => 49i32,
            TextureFormat::R32g32Int => 50i32,
            TextureFormat::R32g32b32a32Int => 51i32,
            TextureFormat::R8g8b8a8UnormSrgb => 52i32,
            TextureFormat::B8g8r8a8UnormSrgb => 53i32,
            TextureFormat::Bc1RgbaUnormSrgb => 54i32,
            TextureFormat::Bc2RgbaUnormSrgb => 55i32,
            TextureFormat::Bc3RgbaUnormSrgb => 56i32,
            TextureFormat::Bc7RgbaUnormSrgb => 57i32,
            TextureFormat::D16Unorm => 58i32,
            TextureFormat::D24Unorm => 59i32,
            TextureFormat::D32Float => 60i32,
            TextureFormat::D24UnormS8Uint => 61i32,
            TextureFormat::D32FloatS8Uint => 62i32,
            TextureFormat::Astc4x4Unorm => 63i32,
            TextureFormat::Astc5x4Unorm => 64i32,
            TextureFormat::Astc5x5Unorm => 65i32,
            TextureFormat::Astc6x5Unorm => 66i32,
            TextureFormat::Astc6x6Unorm => 67i32,
            TextureFormat::Astc8x5Unorm => 68i32,
            TextureFormat::Astc8x6Unorm => 69i32,
            TextureFormat::Astc8x8Unorm => 70i32,
            TextureFormat::Astc10x5Unorm => 71i32,
            TextureFormat::Astc10x6Unorm => 72i32,
            TextureFormat::Astc10x8Unorm => 73i32,
            TextureFormat::Astc10x10Unorm => 74i32,
            TextureFormat::Astc12x10Unorm => 75i32,
            TextureFormat::Astc12x12Unorm => 76i32,
            TextureFormat::Astc4x4UnormSrgb => 77i32,
            TextureFormat::Astc5x4UnormSrgb => 78i32,
            TextureFormat::Astc5x5UnormSrgb => 79i32,
            TextureFormat::Astc6x5UnormSrgb => 80i32,
            TextureFormat::Astc6x6UnormSrgb => 81i32,
            TextureFormat::Astc8x5UnormSrgb => 82i32,
            TextureFormat::Astc8x6UnormSrgb => 83i32,
            TextureFormat::Astc8x8UnormSrgb => 84i32,
            TextureFormat::Astc10x5UnormSrgb => 85i32,
            TextureFormat::Astc10x6UnormSrgb => 86i32,
            TextureFormat::Astc10x8UnormSrgb => 87i32,
            TextureFormat::Astc10x10UnormSrgb => 88i32,
            TextureFormat::Astc12x10UnormSrgb => 89i32,
            TextureFormat::Astc12x12UnormSrgb => 90i32,
            TextureFormat::Astc4x4Float => 91i32,
            TextureFormat::Astc5x4Float => 92i32,
            TextureFormat::Astc5x5Float => 93i32,
            TextureFormat::Astc6x5Float => 94i32,
            TextureFormat::Astc6x6Float => 95i32,
            TextureFormat::Astc8x5Float => 96i32,
            TextureFormat::Astc8x6Float => 97i32,
            TextureFormat::Astc8x8Float => 98i32,
            TextureFormat::Astc10x5Float => 99i32,
            TextureFormat::Astc10x6Float => 100i32,
            TextureFormat::Astc10x8Float => 101i32,
            TextureFormat::Astc10x10Float => 102i32,
            TextureFormat::Astc12x10Float => 103i32,
            TextureFormat::Astc12x12Float => 104i32,
        }
    }

    /// The value whose SDL code is `code`; `None` for a code that names
    /// no value of this type.
    pub fn from_sdl(code: i32) -> (r: Option<Self>)
        ensures
            r == Self::from_code(code),
    {
        if code == 1i32 {
            Some(TextureFormat::A8Unorm)
        } else if code == 2i32 {
            Some(TextureFormat::R8Unorm)
        } else if code == 3i32 {
            Some(TextureFormat::R8g8Unorm)
        } else if code == 4i32 {
            Some(TextureFormat::R8g8b8a8Unorm)
        } else if code == 5i32 {
            Some(TextureFormat::R16Unorm)
        } else if code == 6i32 {
            Some(TextureFormat::R16g16Unorm)
        } else if code == 7i32 {
            Some(TextureFormat::R16g16b16a16Unorm)
        } else if code == 8i32 {
            Some(TextureFormat::R10g10b10a2Unorm)
        } else if code == 9i32 {
            Some(TextureFormat::B5g6r5Unorm)
        } else if code == 10i32 {
            Some(TextureFormat::B5g5r5a1Unorm)
        } else if code == 11i32 {
            Some(TextureFormat::B4g4r4a4Unorm)
        } else if code == 12i32 {
            Some(TextureFormat::B8g8r8a8Unorm)
        } else if code == 13i32 {
            Some(TextureFormat::Bc1RgbaUnorm)
        } else if code == 14i32 {
            Some(TextureFormat::Bc2RgbaUnorm)
        } else if code == 15i32 {
            Some(TextureFormat::Bc3RgbaUnorm)
        } else if code == 16i32 {
            Some(TextureFormat::Bc4RUnorm)
        } else if code == 17i32 {
            Some(TextureFormat::Bc5RgUnorm)
        } else if code == 18i32 {
            Some(TextureFormat::Bc7RgbaUnorm)
        } else if code == 19i32 {
            Some(TextureFormat::Bc6hRgbFloat)
        } else if code == 20i32 {
            Some(TextureFormat::Bc6hRgbUfloat)
        } else if code == 21i32 {
            Some(TextureFormat::R8Snorm)
        } else if code == 22i32 {
            Some(TextureFormat::R8g8Snorm)
        } else if code == 23i32 {
            Some(TextureFormat::R8g8b8a8Snorm)
        } else if code == 24i32 {
            Some(TextureFormat::R16Snorm)
        } else if code == 25i32 {
            Some(TextureFormat::R16g16Snorm)
        } else if code == 26i32 {
            Some(TextureFormat::R16g16b16a16Snorm)
        } else if code == 27i32 {
            Some(TextureFormat::R16Float)
        } else if code == 28i32 {
            Some(TextureFormat::R16g16Float)
        } else if code == 29i32 {
            Some(TextureFormat::R16g16b16a16Float)
        } else if code == 30i32 {
            Some(TextureFormat::R32Float)
        } else if code == 31i32 {
            Some(TextureFormat::R32g32Float)
        } else if code == 32i32 {
            Some(TextureFormat::R32g32b32a32Float)
        } else if code == 33i32 {
            Some(TextureFormat::R11g11b10Ufloat)
        } else if code == 34i32 {
            Some(TextureFormat::R8Uint)
        } else if code == 35i32 {
            Some(TextureFormat::R8g8Uint)
        } else if code == 36i32 {
            Some(TextureFormat::R8g8b8a8Uint)
        } else if code == 37i32 {
            Some(TextureFormat::R16Uint)
        } else if code == 38i32 {
            Some(TextureFormat::R16g16Uint)
        } else if code == 39i32 {
            Some(TextureFormat::R16g16b16a16Uint)
        } else if code == 40i32 {
            Some(TextureFormat::R32Uint)
        } else if code == 41i32 {
            Some(TextureFormat::R32g32Uint)
        } else if code == 42i32 {
            Some(TextureFormat::R32g32b32a32Uint)
        } else if code == 43i32 {
            Some(TextureFormat::R8Int)
        } else if code == 44i32 {
            Some(TextureFormat::R8g8Int)
        } else if code == 45i32 {
            Some(TextureFormat::R8g8b8a8Int)
        } else if code == 46i32 {
            Some(TextureFormat::R16Int)
        } else if code == 47i32 {
            Some(TextureFormat::R16g16Int)
        } else if code == 48i32 {
            Some(TextureFormat::R16g16b16a16Int)
        } else if code == 49i32 {
            Some(TextureFormat::R32Int)
        } else if code == 50i32 {
            Some(TextureFormat::R32g32Int)
        } else if code == 51i32 {
            Some(TextureFormat::R32g32b32a32Int)
        } else if code == 52i32 {
            Some(TextureFormat::R8g8b8a8UnormSrgb)
        } else if code == 53i32 {
            Some(TextureFormat::B8g8r8a8UnormSrgb)
        } else if code == 54i32 {
            Some(TextureFormat::Bc1RgbaUnormSrgb)
        } else if code == 55i32 {
            Some(TextureFormat::Bc2RgbaUnormSrgb)
        } else if code == 56i32 {
            Some(TextureFormat::Bc3RgbaUnormSrgb)
        } else if code == 57i32 {
            Some(TextureFormat::Bc7RgbaUnormSrgb)
        } else if code == 58i32 {
            Some(TextureFormat::D16Unorm)
        } else if code == 59i32 {
            Some(TextureFormat::D24Unorm)
        } else if code == 60i32 {
            Some(TextureFormat::D32Float)
        } else if code == 61i32 {
            Some(TextureFormat::D24UnormS8Uint)
        } else if code == 62i32 {
            Some(TextureFormat::D32FloatS8Uint)
        } else if code == 63i32 {
            Some(TextureFormat::Astc4x4Unorm)
        } else if code == 64i32 {
            Some(TextureFormat::Astc5x4Unorm)
        } else if code == 65i32 {
            Some(TextureFormat::Astc5x5Unorm)
        } else if code == 66i32 {
            Some(TextureFormat::Astc6x5Unorm)
        } else if code == 67i32 {
            Some(TextureFormat::Astc6x6Unorm)
        } else if code == 68i32 {
            Some(TextureFormat::Astc8x5Unorm)
        } else if code == 69i32 {
            Some(TextureFormat::Astc8x6Unorm)
        } else if code == 70i32 {
            Some(TextureFormat::Astc8x8Unorm)
        } else if code == 71i32 {
            Some(TextureFormat::Astc10x5Unorm)
        } else if code == 72i32 {
            Some(TextureFormat::Astc10x6Unorm)
        } else if code == 73i32 {
            Some(TextureFormat::Astc10x8Unorm)
        } else if code == 74i32 {
            Some(TextureFormat::Astc10x10Unorm)
        } else if code == 75i32 {
            Some(TextureFormat::Astc12x10Unorm)
        } else if code == 76i32 {
            Some(TextureFormat::Astc12x12Unorm)
        } else if code == 77i32 {
            Some(TextureFormat::Astc4x4UnormSrgb)
        } else if code == 78i32 {
            Some(TextureFormat::Astc5x4UnormSrgb)
        } else if code == 79i32 {
            Some(TextureFormat::Astc5x5UnormSrgb)
        } else if code == 80i32 {
            Some(TextureFormat::Astc6x5UnormSrgb)
        } else if code == 81i32 {
            Some(TextureFormat::Astc6x6UnormSrgb)
        } else if code == 82i32 {
            Some(TextureFormat::Astc8x5UnormSrgb)
        } else if code == 83i32 {
            Some(TextureFormat::Astc8x6UnormSrgb)
        } else if code == 84i32 {
            Some(TextureFormat::Astc8x8UnormSrgb)
        } else if code == 85i32 {
            Some(TextureFormat::Astc10x5UnormSrgb)
        } else if code == 86i32 {
            Some(TextureFormat::Astc10x6UnormSrgb)
        } else if code == 87i32 {
            Some(TextureFormat::Astc10x8UnormSrgb)
        } else if code == 88i32 {
            Some(TextureFormat::Astc10x10UnormSrgb)
        } else if code == 89i32 {
            Some(TextureFormat::Astc12x10UnormSrgb)
        } else if code == 90i32 {
            Some(TextureFormat::Astc12x12UnormSrgb)
        } else if code == 91i32 {
            Some(TextureFormat::Astc4x4Float)
        } else if code == 92i32 {
            Some(TextureFormat::Astc5x4Float)
        } else if code == 93i32 {
            Some(TextureFormat::Astc5x5Float)
        } else if code == 94i32 {
            Some(TextureFormat::Astc6x5Float)
        } else if code == 95i32 {
            Some(TextureFormat::Astc6x6Float)
        } else if code == 96i32 {
            Some(TextureFormat::Astc8x5Float)
        } else if code == 97i32 {
            Some(TextureFormat::Astc8x6Float)
        } else if code == 98i32 {
            Some(TextureFormat::Astc8x8Float)
        } else if code == 99i32 {
            Some(TextureFormat::Astc10x5Float)
        } else if code == 100i32 {
            Some(TextureFormat::Astc10x6Float)
        } else if code == 101i32 {
            Some(TextureFormat::Astc10x8Float)
        } else if code == 102i32 {
            Some(TextureFormat::Astc10x10Float)
        } else if code == 103i32 {
            Some(TextureFormat::Astc12x10Float)
        } else if code == 104i32 {
            Some(TextureFormat::Astc12x12Float)
        } else {
            None
        }
    }
}

/// Every TextureFormat has its own SDL code: the code of a value reads back as
/// that value, and a code that reads back as a value is that value's code.
pub proof fn lemma_texture_format_code_roundtrip(v: TextureFormat, code: i32)
    ensures
        TextureFormat::from_code(v.code()) == Some(v),
        TextureFormat::from_code(code) == Some(v) ==> v.code() == code,
{
}

/// The code of each TextureFormat is the number SDL's headers give the `SDL_GPUTextureFormat`
/// constant of the same name, value by value.
pub proof fn lemma_texture_format_sdl_codes()
    ensures
        TextureFormat::A8Unorm.code() == 1i32,
        TextureFormat::R8Unorm.code() == 2i32,
        TextureFormat::R8g8Unorm.code() == 3i32,
        TextureFormat::R8g8b8a8Unorm.code() == 4i32,
        TextureFormat::R16Unorm.code() == 5i32,
        TextureFormat::R16g16Unorm.code() == 6i32,
        TextureFormat::R16g16b16a16Unorm.code() == 7i32,
        TextureFormat::R10g10b10a2Unorm.code() == 8i32,
        TextureFormat::B5g6r5Unorm.code() == 9i32,
        TextureFormat::B5g5r5a1Unorm.code() == 10i32,
        TextureFormat::B4g4r4a4Unorm.code() == 11i32,
        TextureFormat::B8g8r8a8Unorm.code() == 12i32,
        TextureFormat::Bc1RgbaUnorm.code() == 13i32,
        TextureFormat::Bc2RgbaUnorm.code() == 14i32,
        TextureFormat::Bc3RgbaUnorm.code() == 15i32,
        TextureFormat::Bc4RUnorm.code() == 16i32,
        TextureFormat::Bc5RgUnorm.code() == 17i32,
        TextureFormat::Bc7RgbaUnorm.code() == 18i32,
        TextureFormat::Bc6hRgbFloat.code() == 19i32,
        TextureFormat::Bc6hRgbUfloat.code() == 20i32,
        TextureFormat::R8Snorm.code() == 21i32,
        TextureFormat::R8g8Snorm.code() == 22i32,
        TextureFormat::R8g8b8a8Snorm.code() == 23i32,
        TextureFormat::R16Snorm.code() == 24i32,
        TextureFormat::R16g16Snorm.code() == 25i32,
        TextureFormat::R16g16b16a16Snorm.code() == 26i32,
        TextureFormat::R16Float.code() == 27i32,
        TextureFormat::R16g16Float.code() == 28i32,
        TextureFormat::R16g16b16a16Float.code() == 29i32,
        TextureFormat::R32Float.code() == 30i32,
        TextureFormat::R32g32Float.code() == 31i32,
        TextureFormat::R32g32b32a32Float.code() == 32i32,
        TextureFormat::R11g11b10Ufloat.code() == 33i32,
        TextureFormat::R8Uint.code() == 34i32,
        TextureFormat::R8g8Uint.code() == 35i32,
        TextureFormat::R8g8b8a8Uint.code() == 36i32,
        TextureFormat::R16Uint.code() == 37i32,
        TextureFormat::R16g16Uint.code() == 38i32,
        TextureFormat::R16g16b16a16Uint.code() == 39i32,
        TextureFormat::R32Uint.code() == 40i32,
        TextureFormat::R32g32Uint.code() == 41i32,
        TextureFormat::R32g32b32a32Uint.code() == 42i32,
        TextureFormat::R8Int.code() == 43i32,
        TextureFormat::R8g8Int.code() == 44i32,
        TextureFormat::R8g8b8a8Int.code() == 45i32,
        TextureFormat::R16Int.code() == 46i32,
        TextureFormat::R16g16Int.code() == 47i32,
        TextureFormat::R16g16b16a16Int.code() == 48i32,
        TextureFormat::R32Int.code() == 49i32,
        TextureFormat::R32g32Int.code() == 50i32,
        TextureFormat::R32g32b32a32Int.code() == 51i32,
        TextureFormat::R8g8b8a8UnormSrgb.code() == 52i32,
        TextureFormat::B8g8r8a8UnormSrgb.code() == 53i32,
        TextureFormat::Bc1RgbaUnormSrgb.code() == 54i32,
        TextureFormat::Bc2RgbaUnormSrgb.code() == 55i32,
        TextureFormat::Bc3RgbaUnormSrgb.code() == 56i32,
        TextureFormat::Bc7RgbaUnormSrgb.code() == 57i32,
        TextureFormat::D16Unorm.code() == 58i32,
        TextureFormat::D24Unorm.code() == 59i32,
        TextureFormat::D32Float.code() == 60i32,
        TextureFormat::D24UnormS8Uint.code() == 61i32,
        TextureFormat::D32FloatS8Uint.code() == 62i32,
        TextureFormat::Astc4x4Unorm.code() == 63i32,
        TextureFormat::Astc5x4Unorm.code() == 64i32,
        TextureFormat::Astc5x5Unorm.code() == 65i32,
        TextureFormat::Astc6x5Unorm.code() == 66i32,
        TextureFormat::Astc6x6Unorm.code() == 67i32,
        TextureFormat::Astc8x5Unorm.code() == 68i32,
        TextureFormat::Astc8x6Unorm.code() == 69i32,
        TextureFormat::Astc8x8Unorm.code() == 70i32,
        TextureFormat::Astc10x5Unorm.code() == 71i32,
        TextureFormat::Astc10x6Unorm.code() == 72i32,
        TextureFormat::Astc10x8Unorm.code() == 73i32,
        TextureFormat::Astc10x10Unorm.code() == 74i32,
        TextureFormat::Astc12x10Unorm.code() == 75i32,
        TextureFormat::Astc12x12Unorm.code() == 76i32,
        TextureFormat::Astc4x4UnormSrgb.code() == 77i32,
        TextureFormat::Astc5x4UnormSrgb.code() == 78i32,
        TextureFormat::Astc5x5UnormSrgb.code() == 79i32,
        TextureFormat::Astc6x5UnormSrgb.code() == 80i32,
        TextureFormat::Astc6x6UnormSrgb.code() == 81i32,
        TextureFormat::Astc8x5UnormSrgb.code() == 82i32,
        TextureFormat::Astc8x6UnormSrgb.code() == 83i32,
        TextureFormat::Astc8x8UnormSrgb.code() == 84i32,
        TextureFormat::Astc10x5UnormSrgb.code() == 85i32,
        TextureFormat::Astc10x6UnormSrgb.code() == 86i32,
        TextureFormat::Astc10x8UnormSrgb.code() == 87i32,
        TextureFormat::Astc10x10UnormSrgb.code() == 88i32,
        TextureFormat::Astc12x10UnormSrgb.code() == 89i32,
        TextureFormat::Astc12x12UnormSrgb.code() == 90i32,
        TextureFormat::Astc4x4Float.code() == 91i32,
        TextureFormat::Astc5x4Float.code() == 92i32,
        TextureFormat::Astc5x5Float.code() == 93i32,
        TextureFormat::Astc6x5Float.code() == 94i32,
        TextureFormat::Astc6x6Float.code() == 95i32,
        TextureFormat::Astc8x5Float.code() == 96i32,
        TextureFormat::Astc8x6Float.code() == 97i32,
        TextureFormat::Astc8x8Float.code() == 98i32,
        TextureFormat::Astc10x5Float.code() == 99i32,
        TextureFormat::Astc10x6Float.code() == 100i32,
        TextureFormat::Astc10x8Float.code() == 101i32,
        TextureFormat::Astc10x10Float.code() == 102i32,
        TextureFormat::Astc12x10Float.code() == 103i32,
        TextureFormat::Astc12x12Float.code() == 104i32,
{
}

/// The parameters of a new texture. The extension properties are left out:
/// they are always zero.
#[derive(Clone, Copy, Debug, PartialEq, Eq, Structural)]
pub struct TextureCreateInfo {
    pub kind: TextureType,
    pub format: TextureFormat,
    pub usage: TextureUsageFlags,
    pub width: u32,
    pub height: u32,
    pub layer_count_or_depth: u32,
    pub num_levels: u32,
    pub sample_count: SampleCount,
}

impl TextureCreateInfo {
    /// Describe a texture of kind `kind` and format `format`, used as
    /// `usage`, `size.x` wide and `size.y` high, with the given layer count
    /// (or depth, for 3D textures), number of mipmap levels and samples.
    pub fn new(
        kind: TextureType,
        format: TextureFormat,
        usage: TextureUsageFlags,
        size: Point<u32>,
        layer_count_or_depth: u32,
        num_levels: u32,
        samples: SampleCount,
    ) -> (ci: Self)
        ensures
            ci == (TextureCreateInfo {
                kind,
                format,
                usage,
                width: size.x,
                height: size.y,
                layer_count_or_depth,
                num_levels,
                sample_count: samples,
            }),
    {
        TextureCreateInfo {
            kind,
            format,
            usage,
            width: size.x,
            height: size.y,
            layer_count_or_depth,
            num_levels,
            sample_count: samples,
        }
    }
}

/// Where texel data lies in a transfer buffer: the buffer, the byte offset,
/// and the texels per row and rows per layer (0 meaning tightly packed).
#[derive(Clone, Copy, Debug, PartialEq, Eq)]
pub struct TextureTransferInfo<B> {
    pub transfer_buffer: B,
    pub offset: u32,
    pub pixels_per_row: u32,
    pub rows_per_layer: u32,
}

impl<B: Copy> TextureTransferInfo<B> {
    pub fn new(transfer_buffer: B, offset: u32, pixels_per_row: u32, rows_per_layer: u32) -> (t: Self)
        ensures
            t == (TextureTransferInfo { transfer_buffer, offset, pixels_per_row, rows_per_layer }),
    {
        TextureTransferInfo { transfer_buffer, offset, pixels_per_row, rows_per_layer }
    }
}

/// A box of texels in one mip level and layer of a texture.
#[derive(Clone, Copy, Debug, PartialEq, Eq)]
pub struct TextureRegion<H> {
    pub texture: H,
    pub mip_level: u32,
    pub layer: u32,
    pub x: u32,
    pub y: u32,
    pub z: u32,
    pub w: u32,
    pub h: u32,
    pub d: u32,
}

impl<H: Copy> TextureRegion<H> {
    /// The region of `texture` at `origin` (x, y, z) of the given `size`
    /// (width, height, depth).
    pub fn new(texture: H, mip_level: u32, layer: u32, origin: (u32, u32, u32), size: (u32, u32, u32)) -> (r: Self)
        ensures
            r == (TextureRegion {
                texture,
                mip_level,
                layer,
                x: origin.0,
                y: origin.1,
                z: origin.2,
                w: size.0,
                h: size.1,
                d: size.2,
            }),
    {
        TextureRegion {
            texture,
            mip_level,
            layer,
            x: origin.0,
            y: origin.1,
            z: origin.2,
            w: size.0,
            h: size.1,
            d: size.2,
        }
    }

    /// All of the first mip level and layer of a `w` by `h` 2D texture.
    pub fn whole_2d(texture: H, size: (u32, u32)) -> (r: Self)
        ensures
            r == (TextureRegion {
                texture,
                mip_level: 0,
                layer: 0,
                x: 0,
                y: 0,
                z: 0,
                w: size.0,
                h: size.1,
                d: 1,
            }),
    {
        Self::new(texture, 0, 0, (0, 0, 0), (size.0, size.1, 1))
    }
}

/// A texel position in one mip level and layer of a texture.
#[derive(Clone, Copy, Debug, PartialEq, Eq)]
pub struct TextureLocation<H> {
    pub texture: H,
    pub mip_level: u32,
    pub layer: u32,
    pub x: u32,
    pub y: u32,
    pub z: u32,
}

impl<H: Copy> TextureLocation<H> {
    pub fn new(texture: H, mip_level: u32, layer: u32, position: (u32, u32, u32)) -> (l: Self)
        ensures
            l == (TextureLocation { texture, mip_level, layer, x: position.0, y: position.1, z: position.2 }),
    {
        TextureLocation { texture, mip_level, layer, x: position.0, y: position.1, z: position.2 }
    }

    /// The first texel of the first mip level and layer.
    pub fn at_start(texture: H) -> (l: Self)
        ensures
            l == (TextureLocation { texture, mip_level: 0, layer: 0, x: 0, y: 0, z: 0 }),
    {
        Self::new(texture, 0, 0, (0, 0, 0))
    }
}

/// A texture bound together with the sampler that reads it.
#[derive(Clone, Copy, Debug, PartialEq, Eq)]
pub struct TextureSamplerBinding<H, S> {
    pub texture: H,
    pub sampler: S,
}

impl<H: Copy, S: Copy> TextureSamplerBinding<H, S> {
    pub fn new(texture: H, sampler: S) -> (b: Self)
        ensures
            b == (TextureSamplerBinding { texture, sampler }),
    {
        TextureSamplerBinding { texture, sampler }
    }
}

/// A storage texture bound for reading and writing: the texture, its mip
/// level and layer, and whether it is cycled if it is in use.
#[derive(Clone, Copy, Debug, PartialEq, Eq)]
pub struct StorageTextureReadWriteBinding<H> {
    pub texture: H,
    pub mip_level: u32,
    pub layer: u32,
    pub cycle: bool,
}

impl<H: Copy> StorageTextureReadWriteBinding<H> {
    pub fn new(texture: H, mip_level: u32, layer: u32, cycle: bool) -> (b: Self)
        ensures
            b == (StorageTextureReadWriteBinding { texture, mip_level, layer, cycle }),
    {
        StorageTextureReadWriteBinding { texture, mip_level, layer, cycle }
    }
}

/// A rectangle of one mip level and layer (or depth plane) of a texture,
/// as the source or destination of a blit.
#[derive(Clone, Copy, Debug, PartialEq, Eq)]
pub struct BlitRegion<H> {
    pub texture: H,
    pub mip_level: u32,
    pub layer_or_depth_plane: u32,
    pub x: u32,
    pub y: u32,
    pub w: u32,
    pub h: u32,
}

impl<H: Copy> BlitRegion<H> {
    /// The rectangle (x, y, width, height) of `texture`.
    pub fn new(texture: H, mip_level: u32, layer_or_depth_plane: u32, rect: (u32, u32, u32, u32)) -> (r: Self)
        ensures
            r == (BlitRegion {
                texture,
                mip_level,
                layer_or_depth_plane,
                x: rect.0,
                y: rect.1,
                w: rect.2,
                h: rect.3,
            }),
    {
        BlitRegion {
            texture,
            mip_level,
            layer_or_depth_plane,
            x: rect.0,
            y: rect.1,
            w: rect.2,
            h: rect.3,
        }
    }
}

} // verus!
