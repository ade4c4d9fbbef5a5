//! Sampler filtering, addressing and comparison, and the parameters of a
//! new sampler.

use vstd::prelude::*;

verus! {

/// The filter of a texture lookup.
///
/// The values are those of `SDL_GPUFilter`.
#[derive(Clone, Copy, Debug, PartialEq, Eq, Hash, Structural)]
pub enum Filter {
    Nearest,
    Linear,
}

impl Filter {
    /// The SDL code of this value.
    pub open spec fn code(self) -> i32 {
        match self {
            Filter::Nearest => 0i32,
            Filter::Linear => 1i32,
        }
    }

    /// The value whose SDL code is `code`, if any.
    pub open spec fn from_code(code: i32) -> Option<Filter> {
        if code == 0i32 {
            Some(Filter::Nearest)
        } else if code == 1i32 {
            Some(Filter::Linear)
        } else {
            None
        }
    }

    /// The SDL code of this value.
    pub fn to_sdl(self) -> (c: i32)
        ensures
            c == self.code(),
    {
        match self {
            Filter::Nearest => 0i32,
            Filter::Linear => 1i32,
        }
    }

    /// The value whose SDL code is `code`; `None` for a code that names
    /// no value of this type.
    pub fn from_sdl(code: i32) -> (r: Option<Self>)
        ensures
            r == Self::from_code(code),
    {
        if code == 0i32 {
            Some(Filter::Nearest)
        } else if code == 1i32 {
            Some(Filter::Linear)
        } else {
            None
        }
    }
}

/// Every Filter has its own SDL code: the code of a value reads back as
/// that value, and a code that reads back as a value is that value's code.
pub proof fn lemma_filter_code_roundtrip(v: Filter, code: i32)
    ensures
        Filter::from_code(v.code()) == Some(v),
        Filter::from_code(code) == Some(v) ==> v.code() == code,
{
}

/// The code of each Filter is the number SDL's headers give the `SDL_GPUFilter`
/// constant of the same name, value by value.
pub proof fn lemma_filter_sdl_codes()
    ensures
        Filter::Nearest.code() == 0i32,
        Filter::Linear.code() == 1i32,
{
}

/// How mipmap levels are chosen in a lookup.
///
/// The values are those of `SDL_GPUSamplerMipmapMode`.
#[derive(Clone, Copy, Debug, PartialEq, Eq, Hash, Structural)]
pub enum SamplerMipmapMode {
    Nearest,
    Linear,
}

impl SamplerMipmapMode {
    /// The SDL code of this value.
    pub open spec fn code(self) -> i32 {
        match self {
            SamplerMipmapMode::Nearest => 0i32,
            SamplerMipmapMode::Linear => 1i32,
        }
    }

    /// The value whose SDL code is `code`, if any.
    pub open spec fn from_code(code: i32) -> Option<SamplerMipmapMode> {
        if code == 0i32 {
            Some(SamplerMipmapMode::Nearest)
        } else if code == 1i32 {
            Some(SamplerMipmapMode::Linear)
        } else {
            None
        }
    }

    /// The SDL code of this value.
    pub fn to_sdl(self) -> (c: i32)
        ensures
            c == self.code(),
    {
        match self {
            SamplerMipmapMode::Nearest => 0i32,
            SamplerMipmapMode::Linear => 1i32,
        }
    }

    /// The value whose SDL code is `code`; `None` for a code that names
    /// no value of this type.
    pub fn from_sdl(code: i32) -> (r: Option<Self>)
        ensures
            r == Self::from_code(code),
    {
        if code == 0i32 {
            Some(SamplerMipmapMode::Nearest)
        } else if code == 1i32 {
            Some(SamplerMipmapMode::Linear)
        } else {
            None
        }
    }
}

/// Every SamplerMipmapMode has its own SDL code: the code of a value reads back as
/// that value, and a code that reads back as a value is that value's code.
pub proof fn lemma_sampler_mipmap_mode_code_roundtrip(v: SamplerMipmapMode, code: i32)
    ensures
        SamplerMipmapMode::from_code(v.code()) == Some(v),
        SamplerMipmapMode::from_code(code) == Some(v) ==> v.code() == code,
{
}

/// The code of each SamplerMipmapMode is the number SDL's headers give the `SDL_GPUSamplerMipmapMode`
/// constant of the same name, value by value.
pub proof fn lemma_sampler_mipmap_mode_sdl_codes()
    ensures
        SamplerMipmapMode::Nearest.code() == 0i32,
        SamplerMipmapMode::Linear.code() == 1i32,
{
}

/// How coordinates outside `[0, 1)` are treated.
///
/// The values are those of `SDL_GPUSamplerAddressMode`.
#[derive(Clone, Copy, Debug, PartialEq, Eq, Hash, Structural)]
pub enum SamplerAddressMode {
    Repeat,
    MirroredRepeat,
    ClampToEdge,
}

impl SamplerAddressMode {
    /// The SDL code of this value.
    pub open spec fn code(self) -> i32 {
        match self {
            SamplerAddressMode::Repeat => 0i32,
            SamplerAddressMode::MirroredRepeat => 1i32,
            SamplerAddressMode::ClampToEdge => 2i32,
        }
    }

    /// The value whose SDL code is `code`, if any.
    pub open spec fn from_code(code: i32) -> Option<SamplerAddressMode> {
        if code == 0i32 {
            Some(SamplerAddressMode::Repeat)
        } else if code == 1i32 {
            Some(SamplerAddressMode::MirroredRepeat)
        } else if code == 2i32 {
            Some(SamplerAddressMode::ClampToEdge)
        } else {
            None
        }
    }

    /// The SDL code of this value.
    pub fn to_sdl(self) -> (c: i32)
        ensures
            c == self.code(),
    {
        match self {
            SamplerAddressMode::Repeat => 0i32,
            SamplerAddressMode::MirroredRepeat => 1i32,
            SamplerAddressMode::ClampToEdge => 2i32,
        }
    }

    /// The value whose SDL code is `code`; `None` for a code that names
    /// no value of this type.
    pub fn from_sdl(code: i32) -> (r: Option<Self>)
        ensures
            r == Self::from_code(code),
    {
        if code == 0i32 {
            Some(SamplerAddressMode::Repeat)
        } else if code == 1i32 {
            Some(SamplerAddressMode::MirroredRepeat)
        } else if code == 2i32 {
            Some(SamplerAddressMode::ClampToEdge)
        } else {
            None
        }
    }
}

/// Every SamplerAddressMode has its own SDL code: the code of a value reads back as
/// that value, and a code that reads back as a value is that value's code.
pub proof fn lemma_sampler_address_mode_code_roundtrip(v: SamplerAddressMode, code: i32)
    ensures
        SamplerAddressMode::from_code(v.code()) == Some(v),
        SamplerAddressMode::from_code(code) == Some(v) ==> v.code() == code,
{
}

/// The code of each SamplerAddressMode is the number SDL's headers give the `SDL_GPUSamplerAddressMode`
/// constant of the same name, value by value.
pub proof fn lemma_sampler_address_mode_sdl_codes()
    ensures
        SamplerAddressMode::Repeat.code() == 0i32,
        SamplerAddressMode::MirroredRepeat.code() == 1i32,
        SamplerAddressMode::ClampToEdge.code() == 2i32,
{
}

/// A comparison of a reference value with a test value.
///
/// The values are those of `SDL_GPUCompareOp`.
#[derive(Clone, Copy, Debug, PartialEq, Eq, Hash, Structural)]
pub enum CompareOp {
    /// Always false.
    Never,
    /// `reference < test`.
    Less,
    /// `reference == test`.
    Equal,
    /// `reference <= test`.
    LessOrEqual,
    /// `reference > test`.
    Greater,
    /// `reference != test`.
    NotEqual,
    /// `reference >= test`.
    GreaterOrEqual,
    /// Always true.
    Always,
}

impl CompareOp {
    /// The SDL code of this value.
    pub open spec fn code(self) -> i32 {
        match self {
            CompareOp::Never => 1i32,
            CompareOp::Less => 2i32,
            CompareOp::Equal => 3i32,
            CompareOp::LessOrEqual => 4i32,
            CompareOp::Greater => 5i32,
            CompareOp::NotEqual => 6i32,
            CompareOp::GreaterOrEqual => 7i32,
            CompareOp::Always => 8i32,
        }
    }

    /// The value whose SDL code is `code`, if any.
    pub open spec fn from_code(code: i32) -> Option<CompareOp> {
        if code == 1i32 {
            Some(CompareOp::Never)
        } else if code == 2i32 {
            Some(CompareOp::Less)
        } else if code == 3i32 {
            Some(CompareOp::Equal)
        } else if code == 4i32 {
            Some(CompareOp::LessOrEqual)
        } else if code == 5i32 {
            Some(CompareOp::Greater)
        } else if code == 6i32 {
            Some(CompareOp::NotEqual)
        } else if code == 7i32 {
            Some(CompareOp::GreaterOrEqual)
        } else if code == 8i32 {
            Some(CompareOp::Always)
        } else {
            None
        }
    }

    /// The SDL code of this value.
    pub fn to_sdl(self) -> (c: i32)
        ensures
            c == self.code(),
    {
        match self {
            CompareOp::Never => 1i32,
            CompareOp::Less => 2i32,
            CompareOp::Equal => 3i32,
            CompareOp::LessOrEqual => 4i32,
            CompareOp::Greater => 5i32,
            CompareOp::NotEqual => 6i32,
            CompareOp::GreaterOrEqual => 7i32,
            CompareOp::Always => 8i32,
        }
    }

    /// The value whose SDL code is `code`; `None` for a code that names
    /// no value of this type.
    pub fn from_sdl(code: i32) -> (r: Option<Self>)
        ensures
            r == Self::from_code(code),
    {
        if code == 1i32 {
            Some(CompareOp::Never)
        } else if code == 2i32 {
            Some(CompareOp::Less)
        } else if code == 3i32 {
            Some(CompareOp::Equal)
        } else if code == 4i32 {
            Some(CompareOp::LessOrEqual)
        } else if code == 5i32 {
            Some(CompareOp::Greater)
        } else if code == 6i32 {
            Some(CompareOp::NotEqual)
        } else if code == 7i32 {
            Some(CompareOp::GreaterOrEqual)
        } else if code == 8i32 {
            Some(CompareOp::Always)
        } else {
            None
        }
    }
}

/// Every CompareOp has its own SDL code: the code of a value reads back as
/// that value, and a code that reads back as a value is that value's code.
pub proof fn lemma_compare_op_code_roundtrip(v: CompareOp, code: i32)
    ensures
        CompareOp::from_code(v.code()) == Some(v),
        CompareOp::from_code(code) == Some(v) ==> v.code() == code,
{
}

/// The code of each CompareOp is the number SDL's headers give the `SDL_GPUCompareOp`
/// constant of the same name, value by value.
pub proof fn lemma_compare_op_sdl_codes()
    ensures
        CompareOp::Never.code() == 1i32,
        CompareOp::Less.code() == 2i32,
        CompareOp::Equal.code() == 3i32,
        CompareOp::LessOrEqual.code() == 4i32,
        CompareOp::Greater.code() == 5i32,
        CompareOp::NotEqual.code() == 6i32,
        CompareOp::GreaterOrEqual.code() == 7i32,
        CompareOp::Always.code() == 8i32,
{
}

/// The parameters of a new sampler: the filters for minification and
/// magnification, the mipmap mode, the addressing of each coordinate, the
/// bias added to the mipmap level of detail, the anisotropy clamp, the
/// comparison used in comparison sampling, the range the level of detail is
/// clamped to, and whether anisotropic filtering and comparison are on. The
/// extension properties are left out: they are always zero. `F` holds the
/// four real-valued parameters.
#[derive(Clone, Copy, Debug)]
pub struct SamplerCreateInfo<F> {
    pub min_filter: Filter,
    pub mag_filter: Filter,
    pub mipmap_mode: SamplerMipmapMode,
    pub address_mode_u: SamplerAddressMode,
    pub address_mode_v: SamplerAddressMode,
    pub address_mode_w: SamplerAddressMode,
    pub mip_lod_bias: F,
    pub max_anisotropy: F,
    pub compare_op: CompareOp,
    pub min_lod: F,
    pub max_lod: F,
    pub enable_anisotropy: bool,
    pub enable_compare: bool,
}

impl<F: Copy> SamplerCreateInfo<F> {
    /// Describe a sampler; `address_modes` is the addressing of the (u, v, w)
    /// coordinates, and each other argument becomes the field of the same
    /// name.
    pub fn new(
        min_filter: Filter,
        mag_filter: Filter,
        mipmap_mode: SamplerMipmapMode,
        address_modes: (SamplerAddressMode, SamplerAddressMode, SamplerAddressMode),
        mip_lod_bias: F,
        max_anisotropy: F,
        compare_op: CompareOp,
        min_lod: F,
        max_lod: F,
        enable_anisotropy: bool,
        enable_compare: bool,
    ) -> (ci: Self)
        ensures
            ci.min_filter == min_filter,
            ci.mag_filter == mag_filter,
            ci.mipmap_mode == mipmap_mode,
            (ci.address_mode_u, ci.address_mode_v, ci.address_mode_w) == address_modes,
            ci.mip_lod_bias == mip_lod_bias,
            ci.max_anisotropy == max_anisotropy,
            ci.compare_op == compare_op,
            ci.min_lod == min_lod,
            ci.max_lod == max_lod,
            ci.enable_anisotropy == enable_anisotropy,
            ci.enable_compare == enable_compare,
    {
        SamplerCreateInfo {
            min_filter,
            mag_filter,
            mipmap_mode,
            address_mode_u: address_modes.0,
            address_mode_v: address_modes.1,
            address_mode_w: address_modes.2,
            mip_lod_bias,
            max_anisotropy,
            compare_op,
            min_lod,
            max_lod,
            enable_anisotropy,
            enable_compare,
        }
    }
}

} // verus!
