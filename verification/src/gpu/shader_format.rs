//! Shader bytecode formats.

use vstd::prelude::*;

verus! {

/// A shader bytecode format.
///
/// The values are those of `SDL_GPUShaderFormat`.
#[derive(Clone, Copy, Debug, PartialEq, Eq, Hash, Structural)]
pub enum ShaderFormat {
    /// SPIR-V shaders for Vulkan.
    SpirV,
    /// DXBC SM5_1 shaders for D3D12.
    Dxbc,
    /// DXIL SM6_0 shaders for D3D12.
    Dxil,
    /// MSL shaders for Metal.
    Msl,
    /// Precompiled metallib shaders for Metal.
    Metallib,
}

impl ShaderFormat {
    /// The SDL code of this value.
    pub open spec fn code(self) -> u32 {
        match self {
            ShaderFormat::SpirV => 2u32,
            ShaderFormat::Dxbc => 4u32,
            ShaderFormat::Dxil => 8u32,
            ShaderFormat::Msl => 16u32,
            ShaderFormat::Metallib => 32u32,
        }
    }

    /// The value whose SDL code is `code`, if any.
    pub open spec fn from_code(code: u32) -> Option<ShaderFormat> {
        if code == 2u32 {
            Some(ShaderFormat::SpirV)
        } else if code == 4u32 {
            Some(ShaderFormat::Dxbc)
        } else if code == 8u32 {
            Some(ShaderFormat::Dxil)
        } else if code == 16u32 {
            Some(ShaderFormat::Msl)
        } else if code == 32u32 {
            Some(ShaderFormat::Metallib)
        } else {
            None
        }
    }

    /// The SDL code of this value.
    pub fn to_sdl(self) -> (c: u32)
        ensures
            c == self.code(),
    {
        match self {
            ShaderFormat::SpirV => 2u32,
            ShaderFormat::Dxbc => 4u32,
            ShaderFormat::Dxil => 8u32,
            ShaderFormat::Msl => 16u32,
            ShaderFormat::Metallib => 32u32,
        }
    }

    /// The value whose SDL code is `code`; `None` for a code that names
    /// no value of this type.
    pub fn from_sdl(code: u32) -> (r: Option<Self>)
        ensures
            r == Self::from_code(code),
    {
        if code == 2u32 {
            Some(ShaderFormat::SpirV)
        } else if code == 4u32 {
            Some(ShaderFormat::Dxbc)
        } else if code == 8u32 {
            Some(ShaderFormat::Dxil)
        } else if code == 16u32 {
            Some(ShaderFormat::Msl)
        } else if code == 32u32 {
            Some(ShaderFormat::Metallib)
        } else {
            None
        }
    }
}

/// Every ShaderFormat has its own SDL code: the code of a value reads back as
/// that value, and a code that reads back as a value is that value's code.
pub proof fn lemma_shader_format_code_roundtrip(v: ShaderFormat, code: u32)
    ensures
        ShaderFormat::from_code(v.code()) == Some(v),
        ShaderFormat::from_code(code) == Some(v) ==> v.code() == code,
{
}

/// The code of each ShaderFormat is the number SDL's headers give the `SDL_GPUShaderFormat`
/// constant of the same name, value by value.
pub proof fn lemma_shader_format_sdl_codes()
    ensures
        ShaderFormat::SpirV.code() == 0x2u32,
        ShaderFormat::Dxbc.code() == 0x4u32,
        ShaderFormat::Dxil.code() == 0x8u32,
        ShaderFormat::Msl.code() == 0x10u32,
        ShaderFormat::Metallib.code() == 0x20u32,
{
}

/// A set of shader bytecode formats.
///
/// The bits are those of `SDL_GPUShaderFormat`.
#[derive(Clone, Copy, Debug, PartialEq, Eq, Hash, Structural)]
pub struct ShaderFormats {
    bits: u32,
}

impl View for ShaderFormats {
    type V = u32;

    closed spec fn view(&self) -> u32 {
        self.bits
    }
}

impl ShaderFormats {
    /// The bits of all the named flags.
    pub open spec fn all_bits() -> u32 {
        0x3eu32
    }

    /// No flag set.
    pub fn empty() -> (f: Self)
        ensures
            f@ == 0,
    {
        ShaderFormats { bits: 0 }
    }

    /// Every named flag set.
    pub fn all() -> (f: Self)
        ensures
            f@ == Self::all_bits(),
    {
        ShaderFormats { bits: 0x3eu32 }
    }

    /// SPIR-V.
    pub fn spirv() -> (f: Self)
        ensures
            f@ == 0x2u32,
    {
        ShaderFormats { bits: 0x2u32 }
    }

    /// DXBC.
    pub fn dxbc() -> (f: Self)
        ensures
            f@ == 0x4u32,
    {
        ShaderFormats { bits: 0x4u32 }
    }

    /// DXIL.
    pub fn dxil() -> (f: Self)
        ensures
            f@ == 0x8u32,
    {
        ShaderFormats { bits: 0x8u32 }
    }

    /// MSL.
    pub fn msl() -> (f: Self)
        ensures
            f@ == 0x10u32,
    {
        ShaderFormats { bits: 0x10u32 }
    }

    /// Metallib.
    pub fn metallib() -> (f: Self)
        ensures
            f@ == 0x20u32,
    {
        ShaderFormats { bits: 0x20u32 }
    }

    /// The raw bits.
    pub fn bits(&self) -> (b: u32)
        ensures
            b == self@,
    {
        self.bits
    }

    /// The flag set with exactly these bits, named or not.
    pub fn from_bits_retain(bits: u32) -> (f: Self)
        ensures
            f@ == bits,
    {
        ShaderFormats { bits }
    }

    /// The flag set with these bits, if every set bit is a named flag.
    pub fn from_bits(bits: u32) -> (r: Option<Self>)
        ensures
            r is Some <==> bits & Self::all_bits() == bits,
            r matches Some(f) ==> f@ == bits,
    {
        if bits & 0x3eu32 == bits {
            Some(ShaderFormats { bits })
        } else {
            None
        }
    }

    /// Whether no bit is set.
    pub fn is_empty(&self) -> (r: bool)
        ensures
            r == (self@ == 0),
    {
        self.bits == 0
    }

    /// Whether every bit of `other` is set here.
    pub fn contains(&self, other: Self) -> (r: bool)
        ensures
            r == (self@ & other@ == other@),
    {
        self.bits & other.bits == other.bits
    }

    /// Whether some bit of `other` is set here.
    pub fn intersects(&self, other: Self) -> (r: bool)
        ensures
            r == (self@ & other@ != 0),
    {
        self.bits & other.bits != 0
    }

    /// The bits set here or in `other`.
    pub fn union(self, other: Self) -> (f: Self)
        ensures
            f@ == self@ | other@,
    {
        ShaderFormats { bits: self.bits | other.bits }
    }

    /// The bits set both here and in `other`.
    pub fn intersection(self, other: Self) -> (f: Self)
        ensures
            f@ == self@ & other@,
    {
        ShaderFormats { bits: self.bits & other.bits }
    }

    /// Set the bits of `other`.
    pub fn insert(&mut self, other: Self)
        ensures
            final(self)@ == old(self)@ | other@,
    {
        self.bits = self.bits | other.bits;
    }

    /// Clear the bits of `other`.
    pub fn remove(&mut self, other: Self)
        ensures
            final(self)@ == old(self)@ & !other@,
    {
        self.bits = self.bits & !other.bits;
    }
}

/// Flag sets behave as sets: a union holds both sides and does not depend
/// on their order, an intersection lies within both sides, inserted flags
/// are then contained, removed flags no longer intersect, and the empty set
/// contains nothing but itself.
pub proof fn lemma_shader_formats_set_algebra(a: ShaderFormats, b: ShaderFormats)
    ensures
        (a@ | b@) & a@ == a@,
        (a@ | b@) & b@ == b@,
        a@ | b@ == b@ | a@,
        (a@ & b@) & a@ == a@ & b@,
        (a@ & b@) & b@ == a@ & b@,
        (a@ & !b@) & b@ == 0,
        a@ | 0 == a@,
        a@ & 0 == 0,
{
    crate::bits::lemma_mask_algebra_u32(a@, b@);
}

impl ShaderFormat {
    /// The set holding just this format.
    pub fn as_mask(self) -> (m: ShaderFormats)
        ensures
            m@ == self.code(),
    {
        ShaderFormats::from_bits_retain(self.to_sdl())
    }
}

impl From<ShaderFormat> for ShaderFormats {
    fn from(value: ShaderFormat) -> (m: ShaderFormats) {
        value.as_mask()
    }
}

impl vstd::std_specs::convert::FromSpecImpl<ShaderFormat> for ShaderFormats {
    open spec fn obeys_from_spec() -> bool {
        true
    }

    open spec fn from_spec(v: ShaderFormat) -> ShaderFormats {
        ShaderFormats::with_bits(v.code())
    }
}

impl ShaderFormats {
    /// The set with exactly the bits `bits`.
    pub closed spec fn with_bits(bits: u32) -> ShaderFormats {
        ShaderFormats { bits }
    }

    /// The set with exactly the bits `bits` has those bits.
    pub proof fn lemma_with_bits(bits: u32)
        ensures
            Self::with_bits(bits)@ == bits,
    {
    }
}

/// The set made from a single format holds that format and no other.
pub proof fn lemma_as_mask_holds_only_that_format(f: ShaderFormat, g: ShaderFormat)
    ensures
        f.code() & g.code() != 0 <==> f == g,
{
    let a = f.code();
    let b = g.code();
    assert(a == 2 || a == 4 || a == 8 || a == 16 || a == 32);
    assert(b == 2 || b == 4 || b == 8 || b == 16 || b == 32);
    crate::bits::lemma_single_bits_u32(a, b);
}

} // verus!
