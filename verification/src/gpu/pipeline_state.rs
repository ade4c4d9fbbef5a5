//! Vertex input, rasterizer, blending and stencil state.

use vstd::prelude::*;
use crate::gpu::sampler::CompareOp;
use crate::gpu::texture::{SampleCount, TextureFormat};
verus! {

/// The type and number of components of a vertex attribute.
///
/// The values are those of `SDL_GPUVertexElementFormat`.
#[derive(Clone, Copy, Debug, PartialEq, Eq, Hash, Structural)]
pub enum VertexElementFormat {
    Int,
    Int2,
    Int3,
    Int4,
    Uint,
    Uint2,
    Uint3,
    Uint4,
    Float,
    Float2,
    Float3,
    Float4,
    Byte2,
    Byte4,
    Ubyte2,
    Ubyte4,
    Byte2Norm,
    Byte4Norm,
    Ubyte2Norm,
    Ubyte4Norm,
    Short2,
    Short4,
    Ushort2,
    Ushort4,
    Short2Norm,
    Short4Norm,
    Ushort2Norm,
    Ushort4Norm,
    Half2,
    Half4,
}

impl VertexElementFormat {
    /// The SDL code of this value.
    pub open spec fn code(self) -> i32 {
        match self {
            VertexElementFormat::Int => 1i32,
            VertexElementFormat::Int2 => 2i32,
            VertexElementFormat::Int3 => 3i32,
            VertexElementFormat::Int4 => 4i32,
            VertexElementFormat::Uint => 5i32,
            VertexElementFormat::Uint2 => 6i32,
            VertexElementFormat::Uint3 => 7i32,
            VertexElementFormat::Uint4 => 8i32,
            VertexElementFormat::Float => 9i32,
            VertexElementFormat::Float2 => 10i32,
            VertexElementFormat::Float3 => 11i32,
            VertexElementFormat::Float4 => 12i32,
            VertexElementFormat::Byte2 => 13i32,
            VertexElementFormat::Byte4 => 14i32,
            VertexElementFormat::Ubyte2 => 15i32,
            VertexElementFormat::Ubyte4 => 16i32,
            VertexElementFormat::Byte2Norm => 17i32,
            VertexElementFormat::Byte4Norm => 18i32,
            VertexElementFormat::Ubyte2Norm => 19i32,
            VertexElementFormat::Ubyte4Norm => 20i32,
            VertexElementFormat::Short2 => 21i32,
            VertexElementFormat::Short4 => 22i32,
            VertexElementFormat::Ushort2 => 23i32,
            VertexElementFormat::Ushort4 => 24i32,
            VertexElementFormat::Short2Norm => 25i32,
            VertexElementFormat::Short4Norm => 26i32,
            VertexElementFormat::Ushort2Norm => 27i32,
            VertexElementFormat::Ushort4Norm => 28i32,
            VertexElementFormat::Half2 => 29i32,
            VertexElementFormat::Half4 => 30i32,
        }
    }

    /// The value whose SDL code is `code`, if any.
    pub open spec fn from_code(code: i32) -> Option<VertexElementFormat> {
        if code == 1i32 {
            Some(VertexElementFormat::Int)
        } else if code == 2i32 {
            Some(VertexElementFormat::Int2)
        } else if code == 3i32 {
            Some(VertexElementFormat::Int3)
        } else if code == 4i32 {
            Some(VertexElementFormat::Int4)
        } else if code == 5i32 {
            Some(VertexElementFormat::Uint)
        } else if code == 6i32 {
            Some(VertexElementFormat::Uint2)
        } else if code == 7i32 {
            Some(VertexElementFormat::Uint3)
        } else if code == 8i32 {
            Some(VertexElementFormat::Uint4)
        } else if code == 9i32 {
            Some(VertexElementFormat::Float)
        } else if code == 10i32 {
            Some(VertexElementFormat::Float2)
        } else if code == 11i32 {
            Some(VertexElementFormat::Float3)
        } else if code == 12i32 {
            Some(VertexElementFormat::Float4)
        } else if code == 13i32 {
            Some(VertexElementFormat::Byte2)
        } else if code == 14i32 {
            Some(VertexElementFormat::Byte4)
        } else if code == 15i32 {
            Some(VertexElementFormat::Ubyte2)
        } else if code == 16i32 {
            Some(VertexElementFormat::Ubyte4)
        } else if code == 17i32 {
            Some(VertexElementFormat::Byte2Norm)
        } else if code == 18i32 {
            Some(VertexElementFormat::Byte4Norm)
        } else if code == 19i32 {
            Some(VertexElementFormat::Ubyte2Norm)
        } else if code == 20i32 {
            Some(VertexElementFormat::Ubyte4Norm)
        } else if code == 21i32 {
            Some(VertexElementFormat::Short2)
        } else if code == 22i32 {
            Some(VertexElementFormat::Short4)
        } else if code == 23i32 {
            Some(VertexElementFormat::Ushort2)
        } else if code == 24i32 {
            Some(VertexElementFormat::Ushort4)
        } else if code == 25i32 {
            Some(VertexElementFormat::Short2Norm)
        } else if code == 26i32 {
            Some(VertexElementFormat::Short4Norm)
        } else if code == 27i32 {
            Some(VertexElementFormat::Ushort2Norm)
        } else if code == 28i32 {
            Some(VertexElementFormat::Ushort4Norm)
        } else if code == 29i32 {
            Some(VertexElementFormat::Half2)
        } else if code == 30i32 {
            Some(VertexElementFormat::Half4)
        } else {
            None
        }
    }

    /// The SDL code of this value.
    pub fn to_sdl(self) -> (c: i32)
        ensures
            c == self.code(),
    {
        match self {
            VertexElementFormat::Int => 1i32,
            VertexElementFormat::Int2 => 2i32,
            VertexElementFormat::Int3 => 3i32,
            VertexElementFormat::Int4 => 4i32,
            VertexElementFormat::Uint => 5i32,
            VertexElementFormat::Uint2 => 6i32,
            VertexElementFormat::Uint3 => 7i32,
            VertexElementFormat::Uint4 => 8i32,
            VertexElementFormat::Float => 9i32,
            VertexElementFormat::Float2 => 10i32,
            VertexElementFormat::Float3 => 11i32,
            VertexElementFormat::Float4 => 12i32,
            VertexElementFormat::Byte2 => 13i32,
            VertexElementFormat::Byte4 => 14i32,
            VertexElementFormat::Ubyte2 => 15i32,
            VertexElementFormat::Ubyte4 => 16i32,
            VertexElementFormat::Byte2Norm => 17i32,
            VertexElementFormat::Byte4Norm => 18i32,
            VertexElementFormat::Ubyte2Norm => 19i32,
            VertexElementFormat::Ubyte4Norm => 20i32,
            VertexElementFormat::Short2 => 21i32,
            VertexElementFormat::Short4 => 22i32,
            VertexElementFormat::Ushort2 => 23i32,
            VertexElementFormat::Ushort4 => 24i32,
            VertexElementFormat::Short2Norm => 25i32,
            VertexElementFormat::Short4Norm => 26i32,
            VertexElementFormat::Ushort2Norm => 27i32,
            VertexElementFormat::Ushort4Norm => 28i32,
            VertexElementFormat::Half2 => 29i32,
            VertexElementFormat::Half4 => 30i32,
        }
    }

    /// The value whose SDL code is `code`; `None` for a code that names
    /// no value of this type.
    pub fn from_sdl(code: i32) -> (r: Option<Self>)
        ensures
            r == Self::from_code(code),
    {
        if code == 1i32 {
            Some(VertexElementFormat::Int)
        } else if code == 2i32 {
            Some(VertexElementFormat::Int2)
        } else if code == 3i32 {
            Some(VertexElementFormat::Int3)
        } else if code == 4i32 {
            Some(VertexElementFormat::Int4)
        } else if code == 5i32 {
            Some(VertexElementFormat::Uint)
        } else if code == 6i32 {
            Some(VertexElementFormat::Uint2)
        } else if code == 7i32 {
            Some(VertexElementFormat::Uint3)
        } else if code == 8i32 {
            Some(VertexElementFormat::Uint4)
        } else if code == 9i32 {
            Some(VertexElementFormat::Float)
        } else if code == 10i32 {
            Some(VertexElementFormat::Float2)
        } else if code == 11i32 {
            Some(VertexElementFormat::Float3)
        } else if code == 12i32 {
            Some(VertexElementFormat::Float4)
        } else if code == 13i32 {
            Some(VertexElementFormat::Byte2)
        } else if code == 14i32 {
            Some(VertexElementFormat::Byte4)
        } else if code == 15i32 {
            Some(VertexElementFormat::Ubyte2)
        } else if code == 16i32 {
            Some(VertexElementFormat::Ubyte4)
        } else if code == 17i32 {
            Some(VertexElementFormat::Byte2Norm)
        } else if code == 18i32 {
            Some(VertexElementFormat::Byte4Norm)
        } else if code == 19i32 {
            Some(VertexElementFormat::Ubyte2Norm)
        } else if code == 20i32 {
            Some(VertexElementFormat::Ubyte4Norm)
        } else if code == 21i32 {
            Some(VertexElementFormat::Short2)
        } else if code == 22i32 {
            Some(VertexElementFormat::Short4)
        } else if code == 23i32 {
            Some(VertexElementFormat::Ushort2)
        } else if code == 24i32 {
            Some(VertexElementFormat::Ushort4)
        } else if code == 25i32 {
            Some(VertexElementFormat::Short2Norm)
        } else if code == 26i32 {
            Some(VertexElementFormat::Short4Norm)
        } else if code == 27i32 {
            Some(VertexElementFormat::Ushort2Norm)
        } else if code == 28i32 {
            Some(VertexElementFormat::Ushort4Norm)
        } else if code == 29i32 {
            Some(VertexElementFormat::Half2)
        } else if code == 30i32 {
            Some(VertexElementFormat::Half4)
        } else {
            None
        }
    }
}

/// Every VertexElementFormat has its own SDL code: the code of a value reads back as
/// that value, and a code that reads back as a value is that value's code.
pub proof fn lemma_vertex_element_format_code_roundtrip(v: VertexElementFormat, code: i32)
    ensures
        VertexElementFormat::from_code(v.code()) == Some(v),
        VertexElementFormat::from_code(code) == Some(v) ==> v.code() == code,
{
}

/// SDL's number for a vertex element of 32-bit components: the kinds come
/// in the order int, uint, float, each with 1, 2, 3 and 4 components.
pub open spec fn wide_vertex_element_code(kind: int, components: int) -> int {
    4 * kind + components
}

/// SDL's number for a vertex element of 8- or 16-bit components, which
/// come in pairs of 2 and 4 components after the 32-bit kinds: byte, ubyte,
/// byte_norm, ubyte_norm, short, ushort, short_norm, ushort_norm, half.
pub open spec fn narrow_vertex_element_code(kind: int, components: int) -> int {
    13 + 2 * kind + (if components == 4 { 1int } else { 0int })
}

/// The code of every vertex element format is set by its component type
/// and its number of components, as SDL numbers them: the n-component form
/// of a 32-bit kind directly follows its (n - 1)-component form, and each
/// narrow kind has its 2-component form just before its 4-component form.
pub proof fn lemma_vertex_element_codes_follow_component_count()
    ensures
        VertexElementFormat::Int.code() == wide_vertex_element_code(0, 1),
        VertexElementFormat::Int2.code() == wide_vertex_element_code(0, 2),
        VertexElementFormat::Int3.code() == wide_vertex_element_code(0, 3),
        VertexElementFormat::Int4.code() == wide_vertex_element_code(0, 4),
        VertexElementFormat::Uint.code() == wide_vertex_element_code(1, 1),
        VertexElementFormat::Uint2.code() == wide_vertex_element_code(1, 2),
        VertexElementFormat::Uint3.code() == wide_vertex_element_code(1, 3),
        VertexElementFormat::Uint4.code() == wide_vertex_element_code(1, 4),
        VertexElementFormat::Float.code() == wide_vertex_element_code(2, 1),
        VertexElementFormat::Float2.code() == wide_vertex_element_code(2, 2),
        VertexElementFormat::Float3.code() == wide_vertex_element_code(2, 3),
        VertexElementFormat::Float4.code() == wide_vertex_element_code(2, 4),
        VertexElementFormat::Byte2.code() == narrow_vertex_element_code(0, 2),
        VertexElementFormat::Byte4.code() == narrow_vertex_element_code(0, 4),
        VertexElementFormat::Ubyte2.code() == narrow_vertex_element_code(1, 2),
        VertexElementFormat::Ubyte4.code() == narrow_vertex_element_code(1, 4),
        VertexElementFormat::Byte2Norm.code() == narrow_vertex_element_code(2, 2),
        VertexElementFormat::Byte4Norm.code() == narrow_vertex_element_code(2, 4),
        VertexElementFormat::Ubyte2Norm.code() == narrow_vertex_element_code(3, 2),
        VertexElementFormat::Ubyte4Norm.code() == narrow_vertex_element_code(3, 4),
        VertexElementFormat::Short2.code() == narrow_vertex_element_code(4, 2),
        VertexElementFormat::Short4.code() == narrow_vertex_element_code(4, 4),
        VertexElementFormat::Ushort2.code() == narrow_vertex_element_code(5, 2),
        VertexElementFormat::Ushort4.code() == narrow_vertex_element_code(5, 4),
        VertexElementFormat::Short2Norm.code() == narrow_vertex_element_code(6, 2),
        VertexElementFormat::Short4Norm.code() == narrow_vertex_element_code(6, 4),
        VertexElementFormat::Ushort2Norm.code() == narrow_vertex_element_code(7, 2),
        VertexElementFormat::Ushort4Norm.code() == narrow_vertex_element_code(7, 4),
        VertexElementFormat::Half2.code() == narrow_vertex_element_code(8, 2),
        VertexElementFormat::Half4.code() == narrow_vertex_element_code(8, 4),
{
}

/// The code of each VertexElementFormat is the number SDL's headers give the `SDL_GPUVertexElementFormat`
/// constant of the same name, value by value.
pub proof fn lemma_vertex_element_format_sdl_codes()
    ensures
        VertexElementFormat::Int.code() == 1i32,
        VertexElementFormat::Int2.code() == 2i32,
        VertexElementFormat::Int3.code() == 3i32,
        VertexElementFormat::Int4.code() == 4i32,
        VertexElementFormat::Uint.code() == 5i32,
        VertexElementFormat::Uint2.code() == 6i32,
        VertexElementFormat::Uint3.code() == 7i32,
        VertexElementFormat::Uint4.code() == 8i32,
        VertexElementFormat::Float.code() == 9i32,
        VertexElementFormat::Float2.code() == 10i32,
        VertexElementFormat::Float3.code() == 11i32,
        VertexElementFormat::Float4.code() == 12i32,
        VertexElementFormat::Byte2.code() == 13i32,
        VertexElementFormat::Byte4.code() == 14i32,
        VertexElementFormat::Ubyte2.code() == 15i32,
        VertexElementFormat::Ubyte4.code() == 16i32,
        VertexElementFormat::Byte2Norm.code() == 17i32,
        VertexElementFormat::Byte4Norm.code() == 18i32,
        VertexElementFormat::Ubyte2Norm.code() == 19i32,
        VertexElementFormat::Ubyte4Norm.code() == 20i32,
        VertexElementFormat::Short2.code() == 21i32,
        VertexElementFormat::Short4.code() == 22i32,
        VertexElementFormat::Ushort2.code() == 23i32,
        VertexElementFormat::Ushort4.code() == 24i32,
        VertexElementFormat::Short2Norm.code() == 25i32,
        VertexElementFormat::Short4Norm.code() == 26i32,
        VertexElementFormat::Ushort2Norm.code() == 27i32,
        VertexElementFormat::Ushort4Norm.code() == 28i32,
        VertexElementFormat::Half2.code() == 29i32,
        VertexElementFormat::Half4.code() == 30i32,
{
}

/// Whether a vertex buffer advances per vertex or per instance.
///
/// The values are those of `SDL_GPUVertexInputRate`.
#[derive(Clone, Copy, Debug, PartialEq, Eq, Hash, Structural)]
pub enum VertexInputRate {
    Vertex,
    Instance,
}

impl VertexInputRate {
    /// The SDL code of this value.
    pub open spec fn code(self) -> i32 {
        match self {
            VertexInputRate::Vertex => 0i32,
            VertexInputRate::Instance => 1i32,
        }
    }

    /// The value whose SDL code is `code`, if any.
    pub open spec fn from_code(code: i32) -> Option<VertexInputRate> {
        if code == 0i32 {
            Some(VertexInputRate::Vertex)
        } else if code == 1i32 {
            Some(VertexInputRate::Instance)
        } else {
            None
        }
    }

    /// The SDL code of this value.
    pub fn to_sdl(self) -> (c: i32)
        ensures
            c == self.code(),
    {
        match self {
            VertexInputRate::Vertex => 0i32,
            VertexInputRate::Instance => 1i32,
        }
    }

    /// The value whose SDL code is `code`; `None` for a code that names
    /// no value of this type.
    pub fn from_sdl(code: i32) -> (r: Option<Self>)
        ensures
            r == Self::from_code(code),
    {
        if code == 0i32 {
            Some(VertexInputRate::Vertex)
        } else if code == 1i32 {
            Some(VertexInputRate::Instance)
        } else {
            None
        }
    }
}

/// Every VertexInputRate has its own SDL code: the code of a value reads back as
/// that value, and a code that reads back as a value is that value's code.
pub proof fn lemma_vertex_input_rate_code_roundtrip(v: VertexInputRate, code: i32)
    ensures
        VertexInputRate::from_code(v.code()) == Some(v),
        VertexInputRate::from_code(code) == Some(v) ==> v.code() == code,
{
}

/// The code of each VertexInputRate is the number SDL's headers give the `SDL_GPUVertexInputRate`
/// constant of the same name, value by value.
pub proof fn lemma_vertex_input_rate_sdl_codes()
    ensures
        VertexInputRate::Vertex.code() == 0i32,
        VertexInputRate::Instance.code() == 1i32,
{
}

/// Whether polygons are filled or outlined.
///
/// The values are those of `SDL_GPUFillMode`.
#[derive(Clone, Copy, Debug, PartialEq, Eq, Hash, Structural)]
pub enum FillMode {
    Fill,
    Line,
}

impl FillMode {
    /// The SDL code of this value.
    pub open spec fn code(self) -> i32 {
        match self {
            FillMode::Fill => 0i32,
            FillMode::Line => 1i32,
        }
    }

    /// The value whose SDL code is `code`, if any.
    pub open spec fn from_code(code: i32) -> Option<FillMode> {
        if code == 0i32 {
            Some(FillMode::Fill)
        } else if code == 1i32 {
            Some(FillMode::Line)
        } else {
            None
        }
    }

    /// The SDL code of this value.
    pub fn to_sdl(self) -> (c: i32)
        ensures
            c == self.code(),
    {
        match self {
            FillMode::Fill => 0i32,
            FillMode::Line => 1i32,
        }
    }

    /// The value whose SDL code is `code`; `None` for a code that names
    /// no value of this type.
    pub fn from_sdl(code: i32) -> (r: Option<Self>)
        ensures
            r == Self::from_code(code),
    {
        if code == 0i32 {
            Some(FillMode::Fill)
        } else if code == 1i32 {
            Some(FillMode::Line)
        } else {
            None
        }
    }
}

/// Every FillMode has its own SDL code: the code of a value reads back as
/// that value, and a code that reads back as a value is that value's code.
pub proof fn lemma_fill_mode_code_roundtrip(v: FillMode, code: i32)
    ensures
        FillMode::from_code(v.code()) == Some(v),
        FillMode::from_code(code) == Some(v) ==> v.code() == code,
{
}

/// The code of each FillMode is the number SDL's headers give the `SDL_GPUFillMode`
/// constant of the same name, value by value.
pub proof fn lemma_fill_mode_sdl_codes()
    ensures
        FillMode::Fill.code() == 0i32,
        FillMode::Line.code() == 1i32,
{
}

/// Which facing of triangles is culled.
///
/// The values are those of `SDL_GPUCullMode`.
#[derive(Clone, Copy, Debug, PartialEq, Eq, Hash, Structural)]
pub enum CullMode {
    NoCull,
    Front,
    Back,
}

impl CullMode {
    /// The SDL code of this value.
    pub open spec fn code(self) -> i32 {
        match self {
            CullMode::NoCull => 0i32,
            CullMode::Front => 1i32,
            CullMode::Back => 2i32,
        }
    }

    /// The value whose SDL code is `code`, if any.
    pub open spec fn from_code(code: i32) -> Option<CullMode> {
        if code == 0i32 {
            Some(CullMode::NoCull)
        } else if code == 1i32 {
            Some(CullMode::Front)
        } else if code == 2i32 {
            Some(CullMode::Back)
        } else {
            None
        }
    }

    /// The SDL code of this value.
    pub fn to_sdl(self) -> (c: i32)
        ensures
            c == self.code(),
    {
        match self {
            CullMode::NoCull => 0i32,
            CullMode::Front => 1i32,
            CullMode::Back => 2i32,
        }
    }

    /// The value whose SDL code is `code`; `None` for a code that names
    /// no value of this type.
    pub fn from_sdl(code: i32) -> (r: Option<Self>)
        ensures
            r == Self::from_code(code),
    {
        if code == 0i32 {
            Some(CullMode::NoCull)
        } else if code == 1i32 {
            Some(CullMode::Front)
        } else if code == 2i32 {
            Some(CullMode::Back)
        } else {
            None
        }
    }
}

/// Every CullMode has its own SDL code: the code of a value reads back as
/// that value, and a code that reads back as a value is that value's code.
pub proof fn lemma_cull_mode_code_roundtrip(v: CullMode, code: i32)
    ensures
        CullMode::from_code(v.code()) == Some(v),
        CullMode::from_code(code) == Some(v) ==> v.code() == code,
{
}

/// The code of each CullMode is the number SDL's headers give the `SDL_GPUCullMode`
/// constant of the same name, value by value.
pub proof fn lemma_cull_mode_sdl_codes()
    ensures
        CullMode::NoCull.code() == 0i32,
        CullMode::Front.code() == 1i32,
        CullMode::Back.code() == 2i32,
{
}

/// Which winding order makes a triangle front-facing.
///
/// The values are those of `SDL_GPUFrontFace`.
#[derive(Clone, Copy, Debug, PartialEq, Eq, Hash, Structural)]
pub enum FrontFace {
    CounterClockwise,
    Clockwise,
}

impl FrontFace {
    /// The SDL code of this value.
    pub open spec fn code(self) -> i32 {
        match self {
            FrontFace::CounterClockwise => 0i32,
            FrontFace::Clockwise => 1i32,
        }
    }

    /// The value whose SDL code is `code`, if any.
    pub open spec fn from_code(code: i32) -> Option<FrontFace> {
        if code == 0i32 {
            Some(FrontFace::CounterClockwise)
        } else if code == 1i32 {
            Some(FrontFace::Clockwise)
        } else {
            None
        }
    }

    /// The SDL code of this value.
    pub fn to_sdl(self) -> (c: i32)
        ensures
            c == self.code(),
    {
        match self {
            FrontFace::CounterClockwise => 0i32,
            FrontFace::Clockwise => 1i32,
        }
    }

    /// The value whose SDL code is `code`; `None` for a code that names
    /// no value of this type.
    pub fn from_sdl(code: i32) -> (r: Option<Self>)
        ensures
            r == Self::from_code(code),
    {
        if code == 0i32 {
            Some(FrontFace::CounterClockwise)
        } else if code == 1i32 {
            Some(FrontFace::Clockwise)
        } else {
            None
        }
    }
}

/// Every FrontFace has its own SDL code: the code of a value reads back as
/// that value, and a code that reads back as a value is that value's code.
pub proof fn lemma_front_face_code_roundtrip(v: FrontFace, code: i32)
    ensures
        FrontFace::from_code(v.code()) == Some(v),
        FrontFace::from_code(code) == Some(v) ==> v.code() == code,
{
}

/// The code of each FrontFace is the number SDL's headers give the `SDL_GPUFrontFace`
/// constant of the same name, value by value.
pub proof fn lemma_front_face_sdl_codes()
    ensures
        FrontFace::CounterClockwise.code() == 0i32,
        FrontFace::Clockwise.code() == 1i32,
{
}

/// A GPU blend factor.
///
/// The values are those of `SDL_GPUBlendFactor`.
#[derive(Clone, Copy, Debug, PartialEq, Eq, Hash, Structural)]
pub enum BlendFactor {
    Zero,
    One,
    SrcColor,
    OneMinusSrcColor,
    DstColor,
    OneMinusDstColor,
    SrcAlpha,
    OneMinusSrcAlpha,
    DstAlpha,
    OneMinusDstAlpha,
    ConstantColor,
    OneMinusConstantColor,
    SrcAlphaSaturate,
}

impl BlendFactor {
    /// The SDL code of this value.
    pub open spec fn code(self) -> i32 {
        match self {
            BlendFactor::Zero => 1i32,
            BlendFactor::One => 2i32,
            BlendFactor::SrcColor => 3i32,
            BlendFactor::OneMinusSrcColor => 4i32,
            BlendFactor::DstColor => 5i32,
            BlendFactor::OneMinusDstColor => 6i32,
            BlendFactor::SrcAlpha => 7i32,
            BlendFactor::OneMinusSrcAlpha => 8i32,
            BlendFactor::DstAlpha => 9i32,
            BlendFactor::OneMinusDstAlpha => 10i32,
            BlendFactor::ConstantColor => 11i32,
            BlendFactor::OneMinusConstantColor => 12i32,
            BlendFactor::SrcAlphaSaturate => 13i32,
        }
    }

    /// The value whose SDL code is `code`, if any.
    pub open spec fn from_code(code: i32) -> Option<BlendFactor> {
        if code == 1i32 {
            Some(BlendFactor::Zero)
        } else if code == 2i32 {
            Some(BlendFactor::One)
        } else if code == 3i32 {
            Some(BlendFactor::SrcColor)
        } else if code == 4i32 {
            Some(BlendFactor::OneMinusSrcColor)
        } else if code == 5i32 {
            Some(BlendFactor::DstColor)
        } else if code == 6i32 {
            Some(BlendFactor::OneMinusDstColor)
        } else if code == 7i32 {
            Some(BlendFactor::SrcAlpha)
        } else if code == 8i32 {
            Some(BlendFactor::OneMinusSrcAlpha)
        } else if code == 9i32 {
            Some(BlendFactor::DstAlpha)
        } else if code == 10i32 {
            Some(BlendFactor::OneMinusDstAlpha)
        } else if code == 11i32 {
            Some(BlendFactor::ConstantColor)
        } else if code == 12i32 {
            Some(BlendFactor::OneMinusConstantColor)
        } else if code == 13i32 {
            Some(BlendFactor::SrcAlphaSaturate)
        } else {
            None
        }
    }

    /// The SDL code of this value.
    pub fn to_sdl(self) -> (c: i32)
        ensures
            c == self.code(),
    {
        match self {
            BlendFactor::Zero => 1i32,
            BlendFactor::One => 2i32,
            BlendFactor::SrcColor => 3i32,
            BlendFactor::OneMinusSrcColor => 4i32,
            BlendFactor::DstColor => 5i32,
            BlendFactor::OneMinusDstColor => 6i32,
            BlendFactor::SrcAlpha => 7i32,
            BlendFactor::OneMinusSrcAlpha => 8i32,
            BlendFactor::DstAlpha => 9i32,
            BlendFactor::OneMinusDstAlpha => 10i32,
            BlendFactor::ConstantColor => 11i32,
            BlendFactor::OneMinusConstantColor => 12i32,
            BlendFactor::SrcAlphaSaturate => 13i32,
        }
    }

    /// The value whose SDL code is `code`; `None` for a code that names
    /// no value of this type.
    pub fn from_sdl(code: i32) -> (r: Option<Self>)
        ensures
            r == Self::from_code(code),
    {
        if code == 1i32 {
            Some(BlendFactor::Zero)
        } else if code == 2i32 {
            Some(BlendFactor::One)
        } else if code == 3i32 {
            Some(BlendFactor::SrcColor)
        } else if code == 4i32 {
            Some(BlendFactor::OneMinusSrcColor)
        } else if code == 5i32 {
            Some(BlendFactor::DstColor)
        } else if code == 6i32 {
            Some(BlendFactor::OneMinusDstColor)
        } else if code == 7i32 {
            Some(BlendFactor::SrcAlpha)
        } else if code == 8i32 {
            Some(BlendFactor::OneMinusSrcAlpha)
        } else if code == 9i32 {
            Some(BlendFactor::DstAlpha)
        } else if code == 10i32 {
            Some(BlendFactor::OneMinusDstAlpha)
        } else if code == 11i32 {
            Some(BlendFactor::ConstantColor)
        } else if code == 12i32 {
            Some(BlendFactor::OneMinusConstantColor)
        } else if code == 13i32 {
            Some(BlendFactor::SrcAlphaSaturate)
        } else {
            None
        }
    }
}

/// Every BlendFactor has its own SDL code: the code of a value reads back as
/// that value, and a code that reads back as a value is that value's code.
pub proof fn lemma_blend_factor_code_roundtrip(v: BlendFactor, code: i32)
    ensures
        BlendFactor::from_code(v.code()) == Some(v),
        BlendFactor::from_code(code) == Some(v) ==> v.code() == code,
{
}

/// The code of each BlendFactor is the number SDL's headers give the `SDL_GPUBlendFactor`
/// constant of the same name, value by value.
pub proof fn lemma_blend_factor_sdl_codes()
    ensures
        BlendFactor::Zero.code() == 1i32,
        BlendFactor::One.code() == 2i32,
        BlendFactor::SrcColor.code() == 3i32,
        BlendFactor::OneMinusSrcColor.code() == 4i32,
        BlendFactor::DstColor.code() == 5i32,
        BlendFactor::OneMinusDstColor.code() == 6i32,
        BlendFactor::SrcAlpha.code() == 7i32,
        BlendFactor::OneMinusSrcAlpha.code() == 8i32,
        BlendFactor::DstAlpha.code() == 9i32,
        BlendFactor::OneMinusDstAlpha.code() == 10i32,
        BlendFactor::ConstantColor.code() == 11i32,
        BlendFactor::OneMinusConstantColor.code() == 12i32,
        BlendFactor::SrcAlphaSaturate.code() == 13i32,
{
}

/// A GPU blend operation.
///
/// The values are those of `SDL_GPUBlendOp`.
#[derive(Clone, Copy, Debug, PartialEq, Eq, Hash, Structural)]
pub enum BlendOp {
    Add,
    Subtract,
    ReverseSubtract,
    Min,
    Max,
}

impl BlendOp {
    /// The SDL code of this value.
    pub open spec fn code(self) -> i32 {
        match self {
            BlendOp::Add => 1i32,
            BlendOp::Subtract => 2i32,
            BlendOp::ReverseSubtract => 3i32,
            BlendOp::Min => 4i32,
            BlendOp::Max => 5i32,
        }
    }

    /// The value whose SDL code is `code`, if any.
    pub open spec fn from_code(code: i32) -> Option<BlendOp> {
        if code == 1i32 {
            Some(BlendOp::Add)
        } else if code == 2i32 {
            Some(BlendOp::Subtract)
        } else if code == 3i32 {
            Some(BlendOp::ReverseSubtract)
        } else if code == 4i32 {
            Some(BlendOp::Min)
        } else if code == 5i32 {
            Some(BlendOp::Max)
        } else {
            None
        }
    }

    /// The SDL code of this value.
    pub fn to_sdl(self) -> (c: i32)
        ensures
            c == self.code(),
    {
        match self {
            BlendOp::Add => 1i32,
            BlendOp::Subtract => 2i32,
            BlendOp::ReverseSubtract => 3i32,
            BlendOp::Min => 4i32,
            BlendOp::Max => 5i32,
        }
    }

    /// The value whose SDL code is `code`; `None` for a code that names
    /// no value of this type.
    pub fn from_sdl(code: i32) -> (r: Option<Self>)
        ensures
            r == Self::from_code(code),
    {
        if code == 1i32 {
            Some(BlendOp::Add)
        } else if code == 2i32 {
            Some(BlendOp::Subtract)
        } else if code == 3i32 {
            Some(BlendOp::ReverseSubtract)
        } else if code == 4i32 {
            Some(BlendOp::Min)
        } else if code == 5i32 {
            Some(BlendOp::Max)
        } else {
            None
        }
    }
}

/// Every BlendOp has its own SDL code: the code of a value reads back as
/// that value, and a code that reads back as a value is that value's code.
pub proof fn lemma_blend_op_code_roundtrip(v: BlendOp, code: i32)
    ensures
        BlendOp::from_code(v.code()) == Some(v),
        BlendOp::from_code(code) == Some(v) ==> v.code() == code,
{
}

/// The code of each BlendOp is the number SDL's headers give the `SDL_GPUBlendOp`
/// constant of the same name, value by value.
pub proof fn lemma_blend_op_sdl_codes()
    ensures
        BlendOp::Add.code() == 1i32,
        BlendOp::Subtract.code() == 2i32,
        BlendOp::ReverseSubtract.code() == 3i32,
        BlendOp::Min.code() == 4i32,
        BlendOp::Max.code() == 5i32,
{
}

/// What a stencil test does to the stencil value.
///
/// The values are those of `SDL_GPUStencilOp`.
#[derive(Clone, Copy, Debug, PartialEq, Eq, Hash, Structural)]
pub enum StencilOp {
    Keep,
    Zero,
    Replace,
    IncrementAndClamp,
    DecrementAndClamp,
    Invert,
    IncrementAndWrap,
    DecrementAndWrap,
}

impl StencilOp {
    /// The SDL code of this value.
    pub open spec fn code(self) -> i32 {
        match self {
            StencilOp::Keep => 1i32,
            StencilOp::Zero => 2i32,
            StencilOp::Replace => 3i32,
            StencilOp::IncrementAndClamp => 4i32,
            StencilOp::DecrementAndClamp => 5i32,
            StencilOp::Invert => 6i32,
            StencilOp::IncrementAndWrap => 7i32,
            StencilOp::DecrementAndWrap => 8i32,
        }
    }

    /// The value whose SDL code is `code`, if any.
    pub open spec fn from_code(code: i32) -> Option<StencilOp> {
        if code == 1i32 {
            Some(StencilOp::Keep)
        } else if code == 2i32 {
            Some(StencilOp::Zero)
        } else if code == 3i32 {
            Some(StencilOp::Replace)
        } else if code == 4i32 {
            Some(StencilOp::IncrementAndClamp)
        } else if code == 5i32 {
            Some(StencilOp::DecrementAndClamp)
        } else if code == 6i32 {
            Some(StencilOp::Invert)
        } else if code == 7i32 {
            Some(StencilOp::IncrementAndWrap)
        } else if code == 8i32 {
            Some(StencilOp::DecrementAndWrap)
        } else {
            None
        }
    }

    /// The SDL code of this value.
    pub fn to_sdl(self) -> (c: i32)
        ensures
            c == self.code(),
    {
        match self {
            StencilOp::Keep => 1i32,
            StencilOp::Zero => 2i32,
            StencilOp::Replace => 3i32,
            StencilOp::IncrementAndClamp => 4i32,
            StencilOp::DecrementAndClamp => 5i32,
            StencilOp::Invert => 6i32,
            StencilOp::IncrementAndWrap => 7i32,
            StencilOp::DecrementAndWrap => 8i32,
        }
    }

    /// The value whose SDL code is `code`; `None` for a code that names
    /// no value of this type.
    pub fn from_sdl(code: i32) -> (r: Option<Self>)
        ensures
            r == Self::from_code(code),
    {
        if code == 1i32 {
            Some(StencilOp::Keep)
        } else if code == 2i32 {
            Some(StencilOp::Zero)
        } else if code == 3i32 {
            Some(StencilOp::Replace)
        } else if code == 4i32 {
            Some(StencilOp::IncrementAndClamp)
        } else if code == 5i32 {
            Some(StencilOp::DecrementAndClamp)
        } else if code == 6i32 {
            Some(StencilOp::Invert)
        } else if code == 7i32 {
            Some(StencilOp::IncrementAndWrap)
        } else if code == 8i32 {
            Some(StencilOp::DecrementAndWrap)
        } else {
            None
        }
    }
}

/// Every StencilOp has its own SDL code: the code of a value reads back as
/// that value, and a code that reads back as a value is that value's code.
pub proof fn lemma_stencil_op_code_roundtrip(v: StencilOp, code: i32)
    ensures
        StencilOp::from_code(v.code()) == Some(v),
        StencilOp::from_code(code) == Some(v) ==> v.code() == code,
{
}

/// The code of each StencilOp is the number SDL's headers give the `SDL_GPUStencilOp`
/// constant of the same name, value by value.
pub proof fn lemma_stencil_op_sdl_codes()
    ensures
        StencilOp::Keep.code() == 1i32,
        StencilOp::Zero.code() == 2i32,
        StencilOp::Replace.code() == 3i32,
        StencilOp::IncrementAndClamp.code() == 4i32,
        StencilOp::DecrementAndClamp.code() == 5i32,
        StencilOp::Invert.code() == 6i32,
        StencilOp::IncrementAndWrap.code() == 7i32,
        StencilOp::DecrementAndWrap.code() == 8i32,
{
}

/// The color components written by a render target.
///
/// The bits are those of `SDL_GPUColorComponentFlags`.
#[derive(Clone, Copy, Debug, PartialEq, Eq, Hash, Structural)]
pub struct ColorComponentFlags {
    bits: u8,
}

impl View for ColorComponentFlags {
    type V = u8;

    closed spec fn view(&self) -> u8 {
        self.bits
    }
}

impl ColorComponentFlags {
    /// The bits of all the named flags.
    pub open spec fn all_bits() -> u8 {
        0xfu8
    }

    /// No flag set.
    pub fn empty() -> (f: Self)
        ensures
            f@ == 0,
    {
        ColorComponentFlags { bits: 0 }
    }

    /// Every named flag set.
    pub fn all() -> (f: Self)
        ensures
            f@ == Self::all_bits(),
    {
        ColorComponentFlags { bits: 0xfu8 }
    }

    /// Red.
    pub fn r() -> (f: Self)
        ensures
            f@ == 0x1u8,
    {
        ColorComponentFlags { bits: 0x1u8 }
    }

    /// Green.
    pub fn g() -> (f: Self)
        ensures
            f@ == 0x2u8,
    {
        ColorComponentFlags { bits: 0x2u8 }
    }

    /// Blue.
    pub fn b() -> (f: Self)
        ensures
            f@ == 0x4u8,
    {
        ColorComponentFlags { bits: 0x4u8 }
    }

    /// Alpha.
    pub fn a() -> (f: Self)
        ensures
            f@ == 0x8u8,
    {
        ColorComponentFlags { bits: 0x8u8 }
    }

    /// The raw bits.
    pub fn bits(&self) -> (b: u8)
        ensures
            b == self@,
    {
        self.bits
    }

    /// The flag set with exactly these bits, named or not.
    pub fn from_bits_retain(bits: u8) -> (f: Self)
        ensures
            f@ == bits,
    {
        ColorComponentFlags { bits }
    }

    /// The flag set with these bits, if every set bit is a named flag.
    pub fn from_bits(bits: u8) -> (r: Option<Self>)
        ensures
            r is Some <==> bits & Self::all_bits() == bits,
            r matches Some(f) ==> f@ == bits,
    {
        if bits & 0xfu8 == bits {
            Some(ColorComponentFlags { bits })
        } else {
            None
        }
    }

    /// Whether no bit is set.
    pub fn is_empty(&self) -> (r: bool)
        ensures
            r == (self@ == 0),
    {
        self.bits == 0
    }

    /// Whether every bit of `other` is set here.
    pub fn contains(&self, other: Self) -> (r: bool)
        ensures
            r == (self@ & other@ == other@),
    {
        self.bits & other.bits == other.bits
    }

    /// Whether some bit of `other` is set here.
    pub fn intersects(&self, other: Self) -> (r: bool)
        ensures
            r == (self@ & other@ != 0),
    {
        self.bits & other.bits != 0
    }

    /// The bits set here or in `other`.
    pub fn union(self, other: Self) -> (f: Self)
        ensures
            f@ == self@ | other@,
    {
        ColorComponentFlags { bits: self.bits | other.bits }
    }

    /// The bits set both here and in `other`.
    pub fn intersection(self, other: Self) -> (f: Self)
        ensures
            f@ == self@ & other@,
    {
        ColorComponentFlags { bits: self.bits & other.bits }
    }

    /// Set the bits of `other`.
    pub fn insert(&mut self, other: Self)
        ensures
            final(self)@ == old(self)@ | other@,
    {
        self.bits = self.bits | other.bits;
    }

    /// Clear the bits of `other`.
    pub fn remove(&mut self, other: Self)
        ensures
            final(self)@ == old(self)@ & !other@,
    {
        self.bits = self.bits & !other.bits;
    }
}

/// Flag sets behave as sets: a union holds both sides and does not depend
/// on their order, an intersection lies within both sides, inserted flags
/// are then contained, removed flags no longer intersect, and the empty set
/// contains nothing but itself.
pub proof fn lemma_color_component_flags_set_algebra(a: ColorComponentFlags, b: ColorComponentFlags)
    ensures
        (a@ | b@) & a@ == a@,
        (a@ | b@) & b@ == b@,
        a@ | b@ == b@ | a@,
        (a@ & b@) & a@ == a@ & b@,
        (a@ & b@) & b@ == a@ & b@,
        (a@ & !b@) & b@ == 0,
        a@ | 0 == a@,
        a@ & 0 == 0,
{
    crate::bits::lemma_mask_algebra_u8(a@, b@);
}

/// A vertex buffer binding slot: its stride and its input rate. The
/// instance step rate is reserved by SDL and always zero.
#[derive(Clone, Copy, Debug, PartialEq, Eq, Structural)]
pub struct VertexBufferDescription {
    pub slot: u32,
    pub pitch: u32,
    pub input_rate: VertexInputRate,
}

impl VertexBufferDescription {
    pub fn new(slot: u32, pitch: u32, input_rate: VertexInputRate) -> (d: Self)
        ensures
            d == (VertexBufferDescription { slot, pitch, input_rate }),
    {
        VertexBufferDescription { slot, pitch, input_rate }
    }
}

/// A vertex attribute: its shader location, the slot of the buffer it is
/// read from, its format and its byte offset in a vertex.
#[derive(Clone, Copy, Debug, PartialEq, Eq, Structural)]
pub struct VertexAttribute {
    pub location: u32,
    pub buffer_slot: u32,
    pub format: VertexElementFormat,
    pub offset: u32,
}

impl VertexAttribute {
    pub fn new(location: u32, buffer_slot: u32, format: VertexElementFormat, offset: u32) -> (a: Self)
        ensures
            a == (VertexAttribute { location, buffer_slot, format, offset }),
    {
        VertexAttribute { location, buffer_slot, format, offset }
    }
}

/// The stencil operations of one face, and the stencil comparison.
#[derive(Clone, Copy, Debug, PartialEq, Eq, Structural)]
pub struct StencilOpState {
    pub fail_op: StencilOp,
    pub pass_op: StencilOp,
    pub depth_fail_op: StencilOp,
    pub compare_op: CompareOp,
}

impl StencilOpState {
    pub fn new(fail_op: StencilOp, pass_op: StencilOp, depth_fail_op: StencilOp, compare_op: CompareOp) -> (s: Self)
        ensures
            s == (StencilOpState { fail_op, pass_op, depth_fail_op, compare_op }),
    {
        StencilOpState { fail_op, pass_op, depth_fail_op, compare_op }
    }
}


/// The vertex input of a graphics pipeline: its vertex buffer slots and its
/// vertex attributes.
#[derive(Clone, Copy, Debug)]
pub struct VertexInputState<'vbd, 'va> {
    pub vertex_buffer_descriptions: &'vbd [VertexBufferDescription],
    pub vertex_attributes: &'va [VertexAttribute],
}

impl<'vbd, 'va> VertexInputState<'vbd, 'va> {
    pub fn new(descriptions: &'vbd [VertexBufferDescription], attributes: &'va [VertexAttribute]) -> (s: Self)
        ensures
            s.vertex_buffer_descriptions@ == descriptions@,
            s.vertex_attributes@ == attributes@,
    {
        VertexInputState { vertex_buffer_descriptions: descriptions, vertex_attributes: attributes }
    }
}

/// Multisampling: the sample count and whether alpha-to-coverage is on.
/// The sample mask and its enable flag are reserved by SDL and always zero
/// and false.
#[derive(Clone, Copy, Debug, PartialEq, Eq, Structural)]
pub struct MultisampleState {
    pub sample_count: SampleCount,
    pub enable_alpha_to_coverage: bool,
}

impl MultisampleState {
    pub fn new(sample_count: SampleCount, enable_alpha_to_coverage: bool) -> (m: Self)
        ensures
            m == (MultisampleState { sample_count, enable_alpha_to_coverage }),
    {
        MultisampleState { sample_count, enable_alpha_to_coverage }
    }
}

/// Depth and stencil testing: the depth comparison, the stencil state of
/// each face, the stencil masks and which tests and writes are on.
#[derive(Clone, Copy, Debug, PartialEq, Eq, Structural)]
pub struct DepthStencilState {
    pub compare_op: CompareOp,
    pub back_stencil_state: StencilOpState,
    pub front_stencil_state: StencilOpState,
    pub compare_mask: u8,
    pub write_mask: u8,
    pub enable_depth_test: bool,
    pub enable_depth_write: bool,
    pub enable_stencil_test: bool,
}

impl DepthStencilState {
    pub fn new(
        compare_op: CompareOp,
        back_stencil_state: StencilOpState,
        front_stencil_state: StencilOpState,
        compare_mask: u8,
        write_mask: u8,
        enable_depth_test: bool,
        enable_depth_write: bool,
        enable_stencil_test: bool,
    ) -> (d: Self)
        ensures
            d == (DepthStencilState {
                compare_op,
                back_stencil_state,
                front_stencil_state,
                compare_mask,
                write_mask,
                enable_depth_test,
                enable_depth_write,
                enable_stencil_test,
            }),
    {
        DepthStencilState {
            compare_op,
            back_stencil_state,
            front_stencil_state,
            compare_mask,
            write_mask,
            enable_depth_test,
            enable_depth_write,
            enable_stencil_test,
        }
    }
}

/// How a color target blends: the factors and operation for the color and
/// for the alpha component, the components written, and whether blending
/// and the write mask are on.
#[derive(Clone, Copy, Debug, PartialEq, Eq, Structural)]
pub struct ColorTargetBlendState {
    pub src_color_blendfactor: BlendFactor,
    pub dst_color_blendfactor: BlendFactor,
    pub color_blend_op: BlendOp,
    pub src_alpha_blendfactor: BlendFactor,
    pub dst_alpha_blendfactor: BlendFactor,
    pub alpha_blend_op: BlendOp,
    pub color_write_mask: ColorComponentFlags,
    pub enable_blend: bool,
    pub enable_color_write_mask: bool,
}

impl ColorTargetBlendState {
    /// The pairs are the (source, destination) factors of the color and of
    /// the alpha component.
    pub fn new(
        color_factors: (BlendFactor, BlendFactor),
        color_blend_op: BlendOp,
        alpha_factors: (BlendFactor, BlendFactor),
        alpha_blend_op: BlendOp,
        color_write_mask: ColorComponentFlags,
        enable_blend: bool,
        enable_color_write_mask: bool,
    ) -> (s: Self)
        ensures
            s == (ColorTargetBlendState {
                src_color_blendfactor: color_factors.0,
                dst_color_blendfactor: color_factors.1,
                color_blend_op,
                src_alpha_blendfactor: alpha_factors.0,
                dst_alpha_blendfactor: alpha_factors.1,
                alpha_blend_op,
                color_write_mask,
                enable_blend,
                enable_color_write_mask,
            }),
    {
        ColorTargetBlendState {
            src_color_blendfactor: color_factors.0,
            dst_color_blendfactor: color_factors.1,
            color_blend_op,
            src_alpha_blendfactor: alpha_factors.0,
            dst_alpha_blendfactor: alpha_factors.1,
            alpha_blend_op,
            color_write_mask,
            enable_blend,
            enable_color_write_mask,
        }
    }
}

/// A color target of a graphics pipeline: its format and how it blends.
#[derive(Clone, Copy, Debug, PartialEq, Eq, Structural)]
pub struct ColorTargetDescription {
    pub format: TextureFormat,
    pub blend_state: ColorTargetBlendState,
}

impl ColorTargetDescription {
    pub fn new(format: TextureFormat, blend_state: ColorTargetBlendState) -> (d: Self)
        ensures
            d == (ColorTargetDescription { format, blend_state }),
    {
        ColorTargetDescription { format, blend_state }
    }
}

/// The render targets of a graphics pipeline: its color targets and, if it
/// has one, the format of its depth stencil target. Without a depth stencil
/// target the format code is 0, SDL's invalid format.
#[derive(Clone, Copy, Debug)]
pub struct GraphicsPipelineTargetInfo<'ctd> {
    pub color_target_descriptions: &'ctd [ColorTargetDescription],
    pub depth_stencil_format: i32,
    pub has_depth_stencil_target: bool,
}

impl<'ctd> GraphicsPipelineTargetInfo<'ctd> {
    pub fn new(descriptions: &'ctd [ColorTargetDescription], depth_stencil_format: Option<TextureFormat>) -> (t: Self)
        ensures
            t.color_target_descriptions@ == descriptions@,
            t.has_depth_stencil_target == depth_stencil_format is Some,
            t.depth_stencil_format == match depth_stencil_format {
                Some(f) => f.code(),
                None => 0i32,
            },
    {
        let (code, has) = match depth_stencil_format {
            Some(f) => (f.to_sdl(), true),
            None => (0i32, false),
        };
        GraphicsPipelineTargetInfo {
            color_target_descriptions: descriptions,
            depth_stencil_format: code,
            has_depth_stencil_target: has,
        }
    }
}

/// How primitives are rasterized: the fill mode, which faces are culled,
/// which winding is the front face, the three depth bias parameters
/// (constant factor, clamp, slope factor), and whether depth bias and depth
/// clipping are on. `F` holds the depth bias parameters.
#[derive(Clone, Copy, Debug)]
pub struct RasterizerState<F> {
    pub fill_mode: FillMode,
    pub cull_mode: CullMode,
    pub front_face: FrontFace,
    pub depth_bias_constant_factor: F,
    pub depth_bias_clamp: F,
    pub depth_bias_slope_factor: F,
    pub enable_depth_bias: bool,
    pub enable_depth_clip: bool,
}

impl<F: Copy> RasterizerState<F> {
    /// Describe rasterization; `depth_bias` is (constant factor, clamp, slope
    /// factor), and each other argument becomes the field of the same name.
    pub fn new(
        fill_mode: FillMode,
        cull_mode: CullMode,
        front_face: FrontFace,
        depth_bias: (F, F, F),
        enable_depth_bias: bool,
        enable_depth_clip: bool,
    ) -> (r: Self)
        ensures
            r.fill_mode == fill_mode,
            r.cull_mode == cull_mode,
            r.front_face == front_face,
            (r.depth_bias_constant_factor, r.depth_bias_clamp, r.depth_bias_slope_factor) == depth_bias,
            r.enable_depth_bias == enable_depth_bias,
            r.enable_depth_clip == enable_depth_clip,
    {
        RasterizerState {
            fill_mode,
            cull_mode,
            front_face,
            depth_bias_constant_factor: depth_bias.0,
            depth_bias_clamp: depth_bias.1,
            depth_bias_slope_factor: depth_bias.2,
            enable_depth_bias,
            enable_depth_clip,
        }
    }
}

} // verus!
