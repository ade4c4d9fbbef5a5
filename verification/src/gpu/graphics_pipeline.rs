//! Primitive topologies.

use vstd::prelude::*;
use crate::gpu::pipeline_state::{
    DepthStencilState, GraphicsPipelineTargetInfo, MultisampleState, VertexInputState,
};

verus! {

/// How vertices are assembled into primitives.
///
/// The values are those of `SDL_GPUPrimitiveType`.
#[derive(Clone, Copy, Debug, PartialEq, Eq, Hash, Structural)]
pub enum PrimitiveType {
    TriangleList,
    TriangleStrip,
    LineList,
    LineStrip,
    PointList,
}

impl PrimitiveType {
    /// The SDL code of this value.
    pub open spec fn code(self) -> i32 {
        match self {
            PrimitiveType::TriangleList => 0i32,
            PrimitiveType::TriangleStrip => 1i32,
            PrimitiveType::LineList => 2i32,
            PrimitiveType::LineStrip => 3i32,
            PrimitiveType::PointList => 4i32,
        }
    }

    /// The value whose SDL code is `code`, if any.
    pub open spec fn from_code(code: i32) -> Option<PrimitiveType> {
        if code == 0i32 {
            Some(PrimitiveType::TriangleList)
        } else if code == 1i32 {
            Some(PrimitiveType::TriangleStrip)
        } else if code == 2i32 {
            Some(PrimitiveType::LineList)
        } else if code == 3i32 {
            Some(PrimitiveType::LineStrip)
        } else if code == 4i32 {
            Some(PrimitiveType::PointList)
        } else {
            None
        }
    }

    /// The SDL code of this value.
    pub fn to_sdl(self) -> (c: i32)
        ensures
            c == self.code(),
    {
        match self {
            PrimitiveType::TriangleList => 0i32,
            PrimitiveType::TriangleStrip => 1i32,
            PrimitiveType::LineList => 2i32,
            PrimitiveType::LineStrip => 3i32,
            PrimitiveType::PointList => 4i32,
        }
    }

    /// The value whose SDL code is `code`; `None` for a code that names
    /// no value of this type.
    pub fn from_sdl(code: i32) -> (r: Option<Self>)
        ensures
            r == Self::from_code(code),
    {
        if code == 0i32 {
            Some(PrimitiveType::TriangleList)
        } else if code == 1i32 {
            Some(PrimitiveType::TriangleStrip)
        } else if code == 2i32 {
            Some(PrimitiveType::LineList)
        } else if code == 3i32 {
            Some(PrimitiveType::LineStrip)
        } else if code == 4i32 {
            Some(PrimitiveType::PointList)
        } else {
            None
        }
    }
}

/// Every PrimitiveType has its own SDL code: the code of a value reads back as
/// that value, and a code that reads back as a value is that value's code.
pub proof fn lemma_primitive_type_code_roundtrip(v: PrimitiveType, code: i32)
    ensures
        PrimitiveType::from_code(v.code()) == Some(v),
        PrimitiveType::from_code(code) == Some(v) ==> v.code() == code,
{
}

/// The code of each PrimitiveType is the number SDL's headers give the `SDL_GPUPrimitiveType`
/// constant of the same name, value by value.
pub proof fn lemma_primitive_type_sdl_codes()
    ensures
        PrimitiveType::TriangleList.code() == 0i32,
        PrimitiveType::TriangleStrip.code() == 1i32,
        PrimitiveType::LineList.code() == 2i32,
        PrimitiveType::LineStrip.code() == 3i32,
        PrimitiveType::PointList.code() == 4i32,
{
}

/// The parameters of a new graphics pipeline: its two shaders, its vertex
/// layout and primitive topology, its fixed-function state and its render
/// targets. The extension properties are left out: they are always zero.
/// `Sh` is how a shader is referred to and `Rs` holds the rasterizer state.
#[derive(Clone, Copy, Debug)]
pub struct GraphicsPipelineCreateInfo<'vbd, 'va, 'ctd, Sh, Rs> {
    pub vertex_shader: Sh,
    pub fragment_shader: Sh,
    pub vertex_input_state: VertexInputState<'vbd, 'va>,
    pub primitive_type: PrimitiveType,
    pub rasterizer_state: Rs,
    pub multisample_state: MultisampleState,
    pub depth_stencil_state: DepthStencilState,
    pub target_info: GraphicsPipelineTargetInfo<'ctd>,
}

impl<'vbd, 'va, 'ctd, Sh: Copy, Rs: Copy> GraphicsPipelineCreateInfo<'vbd, 'va, 'ctd, Sh, Rs> {
    /// Describe a graphics pipeline; each argument becomes the field of the
    /// same name.
    pub fn new(
        vertex_shader: Sh,
        fragment_shader: Sh,
        vertex_input_state: VertexInputState<'vbd, 'va>,
        primitive_type: PrimitiveType,
        rasterizer_state: Rs,
        multisample_state: MultisampleState,
        depth_stencil_state: DepthStencilState,
        target_info: GraphicsPipelineTargetInfo<'ctd>,
    ) -> (ci: Self)
        ensures
            ci.vertex_shader == vertex_shader,
            ci.fragment_shader == fragment_shader,
            ci.vertex_input_state == vertex_input_state,
            ci.primitive_type == primitive_type,
            ci.rasterizer_state == rasterizer_state,
            ci.multisample_state == multisample_state,
            ci.depth_stencil_state == depth_stencil_state,
            ci.target_info == target_info,
    {
        GraphicsPipelineCreateInfo {
            vertex_shader,
            fragment_shader,
            vertex_input_state,
            primitive_type,
            rasterizer_state,
            multisample_state,
            depth_stencil_state,
            target_info,
        }
    }
}

} // verus!
