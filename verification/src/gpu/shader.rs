//! Shader stages and shader creation parameters.

use vstd::prelude::*;
use crate::gpu::shader_format::ShaderFormat;
verus! {

/// The pipeline stage a shader runs in.
///
/// The values are those of `SDL_GPUShaderStage`.
#[derive(Clone, Copy, Debug, PartialEq, Eq, Hash, Structural)]
pub enum ShaderStage {
    Vertex,
    Fragment,
}

impl ShaderStage {
    /// The SDL code of this value.
    pub open spec fn code(self) -> i32 {
        match self {
            ShaderStage::Vertex => 0i32,
            ShaderStage::Fragment => 1i32,
        }
    }

    /// The value whose SDL code is `code`, if any.
    pub open spec fn from_code(code: i32) -> Option<ShaderStage> {
        if code == 0i32 {
            Some(ShaderStage::Vertex)
        } else if code == 1i32 {
            Some(ShaderStage::Fragment)
        } else {
            None
        }
    }

    /// The SDL code of this value.
    pub fn to_sdl(self) -> (c: i32)
        ensures
            c == self.code(),
    {
        match self {
            ShaderStage::Vertex => 0i32,
            ShaderStage::Fragment => 1i32,
        }
    }

    /// The value whose SDL code is `code`; `None` for a code that names
    /// no value of this type.
    pub fn from_sdl(code: i32) -> (r: Option<Self>)
        ensures
            r == Self::from_code(code),
    {
        if code == 0i32 {
            Some(ShaderStage::Vertex)
        } else if code == 1i32 {
            Some(ShaderStage::Fragment)
        } else {
            None
        }
    }
}

/// Every ShaderStage has its own SDL code: the code of a value reads back as
/// that value, and a code that reads back as a value is that value's code.
pub proof fn lemma_shader_stage_code_roundtrip(v: ShaderStage, code: i32)
    ensures
        ShaderStage::from_code(v.code()) == Some(v),
        ShaderStage::from_code(code) == Some(v) ==> v.code() == code,
{
}

/// The code of each ShaderStage is the number SDL's headers give the `SDL_GPUShaderStage`
/// constant of the same name, value by value.
pub proof fn lemma_shader_stage_sdl_codes()
    ensures
        ShaderStage::Vertex.code() == 0i32,
        ShaderStage::Fragment.code() == 1i32,
{
}

/// The parameters of a new shader: its code, entry point, format and stage,
/// and how many resources of each kind it declares. The extension
/// properties are left out: they are always zero.
#[derive(Clone, Copy, Debug)]
pub struct ShaderCreateInfo<'bc, 'ep> {
    pub code: &'bc [u8],
    pub entrypoint: &'ep str,
    pub format: ShaderFormat,
    pub stage: ShaderStage,
    pub num_samplers: u32,
    pub num_storage_textures: u32,
    pub num_storage_buffers: u32,
    pub num_uniform_buffers: u32,
}

impl<'bc, 'ep> ShaderCreateInfo<'bc, 'ep> {
    /// Describe a shader; the last three counts are, in order, its storage
    /// textures, storage buffers and uniform buffers.
    pub fn new(
        code: &'bc [u8],
        entrypoint: &'ep str,
        fmt: ShaderFormat,
        stage: ShaderStage,
        num_samplers: u32,
        resource_counts: (u32, u32, u32),
    ) -> (ci: Self)
        ensures
            ci.code@ == code@,
            ci.entrypoint@ == entrypoint@,
            ci.format == fmt,
            ci.stage == stage,
            ci.num_samplers == num_samplers,
            (ci.num_storage_textures, ci.num_storage_buffers, ci.num_uniform_buffers) == resource_counts,
    {
        let (num_storage_textures, num_storage_buffers, num_uniform_buffers) = resource_counts;
        ShaderCreateInfo {
            code,
            entrypoint,
            format: fmt,
            stage,
            num_samplers,
            num_storage_textures,
            num_storage_buffers,
            num_uniform_buffers,
        }
    }

    /// A vertex shader that declares no resources.
    pub fn vertex(code: &'bc [u8], entrypoint: &'ep str, fmt: ShaderFormat) -> (ci: Self)
        ensures
            ci.code@ == code@,
            ci.entrypoint@ == entrypoint@,
            ci.format == fmt,
            ci.stage == ShaderStage::Vertex,
            ci.num_samplers == 0,
            ci.num_storage_textures == 0,
            ci.num_storage_buffers == 0,
            ci.num_uniform_buffers == 0,
    {
        Self::new(code, entrypoint, fmt, ShaderStage::Vertex, 0, (0, 0, 0))
    }

    /// A fragment shader that declares no resources.
    pub fn fragment(code: &'bc [u8], entrypoint: &'ep str, fmt: ShaderFormat) -> (ci: Self)
        ensures
            ci.code@ == code@,
            ci.entrypoint@ == entrypoint@,
            ci.format == fmt,
            ci.stage == ShaderStage::Fragment,
            ci.num_samplers == 0,
            ci.num_storage_textures == 0,
            ci.num_storage_buffers == 0,
            ci.num_uniform_buffers == 0,
    {
        Self::new(code, entrypoint, fmt, ShaderStage::Fragment, 0, (0, 0, 0))
    }
}

} // verus!
