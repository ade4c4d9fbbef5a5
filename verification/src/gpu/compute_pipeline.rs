//! Compute pipeline creation parameters.

use vstd::prelude::*;
use crate::gpu::shader_format::ShaderFormat;
verus! {

/// The parameters of a new compute pipeline: its shader code, entry point
/// and format, the resources the shader declares, and its workgroup size.
/// The extension properties are left out: they are always zero.
#[derive(Clone, Copy, Debug)]
pub struct ComputePipelineCreateInfo<'bc, 'ep> {
    pub code: &'bc [u8],
    pub entrypoint: &'ep str,
    pub format: ShaderFormat,
    pub num_samplers: u32,
    pub num_readonly_storage_textures: u32,
    pub num_readonly_storage_buffers: u32,
    pub num_readwrite_storage_textures: u32,
    pub num_readwrite_storage_buffers: u32,
    pub num_uniform_buffers: u32,
    pub threadcount_x: u32,
    pub threadcount_y: u32,
    pub threadcount_z: u32,
}

impl<'bc, 'ep> ComputePipelineCreateInfo<'bc, 'ep> {
    /// Describe a compute pipeline. The four storage counts are, in order,
    /// read-only storage textures, read-only storage buffers, read-write
    /// storage textures and read-write storage buffers; `threadcount_xyz`
    /// is the number of threads in the X, Y and Z dimensions.
    pub fn new(
        code: &'bc [u8],
        entrypoint: &'ep str,
        fmt: ShaderFormat,
        sampler_count: u32,
        uniform_buffer_count: u32,
        storage_counts: (u32, u32, u32, u32),
        threadcount_xyz: (u32, u32, u32),
    ) -> (ci: Self)
        ensures
            ci.code@ == code@,
            ci.entrypoint@ == entrypoint@,
            ci.format == fmt,
            ci.num_samplers == sampler_count,
            (
                ci.num_readonly_storage_textures,
                ci.num_readonly_storage_buffers,
                ci.num_readwrite_storage_textures,
                ci.num_readwrite_storage_buffers,
            ) == storage_counts,
            ci.num_uniform_buffers == uniform_buffer_count,
            (ci.threadcount_x, ci.threadcount_y, ci.threadcount_z) == threadcount_xyz,
    {
        let (
            readonly_storage_texture_count,
            readonly_storage_buffer_count,
            readwrite_storage_texture_count,
            readwrite_storage_buffer_count,
        ) = storage_counts;
        ComputePipelineCreateInfo {
            code,
            entrypoint,
            format: fmt,
            num_samplers: sampler_count,
            num_readonly_storage_textures: readonly_storage_texture_count,
            num_readonly_storage_buffers: readonly_storage_buffer_count,
            num_readwrite_storage_textures: readwrite_storage_texture_count,
            num_readwrite_storage_buffers: readwrite_storage_buffer_count,
            num_uniform_buffers: uniform_buffer_count,
            threadcount_x: threadcount_xyz.0,
            threadcount_y: threadcount_xyz.1,
            threadcount_z: threadcount_xyz.2,
        }
    }
}

} // verus!
