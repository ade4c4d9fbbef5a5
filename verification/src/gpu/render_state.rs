//! Custom render state creation parameters.

use vstd::prelude::*;

verus! {

/// The parameters of a custom render state: its fragment shader and the
/// samplers, storage textures and storage buffers it binds. The extension
/// properties are left out: they are always zero.
#[derive(Clone, Copy, Debug)]
pub struct RenderStateCreateInfo<'a, Sh, Bi, Tx, Bu> {
    pub fragment_shader: Sh,
    pub sampler_bindings: &'a [Bi],
    pub storage_textures: &'a [Tx],
    pub storage_buffers: &'a [Bu],
}

impl<'a, Sh: Copy, Bi, Tx, Bu> RenderStateCreateInfo<'a, Sh, Bi, Tx, Bu> {
    pub fn new(
        fragment_shader: Sh,
        sampler_bindings: &'a [Bi],
        storage_textures: &'a [Tx],
        storage_buffers: &'a [Bu],
    ) -> (ci: Self)
        ensures
            ci.fragment_shader == fragment_shader,
            ci.sampler_bindings@ == sampler_bindings@,
            ci.storage_textures@ == storage_textures@,
            ci.storage_buffers@ == storage_buffers@,
    {
        RenderStateCreateInfo { fragment_shader, sampler_bindings, storage_textures, storage_buffers }
    }
}

} // verus!
