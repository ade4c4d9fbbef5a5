//! Render pass targets, their load and store operations, and indirect draw
//! commands.

use vstd::prelude::*;
use crate::rect::Point;

verus! {

/// The size of the elements of an index buffer.
///
/// The values are those of `SDL_GPUIndexElementSize`.
#[derive(Clone, Copy, Debug, PartialEq, Eq, Hash, Structural)]
pub enum IndexElementSize {
    Bits16,
    Bits32,
}

impl IndexElementSize {
    /// The SDL code of this value.
    pub open spec fn code(self) -> i32 {
        match self {
            IndexElementSize::Bits16 => 0i32,
            IndexElementSize::Bits32 => 1i32,
        }
    }

    /// The value whose SDL code is `code`, if any.
    pub open spec fn from_code(code: i32) -> Option<IndexElementSize> {
        if code == 0i32 {
            Some(IndexElementSize::Bits16)
        } else if code == 1i32 {
            Some(IndexElementSize::Bits32)
        } else {
            None
        }
    }

    /// The SDL code of this value.
    pub fn to_sdl(self) -> (c: i32)
        ensures
            c == self.code(),
    {
        match self {
            IndexElementSize::Bits16 => 0i32,
            IndexElementSize::Bits32 => 1i32,
        }
    }

    /// The value whose SDL code is `code`; `None` for a code that names
    /// no value of this type.
    pub fn from_sdl(code: i32) -> (r: Option<Self>)
        ensures
            r == Self::from_code(code),
    {
        if code == 0i32 {
            Some(IndexElementSize::Bits16)
        } else if code == 1i32 {
            Some(IndexElementSize::Bits32)
        } else {
            None
        }
    }
}

/// Every IndexElementSize has its own SDL code: the code of a value reads back as
/// that value, and a code that reads back as a value is that value's code.
pub proof fn lemma_index_element_size_code_roundtrip(v: IndexElementSize, code: i32)
    ensures
        IndexElementSize::from_code(v.code()) == Some(v),
        IndexElementSize::from_code(code) == Some(v) ==> v.code() == code,
{
}

/// The code of each IndexElementSize is the number SDL's headers give the `SDL_GPUIndexElementSize`
/// constant of the same name, value by value.
pub proof fn lemma_index_element_size_sdl_codes()
    ensures
        IndexElementSize::Bits16.code() == 0i32,
        IndexElementSize::Bits32.code() == 1i32,
{
}

/// What happens to a target's contents when a render pass begins.
///
/// The values are those of `SDL_GPULoadOp`.
#[derive(Clone, Copy, Debug, PartialEq, Eq, Hash, Structural)]
pub enum LoadOp {
    Load,
    Clear,
    DontCare,
}

impl LoadOp {
    /// The SDL code of this value.
    pub open spec fn code(self) -> i32 {
        match self {
            LoadOp::Load => 0i32,
            LoadOp::Clear => 1i32,
            LoadOp::DontCare => 2i32,
        }
    }

    /// The value whose SDL code is `code`, if any.
    pub open spec fn from_code(code: i32) -> Option<LoadOp> {
        if code == 0i32 {
            Some(LoadOp::Load)
        } else if code == 1i32 {
            Some(LoadOp::Clear)
        } else if code == 2i32 {
            Some(LoadOp::DontCare)
        } else {
            None
        }
    }

    /// The SDL code of this value.
    pub fn to_sdl(self) -> (c: i32)
        ensures
            c == self.code(),
    {
        match self {
            LoadOp::Load => 0i32,
            LoadOp::Clear => 1i32,
            LoadOp::DontCare => 2i32,
        }
    }

    /// The value whose SDL code is `code`; `None` for a code that names
    /// no value of this type.
    pub fn from_sdl(code: i32) -> (r: Option<Self>)
        ensures
            r == Self::from_code(code),
    {
        if code == 0i32 {
            Some(LoadOp::Load)
        } else if code == 1i32 {
            Some(LoadOp::Clear)
        } else if code == 2i32 {
            Some(LoadOp::DontCare)
        } else {
            None
        }
    }
}

/// Every LoadOp has its own SDL code: the code of a value reads back as
/// that value, and a code that reads back as a value is that value's code.
pub proof fn lemma_load_op_code_roundtrip(v: LoadOp, code: i32)
    ensures
        LoadOp::from_code(v.code()) == Some(v),
        LoadOp::from_code(code) == Some(v) ==> v.code() == code,
{
}

/// The code of each LoadOp is the number SDL's headers give the `SDL_GPULoadOp`
/// constant of the same name, value by value.
pub proof fn lemma_load_op_sdl_codes()
    ensures
        LoadOp::Load.code() == 0i32,
        LoadOp::Clear.code() == 1i32,
        LoadOp::DontCare.code() == 2i32,
{
}

/// What happens to a target's contents when a render pass ends.
///
/// The values are those of `SDL_GPUStoreOp`.
#[derive(Clone, Copy, Debug, PartialEq, Eq, Hash, Structural)]
pub enum StoreOp {
    Store,
    DontCare,
    Resolve,
    ResolveAndStore,
}

impl StoreOp {
    /// The SDL code of this value.
    pub open spec fn code(self) -> i32 {
        match self {
            StoreOp::Store => 0i32,
            StoreOp::DontCare => 1i32,
            StoreOp::Resolve => 2i32,
            StoreOp::ResolveAndStore => 3i32,
        }
    }

    /// The value whose SDL code is `code`, if any.
    pub open spec fn from_code(code: i32) -> Option<StoreOp> {
        if code == 0i32 {
            Some(StoreOp::Store)
        } else if code == 1i32 {
            Some(StoreOp::DontCare)
        } else if code == 2i32 {
            Some(StoreOp::Resolve)
        } else if code == 3i32 {
            Some(StoreOp::ResolveAndStore)
        } else {
            None
        }
    }

    /// The SDL code of this value.
    pub fn to_sdl(self) -> (c: i32)
        ensures
            c == self.code(),
    {
        match self {
            StoreOp::Store => 0i32,
            StoreOp::DontCare => 1i32,
            StoreOp::Resolve => 2i32,
            StoreOp::ResolveAndStore => 3i32,
        }
    }

    /// The value whose SDL code is `code`; `None` for a code that names
    /// no value of this type.
    pub fn from_sdl(code: i32) -> (r: Option<Self>)
        ensures
            r == Self::from_code(code),
    {
        if code == 0i32 {
            Some(StoreOp::Store)
        } else if code == 1i32 {
            Some(StoreOp::DontCare)
        } else if code == 2i32 {
            Some(StoreOp::Resolve)
        } else if code == 3i32 {
            Some(StoreOp::ResolveAndStore)
        } else {
            None
        }
    }
}

/// Every StoreOp has its own SDL code: the code of a value reads back as
/// that value, and a code that reads back as a value is that value's code.
pub proof fn lemma_store_op_code_roundtrip(v: StoreOp, code: i32)
    ensures
        StoreOp::from_code(v.code()) == Some(v),
        StoreOp::from_code(code) == Some(v) ==> v.code() == code,
{
}

/// The code of each StoreOp is the number SDL's headers give the `SDL_GPUStoreOp`
/// constant of the same name, value by value.
pub proof fn lemma_store_op_sdl_codes()
    ensures
        StoreOp::Store.code() == 0i32,
        StoreOp::DontCare.code() == 1i32,
        StoreOp::Resolve.code() == 2i32,
        StoreOp::ResolveAndStore.code() == 3i32,
{
}

/// The parameters of one non-indexed indirect draw, laid out as the GPU
/// reads them from a buffer.
#[derive(Clone, Copy, Debug, PartialEq, Eq, Structural)]
pub struct IndirectDrawCommand {
    num_vertices: u32,
    num_instances: u32,
    first_vertex: u32,
    first_instance: u32,
}

impl IndirectDrawCommand {
    /// The vertex and instance counts.
    pub closed spec fn counts_of(self) -> (u32, u32) {
        (self.num_vertices, self.num_instances)
    }

    /// The first vertex and the first instance.
    pub closed spec fn firsts_of(self) -> (u32, u32) {
        (self.first_vertex, self.first_instance)
    }

    /// Draw `vertex_count` vertices in `instance_count` instances, starting
    /// at `first_vertex` and `first_instance`.
    pub fn new(counts: (u32, u32), firsts: (u32, u32)) -> (c: Self)
        ensures
            c.counts_of() == counts,
            c.firsts_of() == firsts,
    {
        let (vertex_count, instance_count) = counts;
        let (first_vertex, first_instance) = firsts;
        IndirectDrawCommand {
            num_vertices: vertex_count,
            num_instances: instance_count,
            first_vertex,
            first_instance,
        }
    }

    /// The vertex and instance counts.
    pub fn counts(&self) -> (r: (u32, u32))
        ensures
            r == self.counts_of(),
    {
        (self.num_vertices, self.num_instances)
    }

    /// The first vertex and the first instance.
    pub fn firsts(&self) -> (r: (u32, u32))
        ensures
            r == self.firsts_of(),
    {
        (self.first_vertex, self.first_instance)
    }
}

/// The parameters of one indexed indirect draw, laid out as the GPU reads
/// them from a buffer.
#[derive(Clone, Copy, Debug, PartialEq, Eq, Structural)]
pub struct IndexedIndirectDrawCommand {
    num_indices: u32,
    num_instances: u32,
    first_index: u32,
    vertex_offset: i32,
    first_instance: u32,
}

impl IndexedIndirectDrawCommand {
    /// The index and instance counts.
    pub closed spec fn counts_of(self) -> (u32, u32) {
        (self.num_indices, self.num_instances)
    }

    /// The first index and the offset added to each index.
    pub closed spec fn firsts_of(self) -> (u32, i32) {
        (self.first_index, self.vertex_offset)
    }

    /// The first instance.
    pub closed spec fn first_instance_of(self) -> u32 {
        self.first_instance
    }

    /// Draw `num_indices` indices in `num_instances` instances, starting at
    /// `first_index`, adding `vertex_offset` to each index, starting at
    /// instance `first_instance`.
    pub fn new(counts: (u32, u32), firsts: (u32, i32), first_instance: u32) -> (c: Self)
        ensures
            c.counts_of() == counts,
            c.firsts_of() == firsts,
            c.first_instance_of() == first_instance,
    {
        let (num_indices, num_instances) = counts;
        let (first_index, vertex_offset) = firsts;
        IndexedIndirectDrawCommand { num_indices, num_instances, first_index, vertex_offset, first_instance }
    }

    /// The index and instance counts.
    pub fn counts(&self) -> (r: (u32, u32))
        ensures
            r == self.counts_of(),
    {
        (self.num_indices, self.num_instances)
    }

    /// The first index and the offset added to each index.
    pub fn firsts(&self) -> (r: (u32, i32))
        ensures
            r == self.firsts_of(),
    {
        (self.first_index, self.vertex_offset)
    }

    /// The first instance.
    pub fn first_instance(&self) -> (r: u32)
        ensures
            r == self.first_instance_of(),
    {
        self.first_instance
    }
}

/// An indirect draw command gives back the counts and starting points it
/// was made with.
pub proof fn lemma_indirect_draw_commands_keep_parameters(
    a: IndirectDrawCommand,
    b: IndirectDrawCommand,
    c: IndexedIndirectDrawCommand,
    d: IndexedIndirectDrawCommand,
)
    ensures
        a.counts_of() == b.counts_of() && a.firsts_of() == b.firsts_of() ==> a == b,
        c.counts_of() == d.counts_of() && c.firsts_of() == d.firsts_of()
            && c.first_instance_of() == d.first_instance_of() ==> c == d,
{
}

/// A color target of a render pass: the texture and the mip level and layer
/// (or depth plane) drawn to, the color it is cleared to, what happens to it
/// at the start and the end of the pass, the texture that multisampled
/// contents are resolved into, if any, with its mip level and layer, and
/// whether SDL cycles the target and the resolve texture when they are in
/// use. `H` is how a texture is referred to and `C` holds the clear color.
#[derive(Clone, Copy, Debug)]
pub struct ColorTargetInfo<H, C> {
    pub texture: H,
    pub mip_level: u32,
    pub layer_or_depth_plane: u32,
    pub clear_color: C,
    pub load_op: LoadOp,
    pub store_op: StoreOp,
    pub resolve_texture: Option<H>,
    pub resolve_mip_level: u32,
    pub resolve_layer: u32,
    pub cycle: bool,
    pub cycle_resolve_texture: bool,
}

impl<H: Copy, C: Copy> ColorTargetInfo<H, C> {
    /// Describe a color target; `resolve_at` is the (mip level, layer) of the
    /// resolve texture.
    pub fn new(
        texture: H,
        mip_level: u32,
        layer_or_depth_plane: u32,
        clear_color: C,
        load_op: LoadOp,
        store_op: StoreOp,
        resolve_texture: Option<H>,
        resolve_at: (u32, u32),
        cycle: bool,
        cycle_resolve_texture: bool,
    ) -> (t: Self)
        ensures
            t.texture == texture,
            t.mip_level == mip_level,
            t.layer_or_depth_plane == layer_or_depth_plane,
            t.clear_color == clear_color,
            t.load_op == load_op,
            t.store_op == store_op,
            t.resolve_texture == resolve_texture,
            (t.resolve_mip_level, t.resolve_layer) == resolve_at,
            t.cycle == cycle,
            t.cycle_resolve_texture == cycle_resolve_texture,
    {
        ColorTargetInfo {
            texture,
            mip_level,
            layer_or_depth_plane,
            clear_color,
            load_op,
            store_op,
            resolve_texture,
            resolve_mip_level: resolve_at.0,
            resolve_layer: resolve_at.1,
            cycle,
            cycle_resolve_texture,
        }
    }
}

/// The depth stencil target of a render pass: the texture, the depth it is
/// cleared to, what happens to its depth and to its stencil at the start and
/// the end of the pass, whether SDL cycles it when it is in use, the stencil
/// value it is cleared to, and its mip level and layer. `H` is how a texture
/// is referred to and `D` holds the clear depth.
#[derive(Clone, Copy, Debug)]
pub struct DepthStencilTargetInfo<H, D> {
    pub texture: H,
    pub clear_depth: D,
    pub load_op: LoadOp,
    pub store_op: StoreOp,
    pub stencil_load_op: LoadOp,
    pub stencil_store_op: StoreOp,
    pub cycle: bool,
    pub clear_stencil: u8,
    pub mip_level: u8,
    pub layer: u8,
}

impl<H: Copy, D: Copy> DepthStencilTargetInfo<H, D> {
    /// Describe a depth stencil target. The pairs are (load, store) for the
    /// depth and for the stencil, and (mip level, layer).
    pub fn new(
        texture: H,
        clear_depth: D,
        depth_ops: (LoadOp, StoreOp),
        stencil_ops: (LoadOp, StoreOp),
        cycle: bool,
        clear_stencil: u8,
        level_and_layer: (u8, u8),
    ) -> (t: Self)
        ensures
            t.texture == texture,
            t.clear_depth == clear_depth,
            (t.load_op, t.store_op) == depth_ops,
            (t.stencil_load_op, t.stencil_store_op) == stencil_ops,
            t.cycle == cycle,
            t.clear_stencil == clear_stencil,
            (t.mip_level, t.layer) == level_and_layer,
    {
        DepthStencilTargetInfo {
            texture,
            clear_depth,
            load_op: depth_ops.0,
            store_op: depth_ops.1,
            stencil_load_op: stencil_ops.0,
            stencil_store_op: stencil_ops.1,
            cycle,
            clear_stencil,
            mip_level: level_and_layer.0,
            layer: level_and_layer.1,
        }
    }
}

/// The viewport of a render pass: its position, its size and the depth range
/// it maps to. `F` holds the coordinates.
#[derive(Clone, Copy, Debug)]
pub struct Viewport<F> {
    pub x: F,
    pub y: F,
    pub w: F,
    pub h: F,
    pub min_depth: F,
    pub max_depth: F,
}

impl<F: Copy> Viewport<F> {
    /// The viewport at `pos` of size `size`; `depth_range` is (min, max).
    pub fn new(pos: Point<F>, size: Point<F>, depth_range: (F, F)) -> (v: Self)
        ensures
            v.x == pos.x && v.y == pos.y,
            v.w == size.x && v.h == size.y,
            (v.min_depth, v.max_depth) == depth_range,
    {
        Viewport { x: pos.x, y: pos.y, w: size.x, h: size.y, min_depth: depth_range.0, max_depth: depth_range.1 }
    }
}

} // verus!
