use sandlot::gpu::buffer::{BufferBinding, BufferLocation, BufferRegion, StorageBufferReadWriteBinding};
use sandlot::gpu::pipeline_state::{
    BlendFactor, BlendOp, ColorComponentFlags, ColorTargetBlendState, ColorTargetDescription, DepthStencilState,
    GraphicsPipelineTargetInfo, MultisampleState, StencilOp, StencilOpState, VertexAttribute, VertexBufferDescription,
    VertexElementFormat, VertexInputRate, VertexInputState,
};
use sandlot::gpu::render_state::RenderStateCreateInfo;
use sandlot::gpu::sampler::CompareOp;
use sandlot::gpu::texture::{
    BlitRegion, SampleCount, StorageTextureReadWriteBinding, TextureFormat, TextureLocation, TextureRegion,
    TextureSamplerBinding, TextureTransferInfo,
};
use sandlot::gpu::transfer_buffer::TransferBufferLocation;

#[test]
fn buffer_positions_and_ranges() {
    assert_eq!(BufferRegion::new(7u64, 16, 32), BufferRegion { buffer: 7u64, offset: 16, size: 32 });
    assert_eq!(BufferRegion::whole(7u64, 64), BufferRegion { buffer: 7u64, offset: 0, size: 64 });
    assert_eq!(BufferBinding::new(1u64, 4), BufferBinding { buffer: 1u64, offset: 4 });
    assert_eq!(BufferLocation::at_start(2u64), BufferLocation { buffer: 2u64, offset: 0 });
    assert_eq!(BufferLocation::new(2u64, 9).offset, 9);
    assert!(StorageBufferReadWriteBinding::new(3u64, true).cycle);
    assert_eq!(TransferBufferLocation::whole(5u64), TransferBufferLocation { transfer_buffer: 5u64, offset: 0 });
    assert_eq!(TransferBufferLocation::new(5u64, 12).offset, 12);
}

#[test]
fn texture_regions_and_locations() {
    let r = TextureRegion::new(1u64, 2, 3, (4, 5, 6), (7, 8, 9));
    assert_eq!((r.mip_level, r.layer, r.x, r.y, r.z, r.w, r.h, r.d), (2, 3, 4, 5, 6, 7, 8, 9));
    let w = TextureRegion::whole_2d(1u64, (640, 480));
    assert_eq!((w.mip_level, w.layer, w.x, w.y, w.z, w.w, w.h, w.d), (0, 0, 0, 0, 0, 640, 480, 1));
    let l = TextureLocation::new(1u64, 1, 2, (3, 4, 5));
    assert_eq!((l.mip_level, l.layer, l.x, l.y, l.z), (1, 2, 3, 4, 5));
    assert_eq!(TextureLocation::at_start(1u64), TextureLocation { texture: 1u64, mip_level: 0, layer: 0, x: 0, y: 0, z: 0 });
    let t = TextureTransferInfo::new(9u64, 128, 256, 0);
    assert_eq!((t.transfer_buffer, t.offset, t.pixels_per_row, t.rows_per_layer), (9, 128, 256, 0));
    let b = BlitRegion::new(1u64, 0, 2, (10, 20, 30, 40));
    assert_eq!((b.layer_or_depth_plane, b.x, b.y, b.w, b.h), (2, 10, 20, 30, 40));
    let s = TextureSamplerBinding::new(1u64, 2u32);
    assert_eq!((s.texture, s.sampler), (1, 2));
    let st = StorageTextureReadWriteBinding::new(1u64, 3, 4, false);
    assert_eq!((st.mip_level, st.layer, st.cycle), (3, 4, false));
}

#[test]
fn pipeline_targets_and_states() {
    let blend = ColorTargetBlendState::new(
        (BlendFactor::SrcAlpha, BlendFactor::OneMinusSrcAlpha),
        BlendOp::Add,
        (BlendFactor::One, BlendFactor::Zero),
        BlendOp::Max,
        ColorComponentFlags::all(),
        true,
        false,
    );
    assert_eq!(blend.src_color_blendfactor, BlendFactor::SrcAlpha);
    assert_eq!(blend.dst_alpha_blendfactor, BlendFactor::Zero);
    assert_eq!(blend.alpha_blend_op, BlendOp::Max);
    let desc = [ColorTargetDescription::new(TextureFormat::B8g8r8a8Unorm, blend)];
    let with_depth = GraphicsPipelineTargetInfo::new(&desc, Some(TextureFormat::D24UnormS8Uint));
    assert!(with_depth.has_depth_stencil_target);
    assert_eq!(with_depth.depth_stencil_format, 61);
    assert_eq!(with_depth.color_target_descriptions.len(), 1);
    let without = GraphicsPipelineTargetInfo::new(&desc, None);
    assert!(!without.has_depth_stencil_target);
    assert_eq!(without.depth_stencil_format, 0);
    let m = MultisampleState::new(SampleCount::Four, true);
    assert_eq!((m.sample_count, m.enable_alpha_to_coverage), (SampleCount::Four, true));
    let face = StencilOpState::new(StencilOp::Keep, StencilOp::Keep, StencilOp::Keep, CompareOp::Always);
    let d = DepthStencilState::new(CompareOp::Less, face, face, 0xff, 0x0f, true, true, false);
    assert_eq!((d.compare_mask, d.write_mask, d.enable_depth_test, d.enable_depth_write, d.enable_stencil_test), (0xff, 0x0f, true, true, false));
    let vbd = [VertexBufferDescription::new(0, 12, VertexInputRate::Vertex)];
    let va = [VertexAttribute::new(0, 0, VertexElementFormat::Float3, 0)];
    let vis = VertexInputState::new(&vbd, &va);
    assert_eq!((vis.vertex_buffer_descriptions.len(), vis.vertex_attributes.len()), (1, 1));
    let rs = RenderStateCreateInfo::new(4u64, &[1u8, 2][..], &[3u16][..], &[][..] as &[u32]);
    assert_eq!(rs.fragment_shader, 4);
    assert_eq!((rs.sampler_bindings.len(), rs.storage_textures.len(), rs.storage_buffers.len()), (2, 1, 0));
}
