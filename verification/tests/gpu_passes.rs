use sandlot::gpu::command_buffer::{BlitInfo, FlipMode};
use sandlot::gpu::graphics_pipeline::{GraphicsPipelineCreateInfo, PrimitiveType};
use sandlot::gpu::pipeline_state::{
    BlendFactor, BlendOp, ColorComponentFlags, ColorTargetBlendState, ColorTargetDescription, CullMode, DepthStencilState, FillMode, FrontFace, GraphicsPipelineTargetInfo,
    MultisampleState, RasterizerState, StencilOp, StencilOpState, VertexBufferDescription, VertexInputRate,
    VertexInputState,
};
use sandlot::gpu::render_pass::{ColorTargetInfo, DepthStencilTargetInfo, LoadOp, StoreOp, Viewport};
use sandlot::gpu::sampler::{CompareOp, Filter, SamplerAddressMode, SamplerCreateInfo, SamplerMipmapMode};
use sandlot::gpu::texture::{BlitRegion, SampleCount, TextureFormat};
use sandlot::rect::Point;

#[test]
fn viewport_from_position_size_and_depth() {
    let v = Viewport::new(Point::new(1.5f32, 2.0), Point::new(640.0f32, 480.0), (0.0, 1.0));
    assert_eq!((v.x, v.y, v.w, v.h), (1.5, 2.0, 640.0, 480.0));
    assert_eq!((v.min_depth, v.max_depth), (0.0, 1.0));
}

#[test]
fn rasterizer_state_keeps_its_parameters() {
    let r = RasterizerState::new(FillMode::Line, CullMode::Back, FrontFace::Clockwise, (0.5f32, 2.0, -1.0), true, false);
    assert_eq!(r.fill_mode, FillMode::Line);
    assert_eq!(r.cull_mode, CullMode::Back);
    assert_eq!(r.front_face, FrontFace::Clockwise);
    assert_eq!(r.depth_bias_constant_factor, 0.5);
    assert_eq!(r.depth_bias_clamp, 2.0);
    assert_eq!(r.depth_bias_slope_factor, -1.0);
    assert!(r.enable_depth_bias);
    assert!(!r.enable_depth_clip);
}

#[test]
fn sampler_create_info_keeps_its_parameters() {
    let s = SamplerCreateInfo::new(
        Filter::Nearest,
        Filter::Linear,
        SamplerMipmapMode::Linear,
        (SamplerAddressMode::Repeat, SamplerAddressMode::MirroredRepeat, SamplerAddressMode::ClampToEdge),
        0.25f32,
        16.0,
        CompareOp::LessOrEqual,
        1.0,
        8.0,
        true,
        false,
    );
    assert_eq!((s.min_filter, s.mag_filter), (Filter::Nearest, Filter::Linear));
    assert_eq!(s.mipmap_mode, SamplerMipmapMode::Linear);
    assert_eq!(s.address_mode_u, SamplerAddressMode::Repeat);
    assert_eq!(s.address_mode_v, SamplerAddressMode::MirroredRepeat);
    assert_eq!(s.address_mode_w, SamplerAddressMode::ClampToEdge);
    assert_eq!((s.mip_lod_bias, s.max_anisotropy, s.min_lod, s.max_lod), (0.25, 16.0, 1.0, 8.0));
    assert_eq!(s.compare_op, CompareOp::LessOrEqual);
    assert!(s.enable_anisotropy);
    assert!(!s.enable_compare);
}

#[test]
fn color_target_info_with_and_without_resolve_texture() {
    let t = ColorTargetInfo::new(3u64, 1, 2, [0.0f32, 0.5, 1.0, 1.0], LoadOp::Clear, StoreOp::Resolve, Some(9u64), (4, 5), true, false);
    assert_eq!(t.texture, 3);
    assert_eq!((t.mip_level, t.layer_or_depth_plane), (1, 2));
    assert_eq!(t.clear_color, [0.0, 0.5, 1.0, 1.0]);
    assert_eq!((t.load_op, t.store_op), (LoadOp::Clear, StoreOp::Resolve));
    assert_eq!(t.resolve_texture, Some(9));
    assert_eq!((t.resolve_mip_level, t.resolve_layer), (4, 5));
    assert!(t.cycle);
    assert!(!t.cycle_resolve_texture);

    let u = ColorTargetInfo::new(3u64, 0, 0, [0.0f32; 4], LoadOp::Load, StoreOp::Store, None, (0, 0), false, false);
    assert_eq!(u.resolve_texture, None);
    assert_eq!((u.load_op, u.store_op), (LoadOp::Load, StoreOp::Store));
}

#[test]
fn depth_stencil_target_info_keeps_its_parameters() {
    let t = DepthStencilTargetInfo::new(
        6u64,
        1.0f32,
        (LoadOp::Clear, StoreOp::DontCare),
        (LoadOp::DontCare, StoreOp::Store),
        true,
        255,
        (2, 3),
    );
    assert_eq!(t.texture, 6);
    assert_eq!(t.clear_depth, 1.0);
    assert_eq!((t.load_op, t.store_op), (LoadOp::Clear, StoreOp::DontCare));
    assert_eq!((t.stencil_load_op, t.stencil_store_op), (LoadOp::DontCare, StoreOp::Store));
    assert!(t.cycle);
    assert_eq!(t.clear_stencil, 255);
    assert_eq!((t.mip_level, t.layer), (2, 3));
}

#[test]
fn blit_info_keeps_its_regions_and_modes() {
    let src = BlitRegion::new(1u64, 0, 0, (0, 0, 64, 64));
    let dst = BlitRegion::new(2u64, 1, 0, (8, 8, 32, 32));
    let b = BlitInfo::new(src, dst, LoadOp::DontCare, [1.0f32; 4], FlipMode::Vertical, Filter::Linear, true);
    assert_eq!(b.source, src);
    assert_eq!(b.destination, dst);
    assert_eq!(b.load_op, LoadOp::DontCare);
    assert_eq!(b.clear_color, [1.0; 4]);
    assert_eq!(b.flip_mode, FlipMode::Vertical);
    assert_eq!(b.filter, Filter::Linear);
    assert!(b.cycle);
}

#[test]
fn graphics_pipeline_create_info_keeps_its_parts() {
    let descs = [VertexBufferDescription::new(0, 12, VertexInputRate::Vertex)];
    let vis = VertexInputState::new(&descs, &[]);
    let targets = [ColorTargetDescription::new(
        TextureFormat::R8g8b8a8Unorm,
        ColorTargetBlendState::new(
            (BlendFactor::One, BlendFactor::Zero),
            BlendOp::Add,
            (BlendFactor::One, BlendFactor::Zero),
            BlendOp::Add,
            ColorComponentFlags::all(),
            false,
            false,
        ),
    )];
    let target_info = GraphicsPipelineTargetInfo::new(&targets, Some(TextureFormat::D32Float));
    let keep = StencilOpState::new(StencilOp::Keep, StencilOp::Keep, StencilOp::Keep, CompareOp::Always);
    let dss = DepthStencilState::new(CompareOp::Less, keep, keep, 0xff, 0xff, true, true, false);
    let ms = MultisampleState::new(SampleCount::Four, false);
    let rs = RasterizerState::new(FillMode::Fill, CullMode::NoCull, FrontFace::CounterClockwise, (0.0f32, 0.0, 0.0), false, true);
    let ci = GraphicsPipelineCreateInfo::new(10u64, 11u64, vis, PrimitiveType::TriangleStrip, rs, ms, dss, target_info);
    assert_eq!((ci.vertex_shader, ci.fragment_shader), (10, 11));
    assert_eq!(ci.vertex_input_state.vertex_buffer_descriptions, &descs[..]);
    assert!(ci.vertex_input_state.vertex_attributes.is_empty());
    assert_eq!(ci.primitive_type, PrimitiveType::TriangleStrip);
    assert_eq!(ci.rasterizer_state.cull_mode, CullMode::NoCull);
    assert!(ci.rasterizer_state.enable_depth_clip);
    assert_eq!(ci.multisample_state, ms);
    assert_eq!(ci.depth_stencil_state, dss);
    assert_eq!(ci.target_info.color_target_descriptions, &targets[..]);
    assert!(ci.target_info.has_depth_stencil_target);
    assert_eq!(ci.target_info.depth_stencil_format, TextureFormat::D32Float.to_sdl());
}
