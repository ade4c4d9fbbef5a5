use sandlot::gpu::buffer::{BufferCreateInfo, BufferUsageFlags};
use sandlot::gpu::compute_pass::IndirectDispatchCommand;
use sandlot::gpu::compute_pipeline::ComputePipelineCreateInfo;
use sandlot::gpu::pipeline_state::{ColorComponentFlags, CullMode, StencilOp, StencilOpState, VertexAttribute, VertexBufferDescription, VertexElementFormat, VertexInputRate};
use sandlot::gpu::render_pass::{IndexedIndirectDrawCommand, IndirectDrawCommand, LoadOp, StoreOp};
use sandlot::gpu::sampler::CompareOp;
use sandlot::gpu::shader::{ShaderCreateInfo, ShaderStage};
use sandlot::gpu::shader_format::{ShaderFormat, ShaderFormats};
use sandlot::gpu::texture::{SampleCount, TextureCreateInfo, TextureFormat, TextureType, TextureUsageFlags};
use sandlot::gpu::transfer_buffer::{TransferBufferCreateInfo, TransferBufferUsage};
use sandlot::rect::Point;

#[test]
fn sample_count_from_number() {
    assert_eq!(SampleCount::try_from(1u8), Ok(SampleCount::One));
    assert_eq!(SampleCount::try_from(2u8), Ok(SampleCount::Two));
    assert_eq!(SampleCount::try_from(4u8), Ok(SampleCount::Four));
    assert_eq!(SampleCount::try_from(8u8), Ok(SampleCount::Eight));
    assert_eq!(SampleCount::try_from(0u8), Err(()));
    assert_eq!(SampleCount::try_from(3u8), Err(()));
    assert_eq!(SampleCount::try_from(16u8), Err(()));
}

#[test]
fn sample_count_to_number_and_back() {
    for c in [SampleCount::One, SampleCount::Two, SampleCount::Four, SampleCount::Eight] {
        let n = u8::from(c);
        assert_eq!(SampleCount::try_from(n), Ok(c));
    }
    assert_eq!(u8::from(SampleCount::Eight), 8);
    assert_eq!(SampleCount::Eight.to_sdl(), 3);
}

#[test]
fn shader_format_masks() {
    let m = ShaderFormat::Dxil.as_mask();
    assert_eq!(m.bits(), 8);
    assert!(m.contains(ShaderFormats::dxil()));
    assert!(!m.intersects(ShaderFormats::spirv()));
    assert_eq!(ShaderFormats::from(ShaderFormat::Msl), ShaderFormats::msl());
    assert_eq!(ShaderFormats::all().bits(), 0x3e);
}

#[test]
fn flag_set_operations() {
    let mut f = TextureUsageFlags::empty();
    assert!(f.is_empty());
    f.insert(TextureUsageFlags::sampler());
    f.insert(TextureUsageFlags::color_target());
    assert!(f.contains(TextureUsageFlags::sampler()));
    assert!(f.contains(TextureUsageFlags::sampler().union(TextureUsageFlags::color_target())));
    assert!(!f.contains(TextureUsageFlags::depth_stencil_target()));
    f.remove(TextureUsageFlags::sampler());
    assert!(!f.intersects(TextureUsageFlags::sampler()));
    assert_eq!(f.bits(), 2);
    assert_eq!(f.intersection(TextureUsageFlags::all()), f);
}

#[test]
fn flag_sets_from_bits() {
    assert_eq!(BufferUsageFlags::from_bits(0x3), Some(BufferUsageFlags::vertex().union(BufferUsageFlags::index())));
    assert_eq!(BufferUsageFlags::from_bits(0x40), None);
    assert_eq!(BufferUsageFlags::from_bits_retain(0x40).bits(), 0x40);
    assert_eq!(ColorComponentFlags::all().bits(), 0xf);
    assert_eq!(ColorComponentFlags::from_bits(0x10), None);
}

#[test]
fn texture_format_codes() {
    assert_eq!(TextureFormat::A8Unorm.to_sdl(), 1);
    assert_eq!(TextureFormat::Astc12x12Float.to_sdl(), 104);
    assert_eq!(TextureFormat::from_sdl(0), None);
    assert_eq!(TextureFormat::from_sdl(105), None);
    assert_eq!(TextureFormat::from_sdl(58), Some(TextureFormat::D16Unorm));
}

#[test]
fn enum_codes_of_pipeline_state() {
    assert_eq!(VertexElementFormat::Half4.to_sdl(), 30);
    assert_eq!(CullMode::from_sdl(0), Some(CullMode::NoCull));
    assert_eq!(StencilOp::from_sdl(0), None);
    assert_eq!(CompareOp::Always.to_sdl(), 8);
    assert_eq!(LoadOp::from_sdl(1), Some(LoadOp::Clear));
    assert_eq!(StoreOp::ResolveAndStore.to_sdl(), 3);
    assert_eq!(TextureType::from_sdl(4), Some(TextureType::CubeArray));
}

#[test]
fn indirect_commands_keep_their_parameters() {
    let d = IndirectDrawCommand::new((3, 1), (10, 2));
    assert_eq!(d.counts(), (3, 1));
    assert_eq!(d.firsts(), (10, 2));
    let i = IndexedIndirectDrawCommand::new((6, 2), (4, -3), 7);
    assert_eq!(i.counts(), (6, 2));
    assert_eq!(i.firsts(), (4, -3));
    assert_eq!(i.first_instance(), 7);
    let c = IndirectDispatchCommand::new((8, 4, 2));
    assert_eq!(c.groupcounts(), (8, 4, 2));
}

#[test]
fn create_infos_hold_their_parameters() {
    let t = TextureCreateInfo::new(TextureType::_2d, TextureFormat::R8g8b8a8Unorm, TextureUsageFlags::sampler(), Point::new(640, 480), 1, 1, SampleCount::One);
    assert_eq!((t.width, t.height, t.layer_count_or_depth, t.num_levels), (640, 480, 1, 1));
    assert_eq!(t.format, TextureFormat::R8g8b8a8Unorm);
    let b = BufferCreateInfo::new(BufferUsageFlags::vertex(), 1024);
    assert_eq!((b.usage, b.size), (BufferUsageFlags::vertex(), 1024));
    let tb = TransferBufferCreateInfo::new(TransferBufferUsage::Download, 64);
    assert_eq!((tb.usage, tb.size), (TransferBufferUsage::Download, 64));
    let code = [1u8, 2, 3];
    let s = ShaderCreateInfo::vertex(&code, "main", ShaderFormat::SpirV);
    assert_eq!(s.stage, ShaderStage::Vertex);
    assert_eq!((s.num_samplers, s.num_storage_textures, s.num_storage_buffers, s.num_uniform_buffers), (0, 0, 0, 0));
    assert_eq!(s.entrypoint, "main");
    let f = ShaderCreateInfo::new(&code, "fs", ShaderFormat::Msl, ShaderStage::Fragment, 2, (3, 4, 5));
    assert_eq!((f.num_samplers, f.num_storage_textures, f.num_storage_buffers, f.num_uniform_buffers), (2, 3, 4, 5));
    let c = ComputePipelineCreateInfo::new(&code, "cs", ShaderFormat::Dxil, 1, 2, (3, 4, 5, 6), (8, 8, 1));
    assert_eq!(
        (c.num_samplers, c.num_uniform_buffers, c.num_readonly_storage_textures, c.num_readonly_storage_buffers, c.num_readwrite_storage_textures, c.num_readwrite_storage_buffers),
        (1, 2, 3, 4, 5, 6)
    );
    assert_eq!((c.threadcount_x, c.threadcount_y, c.threadcount_z), (8, 8, 1));
    assert_eq!(c.code, &code[..]);
    let v = VertexBufferDescription::new(0, 16, VertexInputRate::Instance);
    assert_eq!((v.slot, v.pitch, v.input_rate), (0, 16, VertexInputRate::Instance));
    let a = VertexAttribute::new(1, 0, VertexElementFormat::Float3, 12);
    assert_eq!((a.location, a.buffer_slot, a.format, a.offset), (1, 0, VertexElementFormat::Float3, 12));
    let st = StencilOpState::new(StencilOp::Keep, StencilOp::Replace, StencilOp::Zero, CompareOp::Less);
    assert_eq!(st.pass_op, StencilOp::Replace);
}
