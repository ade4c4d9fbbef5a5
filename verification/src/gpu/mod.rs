//! Descriptions of GPU resources and pipeline state, with their SDL codes.

pub mod buffer;
pub mod command_buffer;
pub mod compute_pass;
pub mod compute_pipeline;
pub mod device;
pub mod graphics_pipeline;
pub mod pipeline_state;
pub mod render_pass;
pub mod render_state;
pub mod sampler;
pub mod shader;
pub mod shader_format;
pub mod texture;
pub mod transfer_buffer;
