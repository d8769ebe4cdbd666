//! Planning for screen-space global illumination with radiance cascades:
//! cascade geometry and the coarse-to-fine tracing order, the mip chains of the
//! downsampled prepass and of the frame copy, the ping-pong history buffers,
//! the textures and uniform layouts each pass uses, and the shader definitions
//! of each pipeline. The GPU work itself is issued by the host renderer from
//! these plans.

pub mod cascade;
pub mod frame;
pub mod history;
pub mod lighting;
pub mod mip_chain;
pub mod settings;
pub mod shader_defs;
pub mod textures;
pub mod uniforms;
