//! Per-view tunables of the cascade pipeline that shape its resources and
//! pipelines, and the pipeline key derived from them.
use vstd::prelude::*;
use crate::shader_defs::{
    blue_noise_defs_of, push_blue_noise_defs, webgl2_defs_of, ShaderDef, ShaderDefName,
    CASCADE_BLUE_NOISE_GROUP_N,
};

verus! {

pub const MIN_RENDER_SCALE: u32 = 2;

pub const MAX_RENDER_SCALE: u32 = 32;

pub const MIN_CASCADE_0_DIRECTIONS: u32 = 4;

pub const MAX_CASCADE_0_DIRECTIONS: u32 = 32;

pub const MIN_CASCADE_COUNT: u32 = 2;

pub const MAX_CASCADE_COUNT: u32 = 8;

/// The integer and boolean tunables of one view's cascade pipeline. The
/// floating-point tunables (rejection weights, falloff, brightness, mip ranges,
/// interval lengths) are passed through to the shaders unchanged and are not
/// held here.
#[derive(Clone, Copy, Debug, PartialEq, Eq, Structural)]
pub struct CascadeSettings {
    /// Divisor from the render target resolution to the probe grid of cascade 0.
    pub render_scale: u32,
    /// Directions traced by each probe of cascade 0; a multiple of 4.
    pub cascade_0_directions: u32,
    /// Number of cascade levels.
    pub cascade_count: u32,
    pub jitter_probe_position: bool,
    pub jitter_probe_direction: bool,
    /// Frames before the noise pattern repeats.
    pub noise_frame_period: u32,
    pub square_falloff: bool,
    /// Whether coarser cascades divide their ray-march step count by the square
    /// of their scale.
    pub divide_steps_by_square_of_cascade_exp: bool,
}

impl CascadeSettings {
    /// The configuration surface: `render_scale` in `[2, 32]`,
    /// `cascade_0_directions` a multiple of 4 in `[4, 32]`, `cascade_count` in
    /// `[2, 8]`.
    pub open spec fn wf(&self) -> bool {
        &&& MIN_RENDER_SCALE <= self.render_scale <= MAX_RENDER_SCALE
        &&& MIN_CASCADE_0_DIRECTIONS <= self.cascade_0_directions <= MAX_CASCADE_0_DIRECTIONS
        &&& self.cascade_0_directions % 4 == 0
        &&& MIN_CASCADE_COUNT <= self.cascade_count <= MAX_CASCADE_COUNT
    }

    /// Checks the configuration surface at run time.
    pub fn is_valid(&self) -> (r: bool)
        ensures
            r == self.wf(),
    {
        MIN_RENDER_SCALE <= self.render_scale && self.render_scale <= MAX_RENDER_SCALE
            && MIN_CASCADE_0_DIRECTIONS <= self.cascade_0_directions
            && self.cascade_0_directions <= MAX_CASCADE_0_DIRECTIONS
            && self.cascade_0_directions % 4 == 0 && MIN_CASCADE_COUNT <= self.cascade_count
            && self.cascade_count <= MAX_CASCADE_COUNT
    }

    pub open spec fn key_of(&self) -> SSGIPipelineKey {
        SSGIPipelineKey {
            jitter_probe_position: self.jitter_probe_position,
            jitter_probe_direction: self.jitter_probe_direction,
            noise_frame_period: self.noise_frame_period,
        }
    }

    /// The part of the settings that selects a specialised pipeline.
    pub fn key(&self) -> (r: SSGIPipelineKey)
        ensures
            r == self.key_of(),
    {
        SSGIPipelineKey {
            jitter_probe_position: self.jitter_probe_position,
            jitter_probe_direction: self.jitter_probe_direction,
            noise_frame_period: self.noise_frame_period,
        }
    }
}

impl Default for CascadeSettings {
    fn default() -> (r: Self)
        ensures
            r.render_scale == 4,
            r.cascade_0_directions == 16,
            r.cascade_count == 6,
            r.jitter_probe_position,
            r.jitter_probe_direction,
            r.noise_frame_period == 8,
            !r.square_falloff,
            r.divide_steps_by_square_of_cascade_exp,
            r.wf(),
    {
        CascadeSettings {
            render_scale: 4,
            cascade_0_directions: 16,
            cascade_count: 6,
            jitter_probe_position: true,
            jitter_probe_direction: true,
            noise_frame_period: 8,
            square_falloff: false,
            divide_steps_by_square_of_cascade_exp: true,
        }
    }
}

/// Selects one specialisation of the tracer, projection and resolve pipelines.
#[derive(Clone, Copy, Debug, PartialEq, Eq, Hash, Structural)]
pub struct SSGIPipelineKey {
    pub jitter_probe_position: bool,
    pub jitter_probe_direction: bool,
    pub noise_frame_period: u32,
}

/// The definitions that a key contributes, in order: the noise period, then
/// the position jitter flag, then the direction jitter flag.
pub open spec fn key_defs_of(k: SSGIPipelineKey) -> Seq<ShaderDef> {
    seq![ShaderDef::UInt(ShaderDefName::NoiseFramePeriod, k.noise_frame_period)] + (
    if k.jitter_probe_position {
        seq![ShaderDef::Flag(ShaderDefName::JitterProbePosition)]
    } else {
        seq![]
    }) + (if k.jitter_probe_direction {
        seq![ShaderDef::Flag(ShaderDefName::JitterProbeDirection)]
    } else {
        seq![]
    })
}

impl SSGIPipelineKey {
    /// Appends the definitions this key stands for.
    pub fn shader_defs(&self, shader_defs: &mut Vec<ShaderDef>)
        ensures
            final(shader_defs)@ == old(shader_defs)@ + key_defs_of(*self),
    {
        shader_defs.push(ShaderDef::UInt(ShaderDefName::NoiseFramePeriod, self.noise_frame_period));
        if self.jitter_probe_position {
            shader_defs.push(ShaderDef::Flag(ShaderDefName::JitterProbePosition));
        }
        if self.jitter_probe_direction {
            shader_defs.push(ShaderDef::Flag(ShaderDefName::JitterProbeDirection));
        }
        assert(shader_defs@ =~= old(shader_defs)@ + key_defs_of(*self));
    }
}

/// Definitions of the cascade tracer: the backend's own, the key's, the blue
/// noise bound under the cascade group, and the deferred-prepass flag.
pub open spec fn tracer_defs_of(key: SSGIPipelineKey, webgl2: bool) -> Seq<ShaderDef> {
    webgl2_defs_of(webgl2) + key_defs_of(key) + blue_noise_defs_of(CASCADE_BLUE_NOISE_GROUP_N)
        + seq![ShaderDef::Flag(ShaderDefName::DeferredPrepass)]
}

/// Shader definitions of the cascade tracer pipeline.
pub fn tracer_shader_defs(key: &SSGIPipelineKey, webgl2: bool) -> (r: Vec<ShaderDef>)
    ensures
        r@ == tracer_defs_of(*key, webgl2),
{
    let mut defs: Vec<ShaderDef> = Vec::new();
    if webgl2 {
        defs.push(ShaderDef::Flag(ShaderDefName::Webgl2));
        defs.push(ShaderDef::Flag(ShaderDefName::SixteenByteAlignment));
    }
    assert(defs@ =~= webgl2_defs_of(webgl2));
    key.shader_defs(&mut defs);
    push_blue_noise_defs(&mut defs, CASCADE_BLUE_NOISE_GROUP_N);
    defs.push(ShaderDef::Flag(ShaderDefName::DeferredPrepass));
    assert(defs@ =~= tracer_defs_of(*key, webgl2));
    defs
}

/// Definitions of the SH projection and of the resolve pass: the blue noise
/// bound under the cascade group, then the key's.
pub open spec fn temporal_defs_of(key: SSGIPipelineKey) -> Seq<ShaderDef> {
    blue_noise_defs_of(CASCADE_BLUE_NOISE_GROUP_N) + key_defs_of(key)
}

/// Shader definitions of the SH projection and resolve pipelines.
pub fn temporal_shader_defs(key: &SSGIPipelineKey) -> (r: Vec<ShaderDef>)
    ensures
        r@ == temporal_defs_of(*key),
{
    let mut defs: Vec<ShaderDef> = Vec::new();
    push_blue_noise_defs(&mut defs, CASCADE_BLUE_NOISE_GROUP_N);
    key.shader_defs(&mut defs);
    assert(defs@ =~= temporal_defs_of(*key));
    defs
}

} // verus!
