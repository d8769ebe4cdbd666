//! Shader definitions handed to the pipeline compiler, as plain values.
use vstd::prelude::*;

verus! {

/// Group index under which the passes of the radiance-cascade pipeline bind the
/// blue-noise texture.
pub const CASCADE_BLUE_NOISE_GROUP_N: u32 = 0;

/// Group index under which the lighting composer binds the blue-noise texture.
pub const BLUE_NOISE_GROUP_N: u32 = 1;

/// Binding index of the blue-noise texture array.
pub const BLUE_NOISE_ENTRY_N: u32 = 31;

/// Width and height of each layer of the blue-noise texture array.
pub const BLUE_NOISE_DIMS: u32 = 64;

/// The names of the shader definitions that the pipelines use.
#[derive(Clone, Copy, Debug, PartialEq, Eq, Hash, Structural)]
pub enum ShaderDefName {
    Webgl2,
    SixteenByteAlignment,
    NoiseFramePeriod,
    JitterProbePosition,
    JitterProbeDirection,
    BlueNoiseGroupN,
    BlueNoiseEntryN,
    BlueNoiseDims,
    DeferredPrepass,
    DeferredLightingPipeline,
    TonemapInShader,
    TonemapMethodNone,
    TonemapMethodReinhard,
    TonemapMethodReinhardLuminance,
    TonemapMethodAcesFitted,
    TonemapMethodAgx,
    TonemapMethodSomewhatBoringDisplayTransform,
    TonemapMethodBlenderFilmic,
    TonemapMethodTonyMcMapface,
    DebandDither,
    ScreenSpaceAmbientOcclusion,
    EnvironmentMap,
    NormalPrepass,
    DepthPrepass,
    MotionVectorPrepass,
    ShadowFilterMethodHardware2x2,
    ShadowFilterMethodCastano13,
    ShadowFilterMethodJimenez14,
}

/// The identifier under which a definition appears in shader source.
pub open spec fn name_text(n: ShaderDefName) -> Seq<char> {
    match n {
        ShaderDefName::Webgl2 => "WEBGL2"@,
        ShaderDefName::SixteenByteAlignment => "SIXTEEN_BYTE_ALIGNMENT"@,
        ShaderDefName::NoiseFramePeriod => "NOISE_FRAME_PERIOD"@,
        ShaderDefName::JitterProbePosition => "JITTER_PROBE_POSITION"@,
        ShaderDefName::JitterProbeDirection => "JITTER_PROBE_DIRECTION"@,
        ShaderDefName::BlueNoiseGroupN => "BLUE_NOISE_GROUP_N"@,
        ShaderDefName::BlueNoiseEntryN => "BLUE_NOISE_ENTRY_N"@,
        ShaderDefName::BlueNoiseDims => "BLUE_NOISE_DIMS"@,
        ShaderDefName::DeferredPrepass => "DEFERRED_PREPASS"@,
        ShaderDefName::DeferredLightingPipeline => "DEFERRED_LIGHTING_PIPELINE"@,
        ShaderDefName::TonemapInShader => "TONEMAP_IN_SHADER"@,
        ShaderDefName::TonemapMethodNone => "TONEMAP_METHOD_NONE"@,
        ShaderDefName::TonemapMethodReinhard => "TONEMAP_METHOD_REINHARD"@,
        ShaderDefName::TonemapMethodReinhardLuminance => "TONEMAP_METHOD_REINHARD_LUMINANCE"@,
        ShaderDefName::TonemapMethodAcesFitted => "TONEMAP_METHOD_ACES_FITTED "@,
        ShaderDefName::TonemapMethodAgx => "TONEMAP_METHOD_AGX"@,
        ShaderDefName::TonemapMethodSomewhatBoringDisplayTransform =>
            "TONEMAP_METHOD_SOMEWHAT_BORING_DISPLAY_TRANSFORM"@,
        ShaderDefName::TonemapMethodBlenderFilmic => "TONEMAP_METHOD_BLENDER_FILMIC"@,
        ShaderDefName::TonemapMethodTonyMcMapface => "TONEMAP_METHOD_TONY_MC_MAPFACE"@,
        ShaderDefName::DebandDither => "DEBAND_DITHER"@,
        ShaderDefName::ScreenSpaceAmbientOcclusion => "SCREEN_SPACE_AMBIENT_OCCLUSION"@,
        ShaderDefName::EnvironmentMap => "ENVIRONMENT_MAP"@,
        ShaderDefName::NormalPrepass => "NORMAL_PREPASS"@,
        ShaderDefName::DepthPrepass => "DEPTH_PREPASS"@,
        ShaderDefName::MotionVectorPrepass => "MOTION_VECTOR_PREPASS"@,
        ShaderDefName::ShadowFilterMethodHardware2x2 => "SHADOW_FILTER_METHOD_HARDWARE_2X2"@,
        ShaderDefName::ShadowFilterMethodCastano13 => "SHADOW_FILTER_METHOD_CASTANO_13"@,
        ShaderDefName::ShadowFilterMethodJimenez14 => "SHADOW_FILTER_METHOD_JIMENEZ_14"@,
    }
}

impl ShaderDefName {
    /// The identifier under which this definition appears in shader source.
    pub fn as_str(&self) -> (r: &'static str)
        ensures
            r@ == name_text(*self),
    {
        match self {
            ShaderDefName::Webgl2 => "WEBGL2",
            ShaderDefName::SixteenByteAlignment => "SIXTEEN_BYTE_ALIGNMENT",
            ShaderDefName::NoiseFramePeriod => "NOISE_FRAME_PERIOD",
            ShaderDefName::JitterProbePosition => "JITTER_PROBE_POSITION",
            ShaderDefName::JitterProbeDirection => "JITTER_PROBE_DIRECTION",
            ShaderDefName::BlueNoiseGroupN => "BLUE_NOISE_GROUP_N",
            ShaderDefName::BlueNoiseEntryN => "BLUE_NOISE_ENTRY_N",
            ShaderDefName::BlueNoiseDims => "BLUE_NOISE_DIMS",
            ShaderDefName::DeferredPrepass => "DEFERRED_PREPASS",
            ShaderDefName::DeferredLightingPipeline => "DEFERRED_LIGHTING_PIPELINE",
            ShaderDefName::TonemapInShader => "TONEMAP_IN_SHADER",
            ShaderDefName::TonemapMethodNone => "TONEMAP_METHOD_NONE",
            ShaderDefName::TonemapMethodReinhard => "TONEMAP_METHOD_REINHARD",
            ShaderDefName::TonemapMethodReinhardLuminance => "TONEMAP_METHOD_REINHARD_LUMINANCE",
            ShaderDefName::TonemapMethodAcesFitted => "TONEMAP_METHOD_ACES_FITTED ",
            ShaderDefName::TonemapMethodAgx => "TONEMAP_METHOD_AGX",
            ShaderDefName::TonemapMethodSomewhatBoringDisplayTransform =>
                "TONEMAP_METHOD_SOMEWHAT_BORING_DISPLAY_TRANSFORM",
            ShaderDefName::TonemapMethodBlenderFilmic => "TONEMAP_METHOD_BLENDER_FILMIC",
            ShaderDefName::TonemapMethodTonyMcMapface => "TONEMAP_METHOD_TONY_MC_MAPFACE",
            ShaderDefName::DebandDither => "DEBAND_DITHER",
            ShaderDefName::ScreenSpaceAmbientOcclusion => "SCREEN_SPACE_AMBIENT_OCCLUSION",
            ShaderDefName::EnvironmentMap => "ENVIRONMENT_MAP",
            ShaderDefName::NormalPrepass => "NORMAL_PREPASS",
            ShaderDefName::DepthPrepass => "DEPTH_PREPASS",
            ShaderDefName::MotionVectorPrepass => "MOTION_VECTOR_PREPASS",
            ShaderDefName::ShadowFilterMethodHardware2x2 => "SHADOW_FILTER_METHOD_HARDWARE_2X2",
            ShaderDefName::ShadowFilterMethodCastano13 => "SHADOW_FILTER_METHOD_CASTANO_13",
            ShaderDefName::ShadowFilterMethodJimenez14 => "SHADOW_FILTER_METHOD_JIMENEZ_14",
        }
    }
}

/// A shader definition: a bare flag, or a name bound to an unsigned value.
#[derive(Clone, Copy, Debug, PartialEq, Eq, Hash, Structural)]
pub enum ShaderDef {
    Flag(ShaderDefName),
    UInt(ShaderDefName, u32),
}

/// The blue-noise definitions, with the texture bound under `group`.
pub open spec fn blue_noise_defs_of(group: u32) -> Seq<ShaderDef> {
    seq![
        ShaderDef::UInt(ShaderDefName::BlueNoiseGroupN, group),
        ShaderDef::UInt(ShaderDefName::BlueNoiseEntryN, BLUE_NOISE_ENTRY_N),
        ShaderDef::UInt(ShaderDefName::BlueNoiseDims, BLUE_NOISE_DIMS),
    ]
}

/// Appends the blue-noise definitions for a texture bound under `group`.
pub fn push_blue_noise_defs(defs: &mut Vec<ShaderDef>, group: u32)
    ensures
        final(defs)@ == old(defs)@ + blue_noise_defs_of(group),
{
    defs.push(ShaderDef::UInt(ShaderDefName::BlueNoiseGroupN, group));
    defs.push(ShaderDef::UInt(ShaderDefName::BlueNoiseEntryN, BLUE_NOISE_ENTRY_N));
    defs.push(ShaderDef::UInt(ShaderDefName::BlueNoiseDims, BLUE_NOISE_DIMS));
    assert(defs@ =~= old(defs)@ + blue_noise_defs_of(group));
}

/// The definitions that a backend which cannot read and write one texture at
/// the same time adds to a pass that reads a uniform buffer.
pub open spec fn webgl2_defs_of(webgl2: bool) -> Seq<ShaderDef> {
    if webgl2 {
        seq![
            ShaderDef::Flag(ShaderDefName::Webgl2),
            ShaderDef::Flag(ShaderDefName::SixteenByteAlignment),
        ]
    } else {
        seq![]
    }
}

/// The definitions of the pass that converts the prepass outputs into the
/// downsampler's formats.
pub open spec fn convert_defs_of(webgl2: bool) -> Seq<ShaderDef> {
    if webgl2 {
        seq![ShaderDef::Flag(ShaderDefName::Webgl2)]
    } else {
        seq![]
    }
}

/// Shader definitions of the prepass conversion pass.
pub fn convert_shader_defs(webgl2: bool) -> (r: Vec<ShaderDef>)
    ensures
        r@ == convert_defs_of(webgl2),
{
    let mut defs: Vec<ShaderDef> = Vec::new();
    if webgl2 {
        defs.push(ShaderDef::Flag(ShaderDefName::Webgl2));
    }
    assert(defs@ =~= convert_defs_of(webgl2));
    defs
}

} // verus!
