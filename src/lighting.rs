//! The lighting composer's pipeline key and shader definitions, and the id
//! that selects which materials a deferred lighting pass shades.
use vstd::prelude::*;
use crate::shader_defs::{
    blue_noise_defs_of, push_blue_noise_defs, ShaderDef, ShaderDefName, BLUE_NOISE_GROUP_N,
};

verus! {

/// The depth id of the default deferred lighting pass.
pub const DEFAULT_PBR_DEFERRED_LIGHTING_PASS_ID: u8 = 1;

/// Selects which materials a deferred lighting pass shades: those written with
/// the same id.
#[derive(Clone, Copy, Debug)]
pub struct PbrDeferredLightingDepthId {
    depth_id: u32,
}

impl View for PbrDeferredLightingDepthId {
    type V = u8;

    closed spec fn view(&self) -> u8 {
        self.depth_id as u8
    }
}

impl PbrDeferredLightingDepthId {
    pub fn new(value: u8) -> (r: PbrDeferredLightingDepthId)
        ensures
            r@ == value,
    {
        PbrDeferredLightingDepthId { depth_id: value as u32 }
    }

    pub fn set(&mut self, value: u8)
        ensures
            final(self)@ == value,
    {
        self.depth_id = value as u32;
    }

    pub fn get(&self) -> (r: u8)
        ensures
            r == self@,
    {
        self.depth_id as u8
    }
}

impl Default for PbrDeferredLightingDepthId {
    fn default() -> (r: Self)
        ensures
            r@ == DEFAULT_PBR_DEFERRED_LIGHTING_PASS_ID,
    {
        PbrDeferredLightingDepthId { depth_id: DEFAULT_PBR_DEFERRED_LIGHTING_PASS_ID as u32 }
    }
}

/// Tonemapping operators that the composer can apply in its shader.
#[derive(Clone, Copy, Debug, PartialEq, Eq, Hash, Structural)]
pub enum Tonemapping {
    Passthrough,
    Reinhard,
    ReinhardLuminance,
    AcesFitted,
    AgX,
    SomewhatBoringDisplayTransform,
    TonyMcMapface,
    BlenderFilmic,
}

/// Shadow filtering methods.
#[derive(Clone, Copy, Debug, PartialEq, Eq, Hash, Structural)]
pub enum ShadowFilter {
    Hardware2x2,
    Castano13,
    Jimenez14,
}

/// What the composer learns of a view: its target, the prepasses it has, its
/// tonemapping and dithering, and the effects enabled on it.
#[derive(Clone, Copy, Debug)]
pub struct LightingViewState {
    pub hdr: bool,
    pub tonemapping: Option<Tonemapping>,
    pub deband_dither: bool,
    pub ssao: bool,
    pub normal_prepass: bool,
    pub depth_prepass: bool,
    pub motion_vector_prepass: bool,
    pub environment_map: bool,
    pub irradiance_volume: bool,
    pub shadow_filter: ShadowFilter,
}

/// Selects one specialisation of the composer's pipeline.
#[derive(Clone, Copy, Debug, PartialEq, Eq, Hash)]
pub struct LightingKey {
    pub hdr: bool,
    pub normal_prepass: bool,
    pub depth_prepass: bool,
    pub motion_vector_prepass: bool,
    pub deferred_prepass: bool,
    /// The operator applied in the shader, if tonemapping happens there.
    pub tonemap_in_shader: Option<Tonemapping>,
    pub deband_dither: bool,
    pub ssao: bool,
    pub environment_map: bool,
    pub irradiance_volume: bool,
    pub shadow_filter: ShadowFilter,
}

/// The key of a view. Tonemapping and dithering happen in the composer only on
/// a view that does not render to an HDR target; the deferred prepass is always
/// there.
pub open spec fn lighting_view_key_of(s: LightingViewState) -> LightingKey {
    LightingKey {
        hdr: s.hdr,
        normal_prepass: s.normal_prepass,
        depth_prepass: s.depth_prepass,
        motion_vector_prepass: s.motion_vector_prepass,
        deferred_prepass: true,
        tonemap_in_shader: if s.hdr {
            None
        } else {
            s.tonemapping
        },
        deband_dither: !s.hdr && s.deband_dither,
        ssao: s.ssao,
        environment_map: s.environment_map,
        irradiance_volume: s.irradiance_volume,
        shadow_filter: s.shadow_filter,
    }
}

/// The composer's pipeline key for a view.
pub fn lighting_view_key(state: &LightingViewState) -> (r: LightingKey)
    ensures
        r == lighting_view_key_of(*state),
{
    let tonemap_in_shader = if state.hdr {
        None
    } else {
        state.tonemapping
    };
    LightingKey {
        hdr: state.hdr,
        normal_prepass: state.normal_prepass,
        depth_prepass: state.depth_prepass,
        motion_vector_prepass: state.motion_vector_prepass,
        deferred_prepass: true,
        tonemap_in_shader,
        deband_dither: !state.hdr && state.deband_dither,
        ssao: state.ssao,
        environment_map: state.environment_map,
        irradiance_volume: state.irradiance_volume,
        shadow_filter: state.shadow_filter,
    }
}

pub open spec fn tonemap_def_name_of(t: Tonemapping) -> ShaderDefName {
    match t {
        Tonemapping::Passthrough => ShaderDefName::TonemapMethodNone,
        Tonemapping::Reinhard => ShaderDefName::TonemapMethodReinhard,
        Tonemapping::ReinhardLuminance => ShaderDefName::TonemapMethodReinhardLuminance,
        Tonemapping::AcesFitted => ShaderDefName::TonemapMethodAcesFitted,
        Tonemapping::AgX => ShaderDefName::TonemapMethodAgx,
        Tonemapping::SomewhatBoringDisplayTransform =>
            ShaderDefName::TonemapMethodSomewhatBoringDisplayTransform,
        Tonemapping::TonyMcMapface => ShaderDefName::TonemapMethodTonyMcMapface,
        Tonemapping::BlenderFilmic => ShaderDefName::TonemapMethodBlenderFilmic,
    }
}

/// The definition that selects a tonemapping operator.
pub fn tonemap_def_name(t: Tonemapping) -> (r: ShaderDefName)
    ensures
        r == tonemap_def_name_of(t),
{
    match t {
        Tonemapping::Passthrough => ShaderDefName::TonemapMethodNone,
        Tonemapping::Reinhard => ShaderDefName::TonemapMethodReinhard,
        Tonemapping::ReinhardLuminance => ShaderDefName::TonemapMethodReinhardLuminance,
        Tonemapping::AcesFitted => ShaderDefName::TonemapMethodAcesFitted,
        Tonemapping::AgX => ShaderDefName::TonemapMethodAgx,
        Tonemapping::SomewhatBoringDisplayTransform =>
            ShaderDefName::TonemapMethodSomewhatBoringDisplayTransform,
        Tonemapping::TonyMcMapface => ShaderDefName::TonemapMethodTonyMcMapface,
        Tonemapping::BlenderFilmic => ShaderDefName::TonemapMethodBlenderFilmic,
    }
}

pub open spec fn shadow_filter_def_name_of(f: ShadowFilter) -> ShaderDefName {
    match f {
        ShadowFilter::Hardware2x2 => ShaderDefName::ShadowFilterMethodHardware2x2,
        ShadowFilter::Castano13 => ShaderDefName::ShadowFilterMethodCastano13,
        ShadowFilter::Jimenez14 => ShaderDefName::ShadowFilterMethodJimenez14,
    }
}

/// `[Flag(name)]` where `b` holds, else nothing.
pub open spec fn flag_if(b: bool, name: ShaderDefName) -> Seq<ShaderDef> {
    if b {
        seq![ShaderDef::Flag(name)]
    } else {
        seq![]
    }
}

/// The tonemapping definitions: the in-shader flag, the operator, and the
/// dithering flag, which only tonemapping in the shader can carry.
pub open spec fn tonemap_defs_of(key: LightingKey) -> Seq<ShaderDef> {
    match key.tonemap_in_shader {
        Some(t) => seq![
            ShaderDef::Flag(ShaderDefName::TonemapInShader),
            ShaderDef::Flag(tonemap_def_name_of(t)),
        ] + flag_if(key.deband_dither, ShaderDefName::DebandDither),
        None => seq![],
    }
}

/// The composer's definitions, in order.
pub open spec fn lighting_defs_of(key: LightingKey, webgl2: bool) -> Seq<ShaderDef> {
    seq![ShaderDef::Flag(ShaderDefName::DeferredLightingPipeline)] + flag_if(
        webgl2,
        ShaderDefName::Webgl2,
    ) + tonemap_defs_of(key) + flag_if(key.ssao, ShaderDefName::ScreenSpaceAmbientOcclusion)
        + flag_if(key.environment_map, ShaderDefName::EnvironmentMap) + flag_if(
        key.normal_prepass,
        ShaderDefName::NormalPrepass,
    ) + flag_if(key.depth_prepass, ShaderDefName::DepthPrepass) + flag_if(
        key.motion_vector_prepass,
        ShaderDefName::MotionVectorPrepass,
    ) + seq![ShaderDef::Flag(ShaderDefName::DeferredPrepass)] + seq![
        ShaderDef::Flag(shadow_filter_def_name_of(key.shadow_filter)),
    ] + flag_if(webgl2, ShaderDefName::SixteenByteAlignment) + blue_noise_defs_of(
        BLUE_NOISE_GROUP_N,
    )
}

/// Appends `Flag(name)` where `b` holds.
fn push_flag_if(defs: &mut Vec<ShaderDef>, b: bool, name: ShaderDefName)
    ensures
        final(defs)@ == old(defs)@ + flag_if(b, name),
{
    if b {
        defs.push(ShaderDef::Flag(name));
    }
    assert(defs@ =~= old(defs)@ + flag_if(b, name));
}

/// Appends `def`.
fn push_def(defs: &mut Vec<ShaderDef>, def: ShaderDef)
    ensures
        final(defs)@ == old(defs)@ + seq![def],
{
    defs.push(def);
    assert(defs@ =~= old(defs)@ + seq![def]);
}

/// Appends the tonemapping definitions of `key`.
fn push_tonemap_defs(defs: &mut Vec<ShaderDef>, key: &LightingKey)
    ensures
        final(defs)@ == old(defs)@ + tonemap_defs_of(*key),
{
    match key.tonemap_in_shader {
        Some(t) => {
            defs.push(ShaderDef::Flag(ShaderDefName::TonemapInShader));
            defs.push(ShaderDef::Flag(tonemap_def_name(t)));
            push_flag_if(defs, key.deband_dither, ShaderDefName::DebandDither);
        },
        None => {},
    }
    assert(defs@ =~= old(defs)@ + tonemap_defs_of(*key));
}

/// Shader definitions of the composer's pipeline.
pub fn lighting_shader_defs(key: &LightingKey, webgl2: bool) -> (r: Vec<ShaderDef>)
    ensures
        r@ == lighting_defs_of(*key, webgl2),
{
    let mut defs: Vec<ShaderDef> = Vec::new();
    push_def(&mut defs, ShaderDef::Flag(ShaderDefName::DeferredLightingPipeline));
    assert(defs@ =~= seq![ShaderDef::Flag(ShaderDefName::DeferredLightingPipeline)]);
    push_flag_if(&mut defs, webgl2, ShaderDefName::Webgl2);
    push_tonemap_defs(&mut defs, key);
    push_flag_if(&mut defs, key.ssao, ShaderDefName::ScreenSpaceAmbientOcclusion);
    push_flag_if(&mut defs, key.environment_map, ShaderDefName::EnvironmentMap);
    push_flag_if(&mut defs, key.normal_prepass, ShaderDefName::NormalPrepass);
    push_flag_if(&mut defs, key.depth_prepass, ShaderDefName::DepthPrepass);
    push_flag_if(&mut defs, key.motion_vector_prepass, ShaderDefName::MotionVectorPrepass);
    push_def(&mut defs, ShaderDef::Flag(ShaderDefName::DeferredPrepass));
    let shadow = match key.shadow_filter {
        ShadowFilter::Hardware2x2 => ShaderDefName::ShadowFilterMethodHardware2x2,
        ShadowFilter::Castano13 => ShaderDefName::ShadowFilterMethodCastano13,
        ShadowFilter::Jimenez14 => ShaderDefName::ShadowFilterMethodJimenez14,
    };
    push_def(&mut defs, ShaderDef::Flag(shadow));
    push_flag_if(&mut defs, webgl2, ShaderDefName::SixteenByteAlignment);
    push_blue_noise_defs(&mut defs, BLUE_NOISE_GROUP_N);
    defs
}

/// The format of the composer's color target.
#[derive(Clone, Copy, Debug, PartialEq, Eq, Hash, Structural)]
pub enum LightingTargetFormat {
    /// The view's HDR format.
    Hdr,
    /// The platform's default format.
    Standard,
}

/// The composer writes in HDR exactly when the view's target is HDR.
pub fn lighting_target_format(key: &LightingKey) -> (r: LightingTargetFormat)
    ensures
        r == (if key.hdr {
            LightingTargetFormat::Hdr
        } else {
            LightingTargetFormat::Standard
        }),
{
    if key.hdr {
        LightingTargetFormat::Hdr
    } else {
        LightingTargetFormat::Standard
    }
}

} // verus!
