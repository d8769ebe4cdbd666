//! The textures that one view owns, derived from its viewport and settings,
//! and the formats that each pass writes.
use vstd::prelude::*;
use crate::cascade::{probe_grid, probe_grid_of, Extent};
use crate::settings::CascadeSettings;

verus! {

/// The texel formats that the pipeline's textures use.
#[derive(Clone, Copy, Debug, PartialEq, Eq, Hash, Structural)]
pub enum TexelFormat {
    /// Packed radiance of the cascades and of the projected directions.
    Rgba32Uint,
    /// Position records of the projected directions.
    Rgba32Float,
    /// Resolved indirect light and the copy of the frame's color.
    Rgba16Float,
    /// Downsampled depth.
    R32Float,
    /// Downsampled normals, two encoded channels.
    Rg16Unorm,
    /// Downsampled motion vectors; also the normals where `Rg16Unorm` cannot
    /// be rendered to.
    Rg16Float,
}

/// What a texture is allocated with.
#[derive(Clone, Copy, Debug, PartialEq, Eq, Hash, Structural)]
pub struct TextureSpec {
    pub extent: Extent,
    pub mip_level_count: u32,
    pub format: TexelFormat,
}

pub const CASCADE_FORMAT: TexelFormat = TexelFormat::Rgba32Uint;

pub const SH_DATA_FORMAT: TexelFormat = TexelFormat::Rgba32Uint;

pub const SH_POSITION_FORMAT: TexelFormat = TexelFormat::Rgba32Float;

pub const RESOLVE_FORMAT: TexelFormat = TexelFormat::Rgba16Float;

pub const FRAME_COLOR_FORMAT: TexelFormat = TexelFormat::Rgba16Float;

pub const DOWNSAMPLE_DEPTH_FORMAT: TexelFormat = TexelFormat::R32Float;

pub const DOWNSAMPLE_MOTION_FORMAT: TexelFormat = TexelFormat::Rg16Float;

pub open spec fn downsample_normals_format_of(webgl2: bool) -> TexelFormat {
    if webgl2 {
        TexelFormat::Rg16Float
    } else {
        TexelFormat::Rg16Unorm
    }
}

/// Format of the downsampled normals on the given backend.
pub fn downsample_normals_format(webgl2: bool) -> (r: TexelFormat)
    ensures
        r == downsample_normals_format_of(webgl2),
{
    if webgl2 {
        TexelFormat::Rg16Float
    } else {
        TexelFormat::Rg16Unorm
    }
}

/// Each of the two atlases of a cascade level.
pub fn cascade_texture(atlas: Extent) -> (r: TextureSpec)
    ensures
        r == (TextureSpec { extent: atlas, mip_level_count: 1, format: CASCADE_FORMAT }),
{
    TextureSpec { extent: atlas, mip_level_count: 1, format: CASCADE_FORMAT }
}

/// The textures of the SH projection: each buffer of the directional pair and
/// each buffer of the position pair, on the probe grid of level 0.
#[derive(Clone, Copy, Debug, PartialEq, Eq, Structural)]
pub struct ShTextureSpecs {
    pub data: TextureSpec,
    pub position: TextureSpec,
}

pub fn sh_textures(settings: &CascadeSettings, viewport: Extent) -> (r: ShTextureSpecs)
    requires
        settings.wf(),
    ensures
        r.data == (TextureSpec {
            extent: probe_grid_of(viewport, settings.render_scale),
            mip_level_count: 1,
            format: SH_DATA_FORMAT,
        }),
        r.position == (TextureSpec {
            extent: probe_grid_of(viewport, settings.render_scale),
            mip_level_count: 1,
            format: SH_POSITION_FORMAT,
        }),
{
    let grid = probe_grid(viewport, settings.render_scale);
    ShTextureSpecs {
        data: TextureSpec { extent: grid, mip_level_count: 1, format: SH_DATA_FORMAT },
        position: TextureSpec { extent: grid, mip_level_count: 1, format: SH_POSITION_FORMAT },
    }
}

/// Each buffer of the resolved pair, at full resolution.
pub fn resolve_texture(viewport: Extent) -> (r: TextureSpec)
    ensures
        r == (TextureSpec { extent: viewport, mip_level_count: 1, format: RESOLVE_FORMAT }),
{
    TextureSpec { extent: viewport, mip_level_count: 1, format: RESOLVE_FORMAT }
}

/// The copy of the frame's color, with its mip chain.
pub fn frame_color_texture(viewport: Extent, mip_levels: u8) -> (r: TextureSpec)
    ensures
        r == (TextureSpec {
            extent: viewport,
            mip_level_count: mip_levels as u32,
            format: FRAME_COLOR_FORMAT,
        }),
{
    TextureSpec { extent: viewport, mip_level_count: mip_levels as u32, format: FRAME_COLOR_FORMAT }
}

/// The textures of the prepass downsampler: the depth (of which there are two,
/// for the current frame and the previous one), the normals and the motion
/// vectors, with `mip_levels` mips at full resolution; and the relay of each,
/// with one mip.
#[derive(Clone, Copy, Debug, PartialEq, Eq, Structural)]
pub struct PrepassTextureSpecs {
    pub depth: TextureSpec,
    pub normals: TextureSpec,
    pub motion: TextureSpec,
    pub relay_depth: TextureSpec,
    pub relay_normals: TextureSpec,
    pub relay_motion: TextureSpec,
}

pub fn prepass_textures(viewport: Extent, mip_levels: u8, webgl2: bool) -> (r: PrepassTextureSpecs)
    ensures
        r.depth == (TextureSpec {
            extent: viewport,
            mip_level_count: mip_levels as u32,
            format: DOWNSAMPLE_DEPTH_FORMAT,
        }),
        r.normals == (TextureSpec {
            extent: viewport,
            mip_level_count: mip_levels as u32,
            format: downsample_normals_format_of(webgl2),
        }),
        r.motion == (TextureSpec {
            extent: viewport,
            mip_level_count: mip_levels as u32,
            format: DOWNSAMPLE_MOTION_FORMAT,
        }),
        r.relay_depth == (TextureSpec { mip_level_count: 1, ..r.depth }),
        r.relay_normals == (TextureSpec { mip_level_count: 1, ..r.normals }),
        r.relay_motion == (TextureSpec { mip_level_count: 1, ..r.motion }),
{
    let mips = mip_levels as u32;
    let normals_format = downsample_normals_format(webgl2);
    let depth = TextureSpec { extent: viewport, mip_level_count: mips, format: DOWNSAMPLE_DEPTH_FORMAT };
    let normals = TextureSpec { extent: viewport, mip_level_count: mips, format: normals_format };
    let motion = TextureSpec { extent: viewport, mip_level_count: mips, format: DOWNSAMPLE_MOTION_FORMAT };
    PrepassTextureSpecs {
        depth,
        normals,
        motion,
        relay_depth: TextureSpec { mip_level_count: 1, ..depth },
        relay_normals: TextureSpec { mip_level_count: 1, ..normals },
        relay_motion: TextureSpec { mip_level_count: 1, ..motion },
    }
}

/// The passes whose outputs are textures of the pipeline.
#[derive(Clone, Copy, Debug, PartialEq, Eq, Hash, Structural)]
pub enum Pass {
    /// Converts the prepass outputs into mip 0 of the downsampled buffers.
    PrepassConvert,
    /// Draws one mip of the downsampled buffers from another.
    PrepassDownsample,
    /// Traces one cascade level.
    TraceCascade,
    /// Projects level 0 into the directional basis.
    ProjectSh,
    /// Resolves the probes to full resolution.
    Resolve,
    /// Draws one mip of the frame's color copy.
    CopyFrame,
}

/// The formats of the color targets of a pass, in attachment order.
pub open spec fn target_formats_of(pass: Pass, webgl2: bool) -> Seq<TexelFormat> {
    match pass {
        Pass::PrepassConvert | Pass::PrepassDownsample => seq![
            DOWNSAMPLE_DEPTH_FORMAT,
            downsample_normals_format_of(webgl2),
            DOWNSAMPLE_MOTION_FORMAT,
        ],
        Pass::TraceCascade => seq![CASCADE_FORMAT, CASCADE_FORMAT],
        Pass::ProjectSh => seq![SH_DATA_FORMAT, SH_POSITION_FORMAT],
        Pass::Resolve => seq![RESOLVE_FORMAT],
        Pass::CopyFrame => seq![FRAME_COLOR_FORMAT],
    }
}

/// The formats of the color targets of a pass's pipeline, in attachment order.
pub fn target_formats(pass: Pass, webgl2: bool) -> (r: Vec<TexelFormat>)
    ensures
        r@ == target_formats_of(pass, webgl2),
{
    let v: Vec<TexelFormat> = match pass {
        Pass::PrepassConvert | Pass::PrepassDownsample => vec![
            DOWNSAMPLE_DEPTH_FORMAT,
            downsample_normals_format(webgl2),
            DOWNSAMPLE_MOTION_FORMAT,
        ],
        Pass::TraceCascade => vec![CASCADE_FORMAT, CASCADE_FORMAT],
        Pass::ProjectSh => vec![SH_DATA_FORMAT, SH_POSITION_FORMAT],
        Pass::Resolve => vec![RESOLVE_FORMAT],
        Pass::CopyFrame => vec![FRAME_COLOR_FORMAT],
    };
    assert(v@ =~= target_formats_of(pass, webgl2));
    v
}

} // verus!
