use bevy_ssgi::cascade::Extent;
use bevy_ssgi::settings::CascadeSettings;
use bevy_ssgi::textures::{
    cascade_texture, downsample_normals_format, frame_color_texture, prepass_textures,
    resolve_texture, sh_textures, target_formats, Pass, TexelFormat, TextureSpec,
};

const VIEWPORT: Extent = Extent { width: 1920, height: 1080 };

#[test]
fn sh_textures_on_probe_grid() {
    let specs = sh_textures(&CascadeSettings::default(), VIEWPORT);
    let grid = Extent { width: 480, height: 270 };
    assert_eq!(specs.data, TextureSpec { extent: grid, mip_level_count: 1, format: TexelFormat::Rgba32Uint });
    assert_eq!(specs.position, TextureSpec { extent: grid, mip_level_count: 1, format: TexelFormat::Rgba32Float });
}

#[test]
fn resolve_and_color_at_full_resolution() {
    assert_eq!(
        resolve_texture(VIEWPORT),
        TextureSpec { extent: VIEWPORT, mip_level_count: 1, format: TexelFormat::Rgba16Float }
    );
    assert_eq!(
        frame_color_texture(VIEWPORT, 5),
        TextureSpec { extent: VIEWPORT, mip_level_count: 5, format: TexelFormat::Rgba16Float }
    );
}

#[test]
fn prepass_textures_per_backend() {
    let direct = prepass_textures(VIEWPORT, 5, false);
    assert_eq!(direct.depth.format, TexelFormat::R32Float);
    assert_eq!(direct.normals.format, TexelFormat::Rg16Unorm);
    assert_eq!(direct.motion.format, TexelFormat::Rg16Float);
    assert_eq!(direct.depth.mip_level_count, 5);
    assert_eq!(direct.relay_normals.mip_level_count, 1);
    assert_eq!(direct.relay_normals.format, TexelFormat::Rg16Unorm);
    let gl = prepass_textures(VIEWPORT, 3, true);
    assert_eq!(gl.normals.format, TexelFormat::Rg16Float);
    assert_eq!(gl.motion.extent, VIEWPORT);
    assert_eq!(downsample_normals_format(true), TexelFormat::Rg16Float);
}

#[test]
fn passes_target_their_textures_formats() {
    let prepass = prepass_textures(VIEWPORT, 5, false);
    assert_eq!(
        target_formats(Pass::PrepassConvert, false),
        vec![prepass.depth.format, prepass.normals.format, prepass.motion.format]
    );
    assert_eq!(target_formats(Pass::PrepassDownsample, false), target_formats(Pass::PrepassConvert, false));
    let atlas = cascade_texture(Extent { width: 1920, height: 1080 });
    assert_eq!(target_formats(Pass::TraceCascade, false), vec![atlas.format, atlas.format]);
    let sh = sh_textures(&CascadeSettings::default(), VIEWPORT);
    assert_eq!(target_formats(Pass::ProjectSh, true), vec![sh.data.format, sh.position.format]);
    assert_eq!(target_formats(Pass::Resolve, false), vec![resolve_texture(VIEWPORT).format]);
    assert_eq!(target_formats(Pass::CopyFrame, false), vec![frame_color_texture(VIEWPORT, 5).format]);
}
