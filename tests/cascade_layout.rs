use bevy_ssgi::cascade::{
    atlas_extent, cascade_atlas_extents, cascade_passes, flag_to_u32, level_config,
    level_directions, level_scale, merge_source, probe_grid, probe_grid_config, step_divisor,
    CascadeLevelConfig, Extent, ProbeGridConfig,
};
use bevy_ssgi::settings::CascadeSettings;

fn settings(render_scale: u32, cascade_0_directions: u32, cascade_count: u32) -> CascadeSettings {
    CascadeSettings {
        render_scale,
        cascade_0_directions,
        cascade_count,
        ..CascadeSettings::default()
    }
}

#[test]
fn end_to_end_atlas_sizes_1080p() {
    let s = settings(4, 16, 6);
    let viewport = Extent { width: 1920, height: 1080 };
    let extents = cascade_atlas_extents(&s, viewport);
    assert_eq!(extents.len(), 6);
    // (1920 / 4) * 4 = 1920 and (1080 / 4) * 16 / 4 = 1080.
    assert_eq!(extents[0], Extent { width: 1920, height: 1080 });
    // (480 / 32) * 4 = 60; 270 / 32 floors to 8 probes, and 8 * 512 / 4 = 1024.
    assert_eq!(extents[5], Extent { width: 60, height: 1024 });
}

#[test]
fn every_level_matches_the_formula() {
    let s = settings(4, 16, 6);
    let viewport = Extent { width: 1920, height: 1080 };
    let extents = cascade_atlas_extents(&s, viewport);
    let (w0, h0) = (1920 / 4, 1080 / 4);
    for n in 0..6u32 {
        let scale = 1u32 << n;
        let directions = 16 * scale;
        assert_eq!(level_directions(16, n), directions);
        assert_eq!(extents[n as usize].width, ((w0 / scale) * 4).max(1));
        assert_eq!(extents[n as usize].height, ((h0 / scale) * directions / 4).max(1));
    }
}

#[test]
fn level_scale_and_directions_double() {
    assert_eq!(level_scale(0), 1);
    assert_eq!(level_scale(3), 8);
    assert_eq!(level_scale(7), 128);
    assert_eq!(level_directions(4, 0), 4);
    assert_eq!(level_directions(4, 1), 8);
    assert_eq!(level_directions(32, 7), 4096);
}

#[test]
fn probe_grid_divides_viewport() {
    assert_eq!(probe_grid(Extent { width: 1920, height: 1080 }, 4), Extent { width: 480, height: 270 });
    assert_eq!(probe_grid(Extent { width: 1921, height: 7 }, 2), Extent { width: 960, height: 3 });
}

#[test]
fn tiny_viewport_keeps_one_texel() {
    let s = settings(4, 16, 3);
    let extents = cascade_atlas_extents(&s, Extent { width: 3, height: 3 });
    for e in &extents {
        assert_eq!(*e, Extent { width: 1, height: 1 });
    }
    assert_eq!(atlas_extent(Extent { width: 1, height: 1 }, 4, 0), Extent { width: 4, height: 1 });
}

#[test]
fn minimum_cascade_count_plan() {
    let s = settings(4, 16, 2);
    let viewport = Extent { width: 1280, height: 720 };
    let extents = cascade_atlas_extents(&s, viewport);
    assert_eq!(extents.len(), 2);
    let passes = cascade_passes(&s, &extents);
    assert_eq!(passes.len(), 2);
    assert_eq!(passes[0].level, 1);
    assert_eq!(passes[0].merge_from, 0);
    assert_eq!(passes[1].level, 0);
    assert_eq!(passes[1].merge_from, 1);
}

#[test]
fn maximum_cascade_count_plan() {
    let s = settings(2, 32, 8);
    let viewport = Extent { width: 2560, height: 1440 };
    let extents = cascade_atlas_extents(&s, viewport);
    assert_eq!(extents.len(), 8);
    assert_eq!(extents[7], Extent { width: 40, height: 5120 });
    let passes = cascade_passes(&s, &extents);
    let levels: Vec<u32> = passes.iter().map(|p| p.level).collect();
    assert_eq!(levels, vec![7, 6, 5, 4, 3, 2, 1, 0]);
    let sources: Vec<u32> = passes.iter().map(|p| p.merge_from).collect();
    assert_eq!(sources, vec![0, 7, 6, 5, 4, 3, 2, 1]);
    assert_eq!(passes[0].config.directions, 32 * 128);
    assert_eq!(passes[0].config.render_scale, 2 * 128);
}

#[test]
fn merge_source_placeholder_at_top() {
    assert_eq!(merge_source(0, 6), 1);
    assert_eq!(merge_source(4, 6), 5);
    assert_eq!(merge_source(5, 6), 0);
    assert_eq!(merge_source(1, 2), 0);
}

#[test]
fn level_config_fields() {
    let mut s = settings(4, 16, 6);
    s.square_falloff = true;
    s.divide_steps_by_square_of_cascade_exp = false;
    let c = level_config(&s, 2, Extent { width: 480, height: 1080 });
    assert_eq!(
        c,
        CascadeLevelConfig {
            cas_w: 30,
            cas_h: 1080,
            cascade_n: 2,
            directions: 64,
            cas_0_directions: 16,
            cas_0_render_scale: 4,
            cascade_count: 6,
            render_scale: 16,
            square_falloff: 1,
            divide_steps_by_square_of_cascade_exp: 0,
        }
    );
}

#[test]
fn level_configs_differ_only_in_level_fields() {
    let s = settings(4, 16, 6);
    let extents = cascade_atlas_extents(&s, Extent { width: 1920, height: 1080 });
    let a = level_config(&s, 0, extents[0]);
    let b = level_config(&s, 3, extents[3]);
    assert_eq!(a.cas_0_directions, b.cas_0_directions);
    assert_eq!(a.cas_0_render_scale, b.cas_0_render_scale);
    assert_eq!(a.cascade_count, b.cascade_count);
    assert_eq!(a.square_falloff, b.square_falloff);
    assert_eq!(a.divide_steps_by_square_of_cascade_exp, b.divide_steps_by_square_of_cascade_exp);
    assert_ne!(a.directions, b.directions);
    assert_ne!(a.render_scale, b.render_scale);
}

#[test]
fn step_division_only_changes_coarser_levels() {
    assert_eq!(step_divisor(0, true), step_divisor(0, false));
    assert_eq!(step_divisor(0, true), 1);
    assert_eq!(step_divisor(1, true), 4);
    assert_eq!(step_divisor(2, true), 16);
    assert_eq!(step_divisor(2, false), 1);
    assert_ne!(step_divisor(5, true), step_divisor(5, false));
    assert_eq!(step_divisor(7, true), 16384);
}

#[test]
fn probe_grid_config_reads_level_0() {
    let s = settings(4, 16, 6);
    let c = probe_grid_config(&s, Extent { width: 1920, height: 4320 });
    assert_eq!(
        c,
        ProbeGridConfig { cas_w: 1920, cas_h: 4320, directions: 16, render_scale: 4, cascade_count: 6 }
    );
}

#[test]
fn flags_as_shader_values() {
    assert_eq!(flag_to_u32(true), 1);
    assert_eq!(flag_to_u32(false), 0);
}
