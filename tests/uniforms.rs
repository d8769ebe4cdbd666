use bevy_ssgi::cascade::{level_config, probe_grid_config, CascadeLevelConfig, Extent, ProbeGridConfig};
use bevy_ssgi::settings::CascadeSettings;
use bevy_ssgi::uniforms::{
    pack_words, resolve_uniform_bytes, sh_uniform_bytes, tracer_uniform_bytes, unpack_word,
    ResolveTunables, TracerTunables, RESOLVE_UNIFORM_SIZE, SH_UNIFORM_SIZE, TRACER_UNIFORM_SIZE,
};

fn words_of(bytes: &[u8]) -> Vec<u32> {
    bytes.chunks(4).map(|c| u32::from_le_bytes([c[0], c[1], c[2], c[3]])).collect()
}

fn tracer_tunables() -> TracerTunables {
    TracerTunables {
        distance_rejection: 2.0f32.to_bits(),
        normal_rejection: 100.0f32.to_bits(),
        falloff: 1.0f32.to_bits(),
        brightness: 1.5f32.to_bits(),
        backside_illumination: (-2.0f32).to_bits(),
        depth_mip_min: 0.0f32.to_bits(),
        mip_min: 2.0f32.to_bits(),
        mip_max: 4.0f32.to_bits(),
        interval_overlap: 1.0f32.to_bits(),
        cascade_0_dist: 21.0f32.to_bits(),
        horizon_occlusion: 0.5f32.to_bits(),
    }
}

#[test]
fn words_pack_little_endian() {
    let bytes = pack_words(&vec![0x0403_0201, 0xdead_beef]);
    assert_eq!(bytes, vec![1, 2, 3, 4, 0xef, 0xbe, 0xad, 0xde]);
    assert_eq!(unpack_word(&bytes, 0), 0x0403_0201);
    assert_eq!(unpack_word(&bytes, 1), 0xdead_beef);
    assert!(pack_words(&Vec::new()).is_empty());
}

#[test]
fn tracer_uniform_layout() {
    let s = CascadeSettings::default();
    let c = level_config(&s, 1, Extent { width: 960, height: 1080 });
    let bytes = tracer_uniform_bytes(&c, &tracer_tunables());
    assert_eq!(bytes.len(), TRACER_UNIFORM_SIZE);
    assert_eq!(TRACER_UNIFORM_SIZE % 16, 0);
    let w = words_of(&bytes);
    assert_eq!(&w[..8], &[60, 1080, 1, 32, 16, 4, 6, 8]);
    assert_eq!(f32::from_bits(w[8]), 2.0);
    assert_eq!(f32::from_bits(w[9]), 100.0);
    assert_eq!(w[11], 0);
    assert_eq!(f32::from_bits(w[13]), -2.0);
    assert_eq!(f32::from_bits(w[18]), 21.0);
    assert_eq!(w[19], 1);
    assert_eq!(f32::from_bits(w[20]), 0.5);
    assert_eq!(&w[21..], &[0, 0, 0]);
}

#[test]
fn tracer_uniform_carries_level_fields() {
    let c = CascadeLevelConfig {
        cas_w: 7,
        cas_h: 9,
        cascade_n: 3,
        directions: 128,
        cas_0_directions: 16,
        cas_0_render_scale: 2,
        cascade_count: 8,
        render_scale: 16,
        square_falloff: 1,
        divide_steps_by_square_of_cascade_exp: 0,
    };
    let w = words_of(&tracer_uniform_bytes(&c, &tracer_tunables()));
    assert_eq!(&w[..8], &[7, 9, 3, 128, 16, 2, 8, 16]);
    assert_eq!(w[11], 1);
    assert_eq!(w[19], 0);
}

#[test]
fn sh_uniform_layout() {
    let g = probe_grid_config(&CascadeSettings::default(), Extent { width: 1920, height: 1080 });
    let bytes = sh_uniform_bytes(&g, 0.2f32.to_bits());
    assert_eq!(bytes.len(), SH_UNIFORM_SIZE);
    let w = words_of(&bytes);
    assert_eq!(&w[..5], &[1920, 1080, 16, 4, 6]);
    assert_eq!(f32::from_bits(w[5]), 0.2);
    assert_eq!(&w[6..], &[0, 0]);
}

#[test]
fn resolve_uniform_layout() {
    let g = ProbeGridConfig { cas_w: 1, cas_h: 2, directions: 3, render_scale: 4, cascade_count: 5 };
    let t = ResolveTunables {
        distance_rejection: 2.0f32.to_bits(),
        normal_rejection: 100.0f32.to_bits(),
        hysteresis: 0.1f32.to_bits(),
        rough_specular: 1.0f32.to_bits(),
        rough_specular_sharpness: 3.0f32.to_bits(),
    };
    let bytes = resolve_uniform_bytes(&g, &t);
    assert_eq!(bytes.len(), RESOLVE_UNIFORM_SIZE);
    let w = words_of(&bytes);
    assert_eq!(&w[..5], &[1, 2, 3, 4, 5]);
    assert_eq!(f32::from_bits(w[7]), 0.1);
    assert_eq!(f32::from_bits(w[9]), 3.0);
    assert_eq!(&w[10..], &[0, 0]);
}
