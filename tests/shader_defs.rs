use bevy_ssgi::settings::{
    temporal_shader_defs, tracer_shader_defs, CascadeSettings, SSGIPipelineKey,
};
use bevy_ssgi::shader_defs::{convert_shader_defs, ShaderDef, ShaderDefName};

fn names(defs: &[ShaderDef]) -> Vec<String> {
    defs.iter()
        .map(|d| match d {
            ShaderDef::Flag(n) => n.as_str().to_string(),
            ShaderDef::UInt(n, v) => format!("{}={}", n.as_str(), v),
        })
        .collect()
}

#[test]
fn key_from_default_settings() {
    let key = CascadeSettings::default().key();
    assert_eq!(
        key,
        SSGIPipelineKey { jitter_probe_position: true, jitter_probe_direction: true, noise_frame_period: 8 }
    );
}

#[test]
fn key_defs_follow_flags() {
    let key = SSGIPipelineKey { jitter_probe_position: false, jitter_probe_direction: true, noise_frame_period: 3 };
    let mut defs = vec![ShaderDef::Flag(ShaderDefName::Webgl2)];
    key.shader_defs(&mut defs);
    assert_eq!(names(&defs), vec!["WEBGL2", "NOISE_FRAME_PERIOD=3", "JITTER_PROBE_DIRECTION"]);

    let key = SSGIPipelineKey { jitter_probe_position: false, jitter_probe_direction: false, noise_frame_period: 0 };
    let mut defs = Vec::new();
    key.shader_defs(&mut defs);
    assert_eq!(names(&defs), vec!["NOISE_FRAME_PERIOD=0"]);
}

#[test]
fn tracer_defs_in_order() {
    let key = CascadeSettings::default().key();
    assert_eq!(
        names(&tracer_shader_defs(&key, false)),
        vec![
            "NOISE_FRAME_PERIOD=8",
            "JITTER_PROBE_POSITION",
            "JITTER_PROBE_DIRECTION",
            "BLUE_NOISE_GROUP_N=0",
            "BLUE_NOISE_ENTRY_N=31",
            "BLUE_NOISE_DIMS=64",
            "DEFERRED_PREPASS",
        ]
    );
    let webgl = names(&tracer_shader_defs(&key, true));
    assert_eq!(webgl[0], "WEBGL2");
    assert_eq!(webgl[1], "SIXTEEN_BYTE_ALIGNMENT");
    assert_eq!(webgl.len(), 9);
}

#[test]
fn temporal_defs_in_order() {
    let key = SSGIPipelineKey { jitter_probe_position: true, jitter_probe_direction: false, noise_frame_period: 16 };
    assert_eq!(
        names(&temporal_shader_defs(&key)),
        vec![
            "BLUE_NOISE_GROUP_N=0",
            "BLUE_NOISE_ENTRY_N=31",
            "BLUE_NOISE_DIMS=64",
            "NOISE_FRAME_PERIOD=16",
            "JITTER_PROBE_POSITION",
        ]
    );
}

#[test]
fn convert_defs_only_on_webgl2() {
    assert!(convert_shader_defs(false).is_empty());
    assert_eq!(convert_shader_defs(true), vec![ShaderDef::Flag(ShaderDefName::Webgl2)]);
}

#[test]
fn settings_validation() {
    assert!(CascadeSettings::default().is_valid());
    let mut s = CascadeSettings::default();
    s.cascade_0_directions = 6;
    assert!(!s.is_valid());
    let mut s = CascadeSettings::default();
    s.cascade_count = 9;
    assert!(!s.is_valid());
    let mut s = CascadeSettings::default();
    s.cascade_count = 8;
    s.render_scale = 32;
    s.cascade_0_directions = 32;
    assert!(s.is_valid());
    s.render_scale = 1;
    assert!(!s.is_valid());
}
