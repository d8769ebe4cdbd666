use bevy_ssgi::cascade::Extent;
use bevy_ssgi::mip_chain::{
    color_relay_extents, frame_copy_mip_passes, mip_extent, prepass_mip_passes, CopyFrame,
    MipPass, MipView, PrepassDownsample,
};

fn pass(src: MipView, dst: MipView) -> MipPass {
    MipPass { src, dst }
}

#[test]
fn defaults_build_five_mips() {
    assert_eq!(PrepassDownsample::default().mip_levels, 5);
    assert_eq!(CopyFrame::default().mip_levels, 5);
}

#[test]
fn prepass_chain_direct() {
    assert_eq!(
        prepass_mip_passes(5, false),
        vec![
            pass(MipView::Source, MipView::Level(0)),
            pass(MipView::Level(0), MipView::Level(1)),
            pass(MipView::Level(1), MipView::Level(2)),
            pass(MipView::Level(2), MipView::Level(3)),
            pass(MipView::Level(3), MipView::Level(4)),
        ]
    );
    assert_eq!(prepass_mip_passes(1, false), vec![pass(MipView::Source, MipView::Level(0))]);
}

#[test]
fn prepass_chain_through_relay() {
    assert_eq!(
        prepass_mip_passes(3, true),
        vec![
            pass(MipView::Source, MipView::Level(0)),
            pass(MipView::Level(0), MipView::Relay(0)),
            pass(MipView::Relay(0), MipView::Level(1)),
            pass(MipView::Relay(0), MipView::Level(2)),
        ]
    );
}

#[test]
fn color_chain_direct() {
    assert_eq!(
        frame_copy_mip_passes(3, false),
        vec![pass(MipView::Source, MipView::Level(0)), pass(MipView::Level(0), MipView::Level(1)), pass(MipView::Level(1), MipView::Level(2))]
    );
}

#[test]
fn color_chain_through_relays() {
    assert_eq!(
        frame_copy_mip_passes(4, true),
        vec![
            pass(MipView::Source, MipView::Relay(0)),
            pass(MipView::Relay(0), MipView::Relay(1)),
            pass(MipView::Relay(1), MipView::Relay(2)),
            pass(MipView::Relay(0), MipView::Level(1)),
            pass(MipView::Relay(1), MipView::Level(2)),
            pass(MipView::Relay(2), MipView::Level(3)),
        ]
    );
    assert_eq!(frame_copy_mip_passes(2, true), vec![pass(MipView::Source, MipView::Relay(0)), pass(MipView::Relay(0), MipView::Level(1))]);
}

#[test]
fn relay_sizes_follow_mips() {
    let viewport = Extent { width: 1920, height: 1080 };
    assert_eq!(mip_extent(viewport, 0), viewport);
    assert_eq!(mip_extent(viewport, 3), Extent { width: 240, height: 135 });
    assert_eq!(
        color_relay_extents(viewport, 4),
        vec![
            Extent { width: 960, height: 540 },
            Extent { width: 480, height: 270 },
            Extent { width: 240, height: 135 },
        ]
    );
    assert!(color_relay_extents(viewport, 1).is_empty());
    assert!(color_relay_extents(viewport, 0).is_empty());
}
