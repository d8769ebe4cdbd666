use bevy_ssgi::frame::{
    frame_schedule, next_stage, stage_accesses, HistoryAccess, HistoryBuffer, Stage,
    StageReadiness,
};
use bevy_ssgi::history::Slot;

fn all_ready() -> StageReadiness {
    StageReadiness { downsample: true, trace_cascades: true, project_sh: true, resolve: true, compose: true }
}

#[test]
fn stages_cycle_back_to_idle() {
    let mut s = Stage::Idle;
    let mut seen = vec![s];
    for _ in 0..6 {
        s = next_stage(s);
        seen.push(s);
    }
    assert_eq!(
        seen,
        vec![
            Stage::Idle,
            Stage::Downsample,
            Stage::TraceCascades,
            Stage::ProjectSh,
            Stage::Resolve,
            Stage::Compose,
            Stage::Idle,
        ]
    );
}

#[test]
fn full_schedule_runs_every_stage_in_order() {
    assert_eq!(
        frame_schedule(&all_ready()),
        vec![Stage::Downsample, Stage::TraceCascades, Stage::ProjectSh, Stage::Resolve, Stage::Compose]
    );
}

#[test]
fn stage_not_ready_is_skipped() {
    let mut ready = all_ready();
    ready.trace_cascades = false;
    ready.compose = false;
    assert_eq!(frame_schedule(&ready), vec![Stage::Downsample, Stage::ProjectSh, Stage::Resolve]);
    let none = StageReadiness { downsample: false, trace_cascades: false, project_sh: false, resolve: false, compose: false };
    assert!(frame_schedule(&none).is_empty());
}

#[test]
fn projection_reads_history_and_writes_current() {
    let a = stage_accesses(Stage::ProjectSh, 10);
    assert_eq!(
        a.reads,
        vec![
            HistoryAccess { buffer: HistoryBuffer::Sh, slot: Slot::B },
            HistoryAccess { buffer: HistoryBuffer::ShPosition, slot: Slot::B },
        ]
    );
    assert_eq!(
        a.writes,
        vec![
            HistoryAccess { buffer: HistoryBuffer::Sh, slot: Slot::A },
            HistoryAccess { buffer: HistoryBuffer::ShPosition, slot: Slot::A },
        ]
    );
}

#[test]
fn resolve_reads_what_projection_just_wrote() {
    let projection = stage_accesses(Stage::ProjectSh, 11);
    let resolve = stage_accesses(Stage::Resolve, 11);
    assert_eq!(resolve.reads[0], projection.writes[0]);
    assert_eq!(resolve.reads[1], projection.writes[1]);
    assert_eq!(resolve.reads[2], HistoryAccess { buffer: HistoryBuffer::Resolve, slot: Slot::A });
    assert_eq!(resolve.writes, vec![HistoryAccess { buffer: HistoryBuffer::Resolve, slot: Slot::B }]);
    let compose = stage_accesses(Stage::Compose, 11);
    assert_eq!(compose.reads[0], resolve.writes[0]);
    assert_eq!(compose.reads[1], HistoryAccess { buffer: HistoryBuffer::FrameColor, slot: Slot::A });
    assert_eq!(compose.writes, vec![HistoryAccess { buffer: HistoryBuffer::FrameColor, slot: Slot::B }]);
}

#[test]
fn resolve_history_is_last_frames_output() {
    let earlier = stage_accesses(Stage::Resolve, 20);
    let later = stage_accesses(Stage::Resolve, 21);
    assert_eq!(later.reads[2], earlier.writes[0]);
    let depth = stage_accesses(Stage::Downsample, 21);
    assert_eq!(depth.writes, vec![HistoryAccess { buffer: HistoryBuffer::PrepassDepth, slot: Slot::B }]);
    let trace = stage_accesses(Stage::TraceCascades, 22);
    assert_eq!(trace.reads, vec![HistoryAccess { buffer: HistoryBuffer::FrameColor, slot: Slot::B }]);
    assert!(trace.writes.is_empty());
    let previous_compose = stage_accesses(Stage::Compose, 21);
    assert_eq!(trace.reads[0], previous_compose.writes[0]);
    assert!(stage_accesses(Stage::Idle, 3).reads.is_empty());
}
