//! The per-frame sequence of stages, and which buffer of each history pair a
//! stage reads or writes.
use vstd::prelude::*;
use crate::history::{read_slot, read_slot_of, write_slot, write_slot_of, Slot};

verus! {

/// The stages of one view's frame, in the order their data dependencies impose.
#[derive(Clone, Copy, Debug, PartialEq, Eq, Hash, Structural)]
pub enum Stage {
    Idle,
    Downsample,
    TraceCascades,
    ProjectSh,
    Resolve,
    Compose,
}

/// Position of a stage in the frame.
pub open spec fn rank_of(s: Stage) -> int {
    match s {
        Stage::Idle => 0,
        Stage::Downsample => 1,
        Stage::TraceCascades => 2,
        Stage::ProjectSh => 3,
        Stage::Resolve => 4,
        Stage::Compose => 5,
    }
}

pub open spec fn next_stage_of(s: Stage) -> Stage {
    match s {
        Stage::Idle => Stage::Downsample,
        Stage::Downsample => Stage::TraceCascades,
        Stage::TraceCascades => Stage::ProjectSh,
        Stage::ProjectSh => Stage::Resolve,
        Stage::Resolve => Stage::Compose,
        Stage::Compose => Stage::Idle,
    }
}

/// The stage that follows `s`; after composing, the view is idle again.
pub fn next_stage(s: Stage) -> (r: Stage)
    ensures
        r == next_stage_of(s),
        s != Stage::Compose ==> rank_of(r) == rank_of(s) + 1,
        s == Stage::Compose ==> r == Stage::Idle,
{
    match s {
        Stage::Idle => Stage::Downsample,
        Stage::Downsample => Stage::TraceCascades,
        Stage::TraceCascades => Stage::ProjectSh,
        Stage::ProjectSh => Stage::Resolve,
        Stage::Resolve => Stage::Compose,
        Stage::Compose => Stage::Idle,
    }
}

/// Whether each stage has what it needs this frame (its pipeline, the blue
/// noise, its textures). A stage that is not ready is skipped for the frame.
#[derive(Clone, Copy, Debug, PartialEq, Eq, Structural)]
pub struct StageReadiness {
    pub downsample: bool,
    pub trace_cascades: bool,
    pub project_sh: bool,
    pub resolve: bool,
    pub compose: bool,
}

pub open spec fn stage_if(b: bool, s: Stage) -> Seq<Stage> {
    if b {
        seq![s]
    } else {
        seq![]
    }
}

/// The stages that run this frame, in order: the working stages that are ready.
pub open spec fn frame_schedule_of(ready: StageReadiness) -> Seq<Stage> {
    stage_if(ready.downsample, Stage::Downsample) + stage_if(
        ready.trace_cascades,
        Stage::TraceCascades,
    ) + stage_if(ready.project_sh, Stage::ProjectSh) + stage_if(ready.resolve, Stage::Resolve)
        + stage_if(ready.compose, Stage::Compose)
}

fn push_stage_if(stages: &mut Vec<Stage>, b: bool, s: Stage)
    ensures
        final(stages)@ == old(stages)@ + stage_if(b, s),
{
    if b {
        stages.push(s);
    }
    assert(stages@ =~= old(stages)@ + stage_if(b, s));
}

/// The stages that run this frame, in the order they run.
pub fn frame_schedule(ready: &StageReadiness) -> (r: Vec<Stage>)
    ensures
        r@ == frame_schedule_of(*ready),
{
    let mut stages: Vec<Stage> = Vec::new();
    assert(stages@ =~= seq![]);
    push_stage_if(&mut stages, ready.downsample, Stage::Downsample);
    assert(stages@ =~= stage_if(ready.downsample, Stage::Downsample));
    push_stage_if(&mut stages, ready.trace_cascades, Stage::TraceCascades);
    push_stage_if(&mut stages, ready.project_sh, Stage::ProjectSh);
    push_stage_if(&mut stages, ready.resolve, Stage::Resolve);
    push_stage_if(&mut stages, ready.compose, Stage::Compose);
    stages
}

/// The ranks in `s` rise strictly, and stay between 1 and `bound - 1`.
pub open spec fn ordered_below(s: Seq<Stage>, bound: int) -> bool {
    &&& forall|i: int, j: int| 0 <= i < j < s.len() ==> rank_of(#[trigger] s[i]) < rank_of(#[trigger] s[j])
    &&& forall|k: int| 0 <= k < s.len() ==> 1 <= rank_of(#[trigger] s[k]) < bound
}

proof fn lemma_append_stage(s: Seq<Stage>, b: bool, x: Stage)
    requires
        ordered_below(s, rank_of(x)),
        rank_of(x) >= 1,
    ensures
        ordered_below(s + stage_if(b, x), rank_of(x) + 1),
        (s + stage_if(b, x)).contains(x) == b,
        forall|y: Stage|
            rank_of(y) < rank_of(x) ==> (s + stage_if(b, x)).contains(y) == s.contains(y),
{
    let t = s + stage_if(b, x);
    if b {
        assert(t[s.len() as int] == x);
    } else {
        assert(t =~= s);
        if s.contains(x) {
            let k = choose|k: int| 0 <= k < s.len() && s[k] == x;
            assert(rank_of(s[k]) < rank_of(x));
        }
    }
    assert forall|y: Stage| rank_of(y) < rank_of(x) implies t.contains(y) == s.contains(y) by {
        if s.contains(y) {
            let k = choose|k: int| 0 <= k < s.len() && s[k] == y;
            assert(t[k] == y);
        }
        if t.contains(y) {
            let k = choose|k: int| 0 <= k < t.len() && t[k] == y;
            assert(k < s.len());
            assert(s[k] == y);
        }
    }
}

/// Stages run strictly in order: the ranks of the schedule rise strictly, so a
/// stage runs at most once and after every earlier stage that runs; the idle
/// state never appears; and a stage runs exactly when it is ready.
pub proof fn lemma_schedule_in_order(ready: StageReadiness)
    ensures
        forall|i: int, j: int|
            0 <= i < j < frame_schedule_of(ready).len() ==> rank_of(
                #[trigger] frame_schedule_of(ready)[i],
            ) < rank_of(#[trigger] frame_schedule_of(ready)[j]),
        forall|i: int|
            0 <= i < frame_schedule_of(ready).len() ==> #[trigger] frame_schedule_of(ready)[i]
                != Stage::Idle,
        frame_schedule_of(ready).contains(Stage::Downsample) == ready.downsample,
        frame_schedule_of(ready).contains(Stage::TraceCascades) == ready.trace_cascades,
        frame_schedule_of(ready).contains(Stage::ProjectSh) == ready.project_sh,
        frame_schedule_of(ready).contains(Stage::Resolve) == ready.resolve,
        frame_schedule_of(ready).contains(Stage::Compose) == ready.compose,
{
    let s0: Seq<Stage> = seq![];
    let s1 = s0 + stage_if(ready.downsample, Stage::Downsample);
    lemma_append_stage(s0, ready.downsample, Stage::Downsample);
    assert(s1 =~= stage_if(ready.downsample, Stage::Downsample));
    let s2 = s1 + stage_if(ready.trace_cascades, Stage::TraceCascades);
    lemma_append_stage(s1, ready.trace_cascades, Stage::TraceCascades);
    let s3 = s2 + stage_if(ready.project_sh, Stage::ProjectSh);
    lemma_append_stage(s2, ready.project_sh, Stage::ProjectSh);
    let s4 = s3 + stage_if(ready.resolve, Stage::Resolve);
    lemma_append_stage(s3, ready.resolve, Stage::Resolve);
    let s5 = s4 + stage_if(ready.compose, Stage::Compose);
    lemma_append_stage(s4, ready.compose, Stage::Compose);
    assert(s5 == frame_schedule_of(ready));
    assert forall|i: int| 0 <= i < s5.len() implies #[trigger] s5[i] != Stage::Idle by {
        assert(1 <= rank_of(s5[i]));
    }
}

/// The ping-pong pairs that carry data from one frame to the next.
#[derive(Clone, Copy, Debug, PartialEq, Eq, Hash, Structural)]
pub enum HistoryBuffer {
    /// The copy of the shaded frame's color, with mips.
    FrameColor,
    /// The downsampled depth: the current frame's and the previous one's.
    PrepassDepth,
    /// The projected directional radiance.
    Sh,
    /// The position record that goes with the projected radiance.
    ShPosition,
    /// The resolved indirect light.
    Resolve,
}

/// One buffer of one pair.
#[derive(Clone, Copy, Debug, PartialEq, Eq, Hash, Structural)]
pub struct HistoryAccess {
    pub buffer: HistoryBuffer,
    pub slot: Slot,
}

/// What one stage reads and writes of the history pairs in one frame.
#[derive(Clone, Debug)]
pub struct StageAccesses {
    pub reads: Vec<HistoryAccess>,
    pub writes: Vec<HistoryAccess>,
}

pub open spec fn at(buffer: HistoryBuffer, slot: Slot) -> HistoryAccess {
    HistoryAccess { buffer, slot }
}

/// The history buffers that `stage` reads during `frame`. The tracer reads last
/// frame's color; the projection reads last frame's radiance and positions; the
/// resolve reads what the projection has just written and last frame's
/// resolved light; the composer reads what the resolve has just written, and
/// last frame's color.
pub open spec fn stage_reads_of(stage: Stage, frame: u32) -> Seq<HistoryAccess> {
    let w = write_slot_of(frame);
    let r = read_slot_of(frame);
    match stage {
        Stage::TraceCascades => seq![at(HistoryBuffer::FrameColor, r)],
        Stage::ProjectSh => seq![at(HistoryBuffer::Sh, r), at(HistoryBuffer::ShPosition, r)],
        Stage::Resolve => seq![
            at(HistoryBuffer::Sh, w),
            at(HistoryBuffer::ShPosition, w),
            at(HistoryBuffer::Resolve, r),
        ],
        Stage::Compose => seq![at(HistoryBuffer::Resolve, w), at(HistoryBuffer::FrameColor, r)],
        _ => seq![],
    }
}

/// The history buffers that `stage` writes during `frame`: always the write
/// buffer of the frame. The composer keeps a copy of the color it shades.
pub open spec fn stage_writes_of(stage: Stage, frame: u32) -> Seq<HistoryAccess> {
    let w = write_slot_of(frame);
    match stage {
        Stage::Downsample => seq![at(HistoryBuffer::PrepassDepth, w)],
        Stage::ProjectSh => seq![at(HistoryBuffer::Sh, w), at(HistoryBuffer::ShPosition, w)],
        Stage::Resolve => seq![at(HistoryBuffer::Resolve, w)],
        Stage::Compose => seq![at(HistoryBuffer::FrameColor, w)],
        _ => seq![],
    }
}

/// What `stage` reads and writes of the history pairs during `frame`.
pub fn stage_accesses(stage: Stage, frame: u32) -> (r: StageAccesses)
    ensures
        r.reads@ == stage_reads_of(stage, frame),
        r.writes@ == stage_writes_of(stage, frame),
{
    let w = write_slot(frame);
    let rd = read_slot(frame);
    let mut reads: Vec<HistoryAccess> = Vec::new();
    let mut writes: Vec<HistoryAccess> = Vec::new();
    match stage {
        Stage::Downsample => {
            writes.push(HistoryAccess { buffer: HistoryBuffer::PrepassDepth, slot: w });
        },
        Stage::ProjectSh => {
            reads.push(HistoryAccess { buffer: HistoryBuffer::Sh, slot: rd });
            reads.push(HistoryAccess { buffer: HistoryBuffer::ShPosition, slot: rd });
            writes.push(HistoryAccess { buffer: HistoryBuffer::Sh, slot: w });
            writes.push(HistoryAccess { buffer: HistoryBuffer::ShPosition, slot: w });
        },
        Stage::Resolve => {
            reads.push(HistoryAccess { buffer: HistoryBuffer::Sh, slot: w });
            reads.push(HistoryAccess { buffer: HistoryBuffer::ShPosition, slot: w });
            reads.push(HistoryAccess { buffer: HistoryBuffer::Resolve, slot: rd });
            writes.push(HistoryAccess { buffer: HistoryBuffer::Resolve, slot: w });
        },
        Stage::TraceCascades => {
            reads.push(HistoryAccess { buffer: HistoryBuffer::FrameColor, slot: rd });
        },
        Stage::Compose => {
            reads.push(HistoryAccess { buffer: HistoryBuffer::Resolve, slot: w });
            reads.push(HistoryAccess { buffer: HistoryBuffer::FrameColor, slot: rd });
            writes.push(HistoryAccess { buffer: HistoryBuffer::FrameColor, slot: w });
        },
        _ => {},
    }
    assert(reads@ =~= stage_reads_of(stage, frame));
    assert(writes@ =~= stage_writes_of(stage, frame));
    StageAccesses { reads, writes }
}

/// No stage reads a buffer that it writes in the same frame; a stage that
/// reads a buffer written this frame comes after the stage that writes it; and
/// a buffer read as last frame's history is the one written in the frame
/// before.
pub proof fn lemma_stage_accesses_consistent(stage: Stage, frame: u32)
    ensures
        forall|i: int, j: int|
            0 <= i < stage_reads_of(stage, frame).len() && 0 <= j < stage_writes_of(
                stage,
                frame,
            ).len() ==> #[trigger] stage_reads_of(stage, frame)[i] != #[trigger] stage_writes_of(
                stage,
                frame,
            )[j],
        forall|i: int|
            0 <= i < stage_reads_of(stage, frame).len() && (#[trigger] stage_reads_of(
                stage,
                frame,
            )[i]).slot == write_slot_of(frame) ==> exists|earlier: Stage|
                rank_of(earlier) < rank_of(stage) && stage_writes_of(earlier, frame).contains(
                    stage_reads_of(stage, frame)[i],
                ),
        forall|i: int|
            0 <= i < stage_reads_of(stage, frame).len() && (#[trigger] stage_reads_of(
                stage,
                frame,
            )[i]).slot == read_slot_of(frame) ==> stage_reads_of(stage, frame)[i].slot
                == write_slot_of((if frame == 0 {
                u32::MAX
            } else {
                (frame - 1) as u32
            })),
{
    let reads = stage_reads_of(stage, frame);
    let w = write_slot_of(frame);
    assert forall|i: int|
        0 <= i < reads.len() && (#[trigger] reads[i]).slot == w implies exists|earlier: Stage|
        rank_of(earlier) < rank_of(stage) && stage_writes_of(earlier, frame).contains(reads[i]) by {
        if stage == Stage::Resolve {
            assert(i < 2);
            assert(stage_writes_of(Stage::ProjectSh, frame)[i] == reads[i]);
            assert(stage_writes_of(Stage::ProjectSh, frame).contains(reads[i]));
            assert(rank_of(Stage::ProjectSh) < rank_of(stage));
        } else if stage == Stage::Compose {
            assert(i == 0);
            assert(stage_writes_of(Stage::Resolve, frame)[0] == reads[i]);
            assert(stage_writes_of(Stage::Resolve, frame).contains(reads[i]));
            assert(rank_of(Stage::Resolve) < rank_of(stage));
        }
    }
}

} // verus!
