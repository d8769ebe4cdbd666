//! The mip chains built each frame: the downsampled prepass buffers (depth,
//! normals, motion) and the copy of the frame's color, each as a sequence of
//! full-screen passes.
//!
//! On a backend that cannot read one mip of a texture while writing another
//! mip of it, the passes go through relay textures of a single mip each.
use vstd::prelude::*;
use crate::cascade::{level_scale, level_scale_of, Extent};

verus! {

/// Mip levels built by default, for the prepass chain and for the color chain.
pub const DEFAULT_MIP_LEVELS: u8 = 5;

/// A view that a mip-chain pass reads or writes.
#[derive(Clone, Copy, Debug, PartialEq, Eq, Hash, Structural)]
pub enum MipView {
    /// The frame's own buffer that the chain starts from.
    Source,
    /// One mip of the chain's texture.
    Level(u32),
    /// A relay texture, of a single mip.
    Relay(u32),
}

/// One full-screen pass: reads `src`, writes `dst`.
#[derive(Clone, Copy, Debug, PartialEq, Eq, Hash, Structural)]
pub struct MipPass {
    pub src: MipView,
    pub dst: MipView,
}

/// Every view that a pass reads is the chain's source, or was written by an
/// earlier pass.
pub open spec fn reads_follow_writes(passes: Seq<MipPass>) -> bool {
    forall|k: int|
        0 <= k < passes.len() ==> (#[trigger] passes[k]).src == MipView::Source || exists|j: int|
            0 <= j < k && passes[j].dst == passes[k].src
}

/// No pass reads one mip of the chain's texture while writing another.
pub open spec fn chain_never_read_while_written(passes: Seq<MipPass>) -> bool {
    forall|k: int|
        0 <= k < passes.len() ==> !((#[trigger] passes[k]).src is Level && passes[k].dst is Level)
}

/// Settings of the prepass downsampler.
#[derive(Clone, Copy, Debug, PartialEq, Eq, Structural)]
pub struct PrepassDownsample {
    pub mip_levels: u8,
}

impl Default for PrepassDownsample {
    fn default() -> (r: Self)
        ensures
            r.mip_levels == DEFAULT_MIP_LEVELS,
    {
        PrepassDownsample { mip_levels: DEFAULT_MIP_LEVELS }
    }
}

/// Settings of the copy of the frame's color kept for the next frame.
#[derive(Clone, Copy, Debug, PartialEq, Eq, Structural)]
pub struct CopyFrame {
    pub mip_levels: u8,
}

impl Default for CopyFrame {
    fn default() -> (r: Self)
        ensures
            r.mip_levels == DEFAULT_MIP_LEVELS,
    {
        CopyFrame { mip_levels: DEFAULT_MIP_LEVELS }
    }
}

/// Number of passes of the prepass chain.
pub open spec fn prepass_pass_count(mip_levels: nat, relay: bool) -> nat {
    if relay {
        mip_levels + 1
    } else {
        mip_levels
    }
}

/// The `k`-th pass of the prepass chain. The first converts the prepass
/// outputs into mip 0. Directly, pass `k` then downsamples mip `k - 1` into
/// mip `k`. Through a relay, mip 0 is first copied into the relay texture, and
/// each further mip is drawn from it.
pub open spec fn prepass_pass_at(relay: bool, k: int) -> MipPass {
    if k == 0 {
        MipPass { src: MipView::Source, dst: MipView::Level(0) }
    } else if !relay {
        MipPass { src: MipView::Level((k - 1) as u32), dst: MipView::Level(k as u32) }
    } else if k == 1 {
        MipPass { src: MipView::Level(0), dst: MipView::Relay(0) }
    } else {
        MipPass { src: MipView::Relay(0), dst: MipView::Level((k - 1) as u32) }
    }
}

/// The passes that build the prepass mip chain of `mip_levels` mips.
pub fn prepass_mip_passes(mip_levels: u8, relay: bool) -> (r: Vec<MipPass>)
    requires
        mip_levels >= 1,
    ensures
        r.len() == prepass_pass_count(mip_levels as nat, relay),
        forall|k: int| 0 <= k < r.len() ==> #[trigger] r@[k] == prepass_pass_at(relay, k),
{
    let mut passes: Vec<MipPass> = Vec::new();
    passes.push(MipPass { src: MipView::Source, dst: MipView::Level(0) });
    if relay {
        passes.push(MipPass { src: MipView::Level(0), dst: MipView::Relay(0) });
    }
    let first: usize = passes.len();
    let mip_levels = mip_levels as u32;
    let mut i: u32 = 0;
    while i < mip_levels - 1
        invariant
            mip_levels >= 1,
            mip_levels <= 255,
            first == (if relay { 2usize } else { 1usize }),
            i <= mip_levels - 1,
            passes.len() == first + i,
            forall|k: int| 0 <= k < passes.len() ==> #[trigger] passes@[k] == prepass_pass_at(relay, k),
        decreases mip_levels - 1 - i,
    {
        if relay {
            passes.push(MipPass { src: MipView::Relay(0), dst: MipView::Level(i + 1) });
        } else {
            passes.push(MipPass { src: MipView::Level(i), dst: MipView::Level(i + 1) });
        }
        i = i + 1;
    }
    passes
}

/// Number of passes of the color chain.
pub open spec fn color_pass_count(mip_levels: nat, relay: bool) -> nat {
    if relay {
        (2 * mip_levels - 2) as nat
    } else {
        mip_levels
    }
}

/// The `k`-th pass of the color chain of `mip_levels` mips. Directly, the frame
/// is copied into mip 0 and pass `k` downsamples mip `k - 1` into mip `k`.
/// Through relays, the frame is downsampled into relay 0, relay `k - 1` into
/// relay `k` up to the last relay, and then relay `j` is copied into mip
/// `j + 1` for each `j`; relay `j` has the size of mip `j + 1`.
pub open spec fn color_pass_at(mip_levels: nat, relay: bool, k: int) -> MipPass {
    if !relay {
        if k == 0 {
            MipPass { src: MipView::Source, dst: MipView::Level(0) }
        } else {
            MipPass { src: MipView::Level((k - 1) as u32), dst: MipView::Level(k as u32) }
        }
    } else if k == 0 {
        MipPass { src: MipView::Source, dst: MipView::Relay(0) }
    } else if k < mip_levels - 1 {
        MipPass { src: MipView::Relay((k - 1) as u32), dst: MipView::Relay(k as u32) }
    } else {
        MipPass {
            src: MipView::Relay((k - (mip_levels - 1)) as u32),
            dst: MipView::Level((k - (mip_levels - 1) + 1) as u32),
        }
    }
}

/// The passes that build the color mip chain of `mip_levels` mips.
pub fn frame_copy_mip_passes(mip_levels: u8, relay: bool) -> (r: Vec<MipPass>)
    requires
        mip_levels >= 1,
        relay ==> mip_levels >= 2,
    ensures
        r.len() == color_pass_count(mip_levels as nat, relay),
        forall|k: int|
            0 <= k < r.len() ==> #[trigger] r@[k] == color_pass_at(mip_levels as nat, relay, k),
{
    let m = mip_levels as u32;
    let ghost mg = mip_levels as nat;
    let mut passes: Vec<MipPass> = Vec::new();
    if !relay {
        passes.push(MipPass { src: MipView::Source, dst: MipView::Level(0) });
        let mut i: u32 = 0;
        while i < m - 1
            invariant
                !relay,
                m == mg,
                1 <= m <= 255,
                i <= m - 1,
                passes.len() == 1 + i,
                forall|k: int|
                    0 <= k < passes.len() ==> #[trigger] passes@[k] == color_pass_at(mg, relay, k),
            decreases m - 1 - i,
        {
            passes.push(MipPass { src: MipView::Level(i), dst: MipView::Level(i + 1) });
            i = i + 1;
        }
    } else {
        passes.push(MipPass { src: MipView::Source, dst: MipView::Relay(0) });
        let mut i: u32 = 0;
        while i < m - 2
            invariant
                relay,
                m == mg,
                2 <= m <= 255,
                i <= m - 2,
                passes.len() == 1 + i,
                forall|k: int|
                    0 <= k < passes.len() ==> #[trigger] passes@[k] == color_pass_at(mg, relay, k),
            decreases m - 2 - i,
        {
            passes.push(MipPass { src: MipView::Relay(i), dst: MipView::Relay(i + 1) });
            i = i + 1;
        }
        let mut j: u32 = 0;
        while j < m - 1
            invariant
                relay,
                m == mg,
                2 <= m <= 255,
                j <= m - 1,
                passes.len() == m - 1 + j,
                forall|k: int|
                    0 <= k < passes.len() ==> #[trigger] passes@[k] == color_pass_at(mg, relay, k),
            decreases m - 1 - j,
        {
            passes.push(MipPass { src: MipView::Relay(j), dst: MipView::Level(j + 1) });
            j = j + 1;
        }
    }
    passes
}

/// Written directly, each mip of the prepass chain is drawn from the mip just
/// before it, which the previous pass wrote. Through a relay, every read view
/// was written earlier, and no pass reads the chain's texture while writing it.
pub proof fn lemma_prepass_chain_order(mip_levels: nat, relay: bool)
    requires
        mip_levels >= 1,
    ensures
        reads_follow_writes(
            Seq::new(prepass_pass_count(mip_levels, relay), |k: int| prepass_pass_at(relay, k)),
        ),
        !relay ==> forall|k: int|
            0 < k < mip_levels ==> #[trigger] prepass_pass_at(relay, k).src == prepass_pass_at(
                relay,
                k - 1,
            ).dst,
        relay ==> chain_never_read_while_written(
            Seq::new(prepass_pass_count(mip_levels, relay), |k: int| prepass_pass_at(relay, k)),
        ),
{
    let passes = Seq::new(prepass_pass_count(mip_levels, relay), |k: int| prepass_pass_at(relay, k));
    assert forall|k: int| 0 <= k < passes.len() implies (#[trigger] passes[k]).src == MipView::Source
        || exists|j: int| 0 <= j < k && passes[j].dst == passes[k].src by {
        if k > 0 {
            if !relay || k == 1 {
                assert(passes[k - 1].dst == passes[k].src);
            } else {
                assert(passes[1].dst == passes[k].src);
            }
        }
    }
}

/// Written directly, each mip of the color chain is drawn from the mip just
/// before it. Through relays, every read view was written earlier, and no pass
/// reads the chain's texture while writing it.
pub proof fn lemma_color_chain_order(mip_levels: nat, relay: bool)
    requires
        mip_levels >= 1,
        relay ==> mip_levels >= 2,
    ensures
        reads_follow_writes(
            Seq::new(
                color_pass_count(mip_levels, relay),
                |k: int| color_pass_at(mip_levels, relay, k),
            ),
        ),
        !relay ==> forall|k: int|
            0 < k < mip_levels ==> #[trigger] color_pass_at(mip_levels, relay, k).src
                == color_pass_at(mip_levels, relay, k - 1).dst,
        relay ==> chain_never_read_while_written(
            Seq::new(
                color_pass_count(mip_levels, relay),
                |k: int| color_pass_at(mip_levels, relay, k),
            ),
        ),
{
    let passes = Seq::new(
        color_pass_count(mip_levels, relay),
        |k: int| color_pass_at(mip_levels, relay, k),
    );
    assert forall|k: int| 0 <= k < passes.len() implies (#[trigger] passes[k]).src == MipView::Source
        || exists|j: int| 0 <= j < k && passes[j].dst == passes[k].src by {
        if k > 0 {
            if !relay || k < mip_levels - 1 {
                assert(passes[k - 1].dst == passes[k].src);
            } else {
                let j = k - (mip_levels - 1);
                assert(passes[j].dst == passes[k].src);
            }
        }
    }
}

/// Size of mip `level` of a texture of size `base`.
pub open spec fn mip_extent_of(base: Extent, level: nat) -> Extent {
    Extent {
        width: (base.width as nat / level_scale_of(level)) as u32,
        height: (base.height as nat / level_scale_of(level)) as u32,
    }
}

/// Size of mip `level` of a texture of size `base`.
pub fn mip_extent(base: Extent, level: u32) -> (r: Extent)
    requires
        level < 32,
    ensures
        r == mip_extent_of(base, level as nat),
{
    let scale = level_scale(level);
    Extent { width: base.width / scale, height: base.height / scale }
}

/// Sizes of the relay textures of the color chain: relay `j` has the size of
/// mip `j + 1`.
pub fn color_relay_extents(viewport: Extent, mip_levels: u8) -> (r: Vec<Extent>)
    requires
        mip_levels <= 32,
    ensures
        r.len() == if mip_levels >= 1 { mip_levels - 1 } else { 0 },
        forall|j: int| 0 <= j < r.len() ==> #[trigger] r@[j] == mip_extent_of(viewport, (j + 1) as nat),
{
    let mut extents: Vec<Extent> = Vec::new();
    let m = mip_levels as u32;
    let mut level: u32 = 1;
    while level < m
        invariant
            m <= 32,
            1 <= level,
            level <= m || m == 0,
            m == 0 ==> level == 1,
            extents.len() == level - 1,
            forall|j: int|
                0 <= j < extents.len() ==> #[trigger] extents@[j] == mip_extent_of(
                    viewport,
                    (j + 1) as nat,
                ),
        decreases m - level,
    {
        extents.push(mip_extent(viewport, level));
        level = level + 1;
    }
    extents
}

} // verus!
