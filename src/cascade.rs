//! Geometry of the radiance cascades: probe grids, direction counts, atlas
//! sizes, and the coarse-to-fine order in which the levels are traced.
use vstd::prelude::*;
use vstd::arithmetic::power2::{pow2, lemma2_to64};
use vstd::arithmetic::div_mod::{
    lemma_div_nonincreasing, lemma_fundamental_div_mod, lemma_mod_pos_bound,
};
use vstd::bits::{lemma_u32_pow2_no_overflow, lemma_u32_shl_is_mul};
use crate::settings::CascadeSettings;

verus! {

/// Texels across that one probe of any level takes in its atlas.
pub const ATLAS_BLOCK_WIDTH: u32 = 4;

/// Width and height of a texture or of a grid, in texels.
#[derive(Clone, Copy, Debug, PartialEq, Eq, Hash, Structural)]
pub struct Extent {
    pub width: u32,
    pub height: u32,
}

/// `x`, raised to 1 where it is smaller.
pub open spec fn at_least_one(x: int) -> int {
    if x < 1 {
        1
    } else {
        x
    }
}

/// Spatial scale of level `level` relative to level 0.
pub open spec fn level_scale_of(level: nat) -> nat {
    pow2(level)
}

/// Directions traced by each probe of level `level`.
pub open spec fn directions_of(cascade_0_directions: int, level: nat) -> int {
    cascade_0_directions * pow2(level)
}

/// The probe grid of level 0: the viewport divided by the render scale.
pub open spec fn probe_grid_of(viewport: Extent, render_scale: u32) -> Extent
    recommends
        render_scale > 0,
{
    Extent {
        width: (viewport.width / render_scale) as u32,
        height: (viewport.height / render_scale) as u32,
    }
}

/// Atlas width of level `level`: `(w / scale) * 4`, at least 1.
pub open spec fn atlas_width_of(grid_width: int, level: nat) -> int {
    at_least_one((grid_width / pow2(level) as int) * ATLAS_BLOCK_WIDTH)
}

/// Atlas height of level `level`: `(h / scale) * directions / 4`, at least 1.
pub open spec fn atlas_height_of(grid_height: int, cascade_0_directions: int, level: nat) -> int {
    at_least_one(
        ((grid_height / pow2(level) as int) * directions_of(cascade_0_directions, level))
            / ATLAS_BLOCK_WIDTH as int,
    )
}

pub open spec fn atlas_extent_of(grid: Extent, cascade_0_directions: u32, level: nat) -> Extent {
    Extent {
        width: atlas_width_of(grid.width as int, level) as u32,
        height: atlas_height_of(grid.height as int, cascade_0_directions as int, level) as u32,
    }
}

/// Whether the level-0 atlas of `settings` over `viewport` can be computed in
/// 32-bit arithmetic; every coarser level then can too.
pub open spec fn atlas_fits(settings: CascadeSettings, viewport: Extent) -> bool {
    let grid = probe_grid_of(viewport, settings.render_scale);
    &&& grid.width * ATLAS_BLOCK_WIDTH <= u32::MAX
    &&& grid.height * settings.cascade_0_directions <= u32::MAX
}

/// `2^level`, the spatial scale of level `level`.
pub fn level_scale(level: u32) -> (r: u32)
    requires
        level < 32,
    ensures
        r == level_scale_of(level as nat),
        r >= 1,
{
    proof {
        lemma_u32_pow2_no_overflow(level as nat);
        lemma_u32_shl_is_mul(1, level);
    }
    1u32 << level
}

/// Directions traced by each probe of level `level`.
pub fn level_directions(cascade_0_directions: u32, level: u32) -> (r: u32)
    requires
        level < 32,
        directions_of(cascade_0_directions as int, level as nat) <= u32::MAX,
    ensures
        r == directions_of(cascade_0_directions as int, level as nat),
{
    cascade_0_directions * level_scale(level)
}

/// The probe grid of level 0 for a viewport.
pub fn probe_grid(viewport: Extent, render_scale: u32) -> (r: Extent)
    requires
        render_scale > 0,
    ensures
        r == probe_grid_of(viewport, render_scale),
{
    Extent { width: viewport.width / render_scale, height: viewport.height / render_scale }
}

/// `(x / p) * (d * p) <= x * d` for `p > 0`.
proof fn lemma_scaled_product_bounded(x: int, d: int, p: int)
    requires
        x >= 0,
        d >= 0,
        p > 0,
    ensures
        (x / p) * (d * p) <= x * d,
        x / p <= x,
{
    lemma_fundamental_div_mod(x, p);
    lemma_div_nonincreasing(x, p);
    lemma_mod_pos_bound(x, p);
    let q = x / p;
    assert(q * p == p * q) by (nonlinear_arith);
    assert(q * p <= x);
    assert(q * (d * p) == d * (q * p)) by (nonlinear_arith);
    assert(d * (q * p) <= d * x) by (nonlinear_arith)
        requires
            q * p <= x,
            d >= 0,
    ;
    assert(d * x == x * d) by (nonlinear_arith);
}

/// Size of the two atlases of level `level`, over a level-0 probe grid.
pub fn atlas_extent(grid: Extent, cascade_0_directions: u32, level: u32) -> (r: Extent)
    requires
        level < 32,
        directions_of(cascade_0_directions as int, level as nat) <= u32::MAX,
        grid.width * ATLAS_BLOCK_WIDTH <= u32::MAX,
        (grid.height as int / pow2(level as nat) as int) * directions_of(
            cascade_0_directions as int,
            level as nat,
        ) <= u32::MAX,
    ensures
        r == atlas_extent_of(grid, cascade_0_directions, level as nat),
{
    let scale = level_scale(level);
    let directions = level_directions(cascade_0_directions, level);
    proof {
        lemma_div_nonincreasing(grid.width as int, scale as int);
    }
    let mut width = (grid.width / scale) * ATLAS_BLOCK_WIDTH;
    if width < 1 {
        width = 1;
    }
    let mut height = (grid.height / scale) * directions / ATLAS_BLOCK_WIDTH;
    if height < 1 {
        height = 1;
    }
    Extent { width, height }
}

/// The atlas sizes of every level, finest first: entry `n` is the size of
/// both output textures of level `n`.
pub fn cascade_atlas_extents(settings: &CascadeSettings, viewport: Extent) -> (r: Vec<Extent>)
    requires
        settings.wf(),
        atlas_fits(*settings, viewport),
    ensures
        r.len() == settings.cascade_count,
        forall|n: int|
            0 <= n < r.len() ==> #[trigger] r@[n] == atlas_extent_of(
                probe_grid_of(viewport, settings.render_scale),
                settings.cascade_0_directions,
                n as nat,
            ),
{
    let grid = probe_grid(viewport, settings.render_scale);
    let mut extents: Vec<Extent> = Vec::new();
    let mut level: u32 = 0;
    while level < settings.cascade_count
        invariant
            settings.wf(),
            atlas_fits(*settings, viewport),
            grid == probe_grid_of(viewport, settings.render_scale),
            level <= settings.cascade_count,
            extents.len() == level,
            forall|n: int|
                0 <= n < extents.len() ==> #[trigger] extents@[n] == atlas_extent_of(
                    grid,
                    settings.cascade_0_directions,
                    n as nat,
                ),
        decreases settings.cascade_count - level,
    {
        proof {
            lemma2_to64();
            assert(pow2(level as nat) <= 128) by {
                assert(level < 8);
            }
            let d0 = settings.cascade_0_directions as int;
            let p = pow2(level as nat) as int;
            assert(d0 * p <= 32 * 128) by (nonlinear_arith)
                requires
                    0 <= d0 <= 32,
                    0 < p <= 128,
            ;
            lemma_scaled_product_bounded(grid.height as int, d0, p);
        }
        let extent = atlas_extent(grid, settings.cascade_0_directions, level);
        extents.push(extent);
        level = level + 1;
    }
    extents
}

/// The level whose output level `level` merges: the next coarser one, or, at
/// the topmost level, level 0 as a placeholder that is bound but never read.
pub open spec fn merge_source_of(level: u32, cascade_count: u32) -> u32 {
    if level + 1 < cascade_count {
        (level + 1) as u32
    } else {
        0
    }
}

/// The level whose textures level `level` binds as its coarser input.
pub fn merge_source(level: u32, cascade_count: u32) -> (r: u32)
    requires
        level < cascade_count,
    ensures
        r == merge_source_of(level, cascade_count),
        r < cascade_count,
{
    if level + 1 < cascade_count {
        level + 1
    } else {
        0
    }
}

/// Divisor the tracer applies to its ray-march step count at level `level`:
/// the square of the level's scale when `divide_steps` holds, otherwise 1.
pub open spec fn step_divisor_of(level: nat, divide_steps: bool) -> int {
    if divide_steps {
        (pow2(level) * pow2(level)) as int
    } else {
        1
    }
}

/// The divisor of the ray-march step count at level `level`.
pub fn step_divisor(level: u32, divide_steps: bool) -> (r: u32)
    requires
        level < 16,
    ensures
        r == step_divisor_of(level as nat, divide_steps),
{
    if divide_steps {
        let scale = level_scale(level);
        proof {
            lemma2_to64();
            let p = pow2(level as nat) as int;
            assert(p <= 0x8000);
            assert(p * p <= 0x8000 * 0x8000) by (nonlinear_arith)
                requires
                    0 < p <= 0x8000,
            ;
        }
        scale * scale
    } else {
        1
    }
}

/// At level 0 dividing the step count changes nothing; at every coarser level
/// it changes the divisor.
pub proof fn lemma_step_division_differs_above_level_0(level: nat)
    ensures
        level == 0 ==> step_divisor_of(level, true) == step_divisor_of(level, false),
        level >= 1 ==> step_divisor_of(level, true) != step_divisor_of(level, false),
{
    lemma2_to64();
    if level >= 1 {
        vstd::arithmetic::power2::lemma_pow2_strictly_increases(0, level);
        let p = pow2(level) as int;
        assert(p * p > 1) by (nonlinear_arith)
            requires
                p > 1,
        ;
    }
}

/// Each level has twice the directions of the next finer one.
pub proof fn lemma_directions_double(cascade_0_directions: int, level: nat)
    ensures
        directions_of(cascade_0_directions, level + 1) == 2 * directions_of(
            cascade_0_directions,
            level,
        ),
{
    vstd::arithmetic::power2::lemma_pow2_unfold(level + 1);
    let p = pow2(level) as int;
    assert(cascade_0_directions * (2 * p) == 2 * (cascade_0_directions * p)) by (nonlinear_arith);
}

/// `1` for a set flag, `0` otherwise, as the shaders read booleans.
pub open spec fn flag_value(b: bool) -> u32 {
    if b {
        1
    } else {
        0
    }
}

/// A flag as the shaders read it.
pub fn flag_to_u32(b: bool) -> (r: u32)
    ensures
        r == flag_value(b),
{
    if b {
        1
    } else {
        0
    }
}

/// The integer fields of the tracer's per-level uniform. The floating-point
/// tunables that complete the uniform are the same at every level.
#[derive(Clone, Copy, Debug, PartialEq, Eq, Structural)]
pub struct CascadeLevelConfig {
    /// Atlas width of this level divided by the directions of level 0.
    pub cas_w: u32,
    /// Atlas height of this level.
    pub cas_h: u32,
    pub cascade_n: u32,
    pub directions: u32,
    pub cas_0_directions: u32,
    pub cas_0_render_scale: u32,
    pub cascade_count: u32,
    /// Render scale of this level: the level-0 scale times `2^cascade_n`.
    pub render_scale: u32,
    pub square_falloff: u32,
    pub divide_steps_by_square_of_cascade_exp: u32,
}

pub open spec fn level_config_of(
    settings: CascadeSettings,
    level: u32,
    atlas: Extent,
) -> CascadeLevelConfig {
    CascadeLevelConfig {
        cas_w: (atlas.width / settings.cascade_0_directions) as u32,
        cas_h: atlas.height,
        cascade_n: level,
        directions: directions_of(settings.cascade_0_directions as int, level as nat) as u32,
        cas_0_directions: settings.cascade_0_directions,
        cas_0_render_scale: settings.render_scale,
        cascade_count: settings.cascade_count,
        render_scale: (settings.render_scale * level_scale_of(level as nat)) as u32,
        square_falloff: flag_value(settings.square_falloff),
        divide_steps_by_square_of_cascade_exp: flag_value(
            settings.divide_steps_by_square_of_cascade_exp,
        ),
    }
}

/// Facts on the scale of a level below the largest cascade count.
proof fn lemma_level_bounds(settings: CascadeSettings, level: u32)
    requires
        settings.wf(),
        level < settings.cascade_count,
    ensures
        1 <= pow2(level as nat) <= 128,
        settings.cascade_0_directions * pow2(level as nat) <= 32 * 128,
        settings.render_scale * pow2(level as nat) <= 32 * 128,
{
    lemma2_to64();
    assert(level < 8);
    let p = pow2(level as nat) as int;
    assert(1 <= p <= 128);
    let d0 = settings.cascade_0_directions as int;
    let rs = settings.render_scale as int;
    assert(d0 * p <= 32 * 128) by (nonlinear_arith)
        requires
            0 <= d0 <= 32,
            0 < p <= 128,
    ;
    assert(rs * p <= 32 * 128) by (nonlinear_arith)
        requires
            0 <= rs <= 32,
            0 < p <= 128,
    ;
}

/// The tracer's uniform for level `level`, whose atlases have size `atlas`.
pub fn level_config(settings: &CascadeSettings, level: u32, atlas: Extent) -> (r:
    CascadeLevelConfig)
    requires
        settings.wf(),
        level < settings.cascade_count,
    ensures
        r == level_config_of(*settings, level, atlas),
{
    proof {
        lemma_level_bounds(*settings, level);
    }
    let scale = level_scale(level);
    CascadeLevelConfig {
        cas_w: atlas.width / settings.cascade_0_directions,
        cas_h: atlas.height,
        cascade_n: level,
        directions: settings.cascade_0_directions * scale,
        cas_0_directions: settings.cascade_0_directions,
        cas_0_render_scale: settings.render_scale,
        cascade_count: settings.cascade_count,
        render_scale: settings.render_scale * scale,
        square_falloff: flag_to_u32(settings.square_falloff),
        divide_steps_by_square_of_cascade_exp: flag_to_u32(
            settings.divide_steps_by_square_of_cascade_exp,
        ),
    }
}

/// Two levels' uniforms differ only in the fields that depend on the level:
/// the atlas size, the level index, the direction count and the render scale.
pub proof fn lemma_level_configs_share_invariant_fields(
    settings: CascadeSettings,
    level_a: u32,
    atlas_a: Extent,
    level_b: u32,
    atlas_b: Extent,
)
    ensures
        ({
            let a = level_config_of(settings, level_a, atlas_a);
            let b = level_config_of(settings, level_b, atlas_b);
            &&& a.cas_0_directions == b.cas_0_directions
            &&& a.cas_0_render_scale == b.cas_0_render_scale
            &&& a.cascade_count == b.cascade_count
            &&& a.square_falloff == b.square_falloff
            &&& a.divide_steps_by_square_of_cascade_exp == b.divide_steps_by_square_of_cascade_exp
        }),
{
}

/// One tracer pass: the level it writes, the level whose outputs it binds as
/// its coarser input, and its uniform.
#[derive(Clone, Copy, Debug, PartialEq, Eq, Structural)]
pub struct CascadePass {
    pub level: u32,
    pub merge_from: u32,
    pub config: CascadeLevelConfig,
}

/// The level traced by the `i`-th pass: levels go from the coarsest to the
/// finest.
pub open spec fn trace_level_of(cascade_count: u32, i: int) -> u32 {
    (cascade_count - 1 - i) as u32
}

pub open spec fn cascade_pass_of(
    settings: CascadeSettings,
    atlases: Seq<Extent>,
    level: u32,
) -> CascadePass {
    CascadePass {
        level,
        merge_from: merge_source_of(level, settings.cascade_count),
        config: level_config_of(settings, level, atlases[level as int]),
    }
}

/// The tracer passes of one frame, in the order they run: one per level, from
/// the coarsest (`cascade_count - 1`) down to the finest (`0`). `atlases[n]` is
/// the atlas size of level `n`.
pub fn cascade_passes(settings: &CascadeSettings, atlases: &Vec<Extent>) -> (r: Vec<CascadePass>)
    requires
        settings.wf(),
        atlases.len() == settings.cascade_count,
    ensures
        r.len() == settings.cascade_count,
        forall|i: int|
            0 <= i < r.len() ==> #[trigger] r@[i] == cascade_pass_of(
                *settings,
                atlases@,
                trace_level_of(settings.cascade_count, i),
            ),
{
    let mut passes: Vec<CascadePass> = Vec::new();
    let mut level: u32 = settings.cascade_count;
    while level > 0
        invariant
            settings.wf(),
            atlases.len() == settings.cascade_count,
            level <= settings.cascade_count,
            passes.len() == settings.cascade_count - level,
            forall|i: int|
                0 <= i < passes.len() ==> #[trigger] passes@[i] == cascade_pass_of(
                    *settings,
                    atlases@,
                    trace_level_of(settings.cascade_count, i),
                ),
        decreases level,
    {
        level = level - 1;
        let config = level_config(settings, level, atlases[level as usize]);
        let pass = CascadePass {
            level,
            merge_from: merge_source(level, settings.cascade_count),
            config,
        };
        passes.push(pass);
    }
    passes
}

/// The coarse-to-fine order: the first pass traces the topmost level and binds
/// a placeholder, level 0, as its coarser input; every later pass binds as its
/// coarser input exactly the level that the pass before it wrote. The last pass
/// traces level 0.
pub proof fn lemma_each_pass_reads_previous_output(settings: CascadeSettings, atlases: Seq<
    Extent,
>, i: int)
    requires
        settings.wf(),
        0 <= i < settings.cascade_count,
    ensures
        i == 0 ==> cascade_pass_of(settings, atlases, trace_level_of(settings.cascade_count, i))
            == (CascadePass {
            level: (settings.cascade_count - 1) as u32,
            merge_from: 0,
            config: level_config_of(
                settings,
                (settings.cascade_count - 1) as u32,
                atlases[settings.cascade_count - 1],
            ),
        }),
        i > 0 ==> cascade_pass_of(
            settings,
            atlases,
            trace_level_of(settings.cascade_count, i),
        ).merge_from == cascade_pass_of(
            settings,
            atlases,
            trace_level_of(settings.cascade_count, i - 1),
        ).level,
        i == settings.cascade_count - 1 ==> trace_level_of(settings.cascade_count, i) == 0,
{
}

/// The integer fields of the uniform shared by the SH projection and the
/// resolve pass, both of which read level 0.
#[derive(Clone, Copy, Debug, PartialEq, Eq, Structural)]
pub struct ProbeGridConfig {
    /// Atlas width of level 0.
    pub cas_w: u32,
    /// Atlas height of level 0.
    pub cas_h: u32,
    pub directions: u32,
    pub render_scale: u32,
    pub cascade_count: u32,
}

pub open spec fn probe_grid_config_of(settings: CascadeSettings, atlas_0: Extent) -> ProbeGridConfig {
    ProbeGridConfig {
        cas_w: atlas_0.width,
        cas_h: atlas_0.height,
        directions: settings.cascade_0_directions,
        render_scale: settings.render_scale,
        cascade_count: settings.cascade_count,
    }
}

/// The uniform of the SH projection and resolve passes, over the level-0 atlas.
pub fn probe_grid_config(settings: &CascadeSettings, atlas_0: Extent) -> (r: ProbeGridConfig)
    ensures
        r == probe_grid_config_of(*settings, atlas_0),
{
    ProbeGridConfig {
        cas_w: atlas_0.width,
        cas_h: atlas_0.height,
        directions: settings.cascade_0_directions,
        render_scale: settings.render_scale,
        cascade_count: settings.cascade_count,
    }
}

} // verus!
