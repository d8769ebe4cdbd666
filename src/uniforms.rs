//! The uniform buffers of the tracer, the projection and the resolve pass, as
//! the bytes the shaders read: 32-bit little-endian words in a fixed order,
//! padded to a multiple of 16 bytes.
//!
//! Floating-point tunables enter as their IEEE-754 bit patterns; they are
//! copied, never computed with.
use vstd::prelude::*;
use crate::cascade::{CascadeLevelConfig, ProbeGridConfig};

verus! {

/// Size in bytes of the tracer's uniform.
pub const TRACER_UNIFORM_SIZE: usize = 96;

/// Size in bytes of the projection's uniform.
pub const SH_UNIFORM_SIZE: usize = 32;

/// Size in bytes of the resolve pass's uniform.
pub const RESOLVE_UNIFORM_SIZE: usize = 48;

/// Byte `k` (0 = least significant) of `w`.
pub open spec fn byte_of(w: u32, k: int) -> u8 {
    if k == 0 {
        (w & 0xff) as u8
    } else if k == 1 {
        ((w >> 8u32) & 0xff) as u8
    } else if k == 2 {
        ((w >> 16u32) & 0xff) as u8
    } else {
        ((w >> 24u32) & 0xff) as u8
    }
}

/// The word whose little-endian bytes are `b0, b1, b2, b3`.
pub open spec fn word_of(b0: u8, b1: u8, b2: u8, b3: u8) -> u32 {
    (b0 as u32) | ((b1 as u32) << 8u32) | ((b2 as u32) << 16u32) | ((b3 as u32) << 24u32)
}

/// The little-endian bytes of `words`, one word after the other.
pub open spec fn packed_of(words: Seq<u32>) -> Seq<u8> {
    Seq::new(4 * words.len(), |i: int| byte_of(words[i / 4], i % 4))
}

/// The little-endian encoding of `words`.
pub fn pack_words(words: &Vec<u32>) -> (r: Vec<u8>)
    requires
        4 * words.len() <= usize::MAX,
    ensures
        r@ == packed_of(words@),
{
    let mut bytes: Vec<u8> = Vec::new();
    let mut i: usize = 0;
    while i < words.len()
        invariant
            4 * words.len() <= usize::MAX,
            i <= words.len(),
            bytes.len() == 4 * i,
            forall|j: int| 0 <= j < bytes.len() ==> #[trigger] bytes@[j] == byte_of(words@[j / 4], j % 4),
        decreases words.len() - i,
    {
        let w = words[i];
        bytes.push((w & 0xff) as u8);
        bytes.push(((w >> 8u32) & 0xff) as u8);
        bytes.push(((w >> 16u32) & 0xff) as u8);
        bytes.push(((w >> 24u32) & 0xff) as u8);
        proof {
            assert forall|j: int| 4 * i <= j < 4 * i + 4 implies #[trigger] bytes@[j] == byte_of(
                words@[j / 4],
                j % 4,
            ) by {
                assert(j / 4 == i as int);
            }
        }
        i = i + 1;
    }
    assert(bytes@ =~= packed_of(words@));
    bytes
}

/// Reads back word `k` of a packed buffer.
pub fn unpack_word(bytes: &Vec<u8>, k: usize) -> (r: u32)
    requires
        4 * k + 3 < bytes.len(),
    ensures
        r == word_of(bytes@[4 * k], bytes@[4 * k + 1], bytes@[4 * k + 2], bytes@[4 * k + 3]),
{
    let b0 = bytes[4 * k] as u32;
    let b1 = bytes[4 * k + 1] as u32;
    let b2 = bytes[4 * k + 2] as u32;
    let b3 = bytes[4 * k + 3] as u32;
    b0 | (b1 << 8u32) | (b2 << 16u32) | (b3 << 24u32)
}

/// The four bytes of a word give the word back.
pub proof fn lemma_word_round_trip(w: u32)
    ensures
        word_of(byte_of(w, 0), byte_of(w, 1), byte_of(w, 2), byte_of(w, 3)) == w,
{
    assert(((w & 0xff) as u8 as u32) | ((((w >> 8u32) & 0xff) as u8 as u32) << 8u32) | ((((w
        >> 16u32) & 0xff) as u8 as u32) << 16u32) | ((((w >> 24u32) & 0xff) as u8 as u32)
        << 24u32) == w) by (bit_vector);
}

/// Each word of a packed buffer reads back unchanged from its four bytes.
pub proof fn lemma_pack_round_trip(words: Seq<u32>, k: int)
    requires
        0 <= k < words.len(),
    ensures
        packed_of(words).len() == 4 * words.len(),
        word_of(
            packed_of(words)[4 * k],
            packed_of(words)[4 * k + 1],
            packed_of(words)[4 * k + 2],
            packed_of(words)[4 * k + 3],
        ) == words[k],
{
    assert((4 * k) / 4 == k && (4 * k) % 4 == 0);
    assert((4 * k + 1) / 4 == k && (4 * k + 1) % 4 == 1);
    assert((4 * k + 2) / 4 == k && (4 * k + 2) % 4 == 2);
    assert((4 * k + 3) / 4 == k && (4 * k + 3) % 4 == 3);
    lemma_word_round_trip(words[k]);
}

/// Bit patterns of the tracer's floating-point tunables.
#[derive(Clone, Copy, Debug, PartialEq, Eq, Structural)]
pub struct TracerTunables {
    pub distance_rejection: u32,
    pub normal_rejection: u32,
    pub falloff: u32,
    pub brightness: u32,
    pub backside_illumination: u32,
    pub depth_mip_min: u32,
    pub mip_min: u32,
    pub mip_max: u32,
    pub interval_overlap: u32,
    pub cascade_0_dist: u32,
    pub horizon_occlusion: u32,
}

/// The tracer's uniform, word by word: 24 words, the last three padding.
pub open spec fn tracer_words_of(c: CascadeLevelConfig, t: TracerTunables) -> Seq<u32> {
    seq![
        c.cas_w,
        c.cas_h,
        c.cascade_n,
        c.directions,
        c.cas_0_directions,
        c.cas_0_render_scale,
        c.cascade_count,
        c.render_scale,
        t.distance_rejection,
        t.normal_rejection,
        t.falloff,
        c.square_falloff,
        t.brightness,
        t.backside_illumination,
        t.depth_mip_min,
        t.mip_min,
        t.mip_max,
        t.interval_overlap,
        t.cascade_0_dist,
        c.divide_steps_by_square_of_cascade_exp,
        t.horizon_occlusion,
        0u32,
        0u32,
        0u32,
    ]
}

/// The bytes of the tracer's uniform for one level.
pub fn tracer_uniform_bytes(config: &CascadeLevelConfig, tunables: &TracerTunables) -> (r: Vec<
    u8,
>)
    ensures
        r@ == packed_of(tracer_words_of(*config, *tunables)),
        r.len() == TRACER_UNIFORM_SIZE,
{
    let words: Vec<u32> = vec![
        config.cas_w,
        config.cas_h,
        config.cascade_n,
        config.directions,
        config.cas_0_directions,
        config.cas_0_render_scale,
        config.cascade_count,
        config.render_scale,
        tunables.distance_rejection,
        tunables.normal_rejection,
        tunables.falloff,
        config.square_falloff,
        tunables.brightness,
        tunables.backside_illumination,
        tunables.depth_mip_min,
        tunables.mip_min,
        tunables.mip_max,
        tunables.interval_overlap,
        tunables.cascade_0_dist,
        config.divide_steps_by_square_of_cascade_exp,
        tunables.horizon_occlusion,
        0,
        0,
        0,
    ];
    assert(words@ =~= tracer_words_of(*config, *tunables));
    pack_words(&words)
}

/// The projection's uniform, word by word: 8 words, the last two padding.
pub open spec fn sh_words_of(g: ProbeGridConfig, hysteresis: u32) -> Seq<u32> {
    seq![g.cas_w, g.cas_h, g.directions, g.render_scale, g.cascade_count, hysteresis, 0u32, 0u32]
}

/// The bytes of the projection's uniform; `hysteresis` is a bit pattern.
pub fn sh_uniform_bytes(grid: &ProbeGridConfig, hysteresis: u32) -> (r: Vec<u8>)
    ensures
        r@ == packed_of(sh_words_of(*grid, hysteresis)),
        r.len() == SH_UNIFORM_SIZE,
{
    let words: Vec<u32> = vec![
        grid.cas_w,
        grid.cas_h,
        grid.directions,
        grid.render_scale,
        grid.cascade_count,
        hysteresis,
        0,
        0,
    ];
    assert(words@ =~= sh_words_of(*grid, hysteresis));
    pack_words(&words)
}

/// Bit patterns of the resolve pass's floating-point tunables.
#[derive(Clone, Copy, Debug, PartialEq, Eq, Structural)]
pub struct ResolveTunables {
    pub distance_rejection: u32,
    pub normal_rejection: u32,
    pub hysteresis: u32,
    pub rough_specular: u32,
    pub rough_specular_sharpness: u32,
}

/// The resolve pass's uniform, word by word: 12 words, the last two padding.
pub open spec fn resolve_words_of(g: ProbeGridConfig, t: ResolveTunables) -> Seq<u32> {
    seq![
        g.cas_w,
        g.cas_h,
        g.directions,
        g.render_scale,
        g.cascade_count,
        t.distance_rejection,
        t.normal_rejection,
        t.hysteresis,
        t.rough_specular,
        t.rough_specular_sharpness,
        0u32,
        0u32,
    ]
}

/// The bytes of the resolve pass's uniform.
pub fn resolve_uniform_bytes(grid: &ProbeGridConfig, tunables: &ResolveTunables) -> (r: Vec<u8>)
    ensures
        r@ == packed_of(resolve_words_of(*grid, *tunables)),
        r.len() == RESOLVE_UNIFORM_SIZE,
{
    let words: Vec<u32> = vec![
        grid.cas_w,
        grid.cas_h,
        grid.directions,
        grid.render_scale,
        grid.cascade_count,
        tunables.distance_rejection,
        tunables.normal_rejection,
        tunables.hysteresis,
        tunables.rough_specular,
        tunables.rough_specular_sharpness,
        0,
        0,
    ];
    assert(words@ =~= resolve_words_of(*grid, *tunables));
    pack_words(&words)
}

} // verus!
