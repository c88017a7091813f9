//! Canvas geometry and the integer part of noise-driven placement.
use vstd::prelude::*;

verus! {

/// Width of the canvas, in pixels.
pub const IMAGE_WIDTH: u32 = 1104;

/// Height of the canvas, in pixels.
pub const IMAGE_HEIGHT: u32 = 872;

/// Fixed-point scale of a noise sample: a sample `s` stands for `s / NOISE_SCALE`,
/// so the noise range [-1, 1] is [-NOISE_SCALE, NOISE_SCALE].
pub const NOISE_SCALE: i32 = 1_000_000;

/// Side of the square tile that one compute workgroup covers.
pub const WORKGROUP_SIZE: u32 = 8;

/// An unsigned 2D integer vector: a pixel coordinate or a size.
#[derive(Clone, Copy, Debug, PartialEq, Eq, Structural)]
pub struct Coord {
    pub x: u32,
    pub y: u32,
}

/// The sample clamped to the noise range.
pub open spec fn clamp_sample(sample: int) -> int {
    if sample < -NOISE_SCALE {
        -NOISE_SCALE as int
    } else if sample > NOISE_SCALE {
        NOISE_SCALE as int
    } else {
        sample
    }
}

/// Remaps a noise sample from [-1, 1] to [0, 1], scales it by `extent` and
/// rounds to the nearest integer (halves up); the edge value `extent` itself
/// is folded onto the last pixel `extent - 1`.
pub open spec fn remap_spec(sample: int, extent: int) -> int {
    let s = clamp_sample(sample);
    let v = ((s + NOISE_SCALE) * extent + NOISE_SCALE) / (2 * NOISE_SCALE as int);
    if v >= extent {
        extent - 1
    } else {
        v
    }
}

/// The canvas position that a pair of noise samples selects.
pub open spec fn position_spec(sample_x: int, sample_y: int) -> Coord {
    Coord {
        x: remap_spec(sample_x, IMAGE_WIDTH as int) as u32,
        y: remap_spec(sample_y, IMAGE_HEIGHT as int) as u32,
    }
}

/// Whether `p` lies on the canvas.
pub open spec fn on_canvas(p: Coord) -> bool {
    p.x < IMAGE_WIDTH && p.y < IMAGE_HEIGHT
}

proof fn lemma_remap_bounds(sample: int, extent: int)
    requires
        extent >= 1,
    ensures
        0 <= remap_spec(sample, extent) < extent,
{
    let s = clamp_sample(sample);
    let n = (s + NOISE_SCALE) * extent + NOISE_SCALE;
    assert(0 <= s + NOISE_SCALE);
    assert(0 <= (s + NOISE_SCALE) * extent) by (nonlinear_arith)
        requires
            0 <= s + NOISE_SCALE,
            extent >= 1,
    ;
    assert(n / (2 * NOISE_SCALE as int) >= 0);
}

/// Maps one noise sample onto [0, extent).
pub fn remap_sample(sample: i32, extent: u32) -> (r: u32)
    requires
        extent >= 1,
    ensures
        r as int == remap_spec(sample as int, extent as int),
        r < extent,
{
    proof {
        lemma_remap_bounds(sample as int, extent as int);
    }
    let s: i32 = if sample < -NOISE_SCALE {
        -NOISE_SCALE
    } else if sample > NOISE_SCALE {
        NOISE_SCALE
    } else {
        sample
    };
    let shifted: u64 = (s + NOISE_SCALE) as u64;
    assert(shifted * (extent as u64) <= 2_000_000 * 0xffff_ffffu64) by (nonlinear_arith)
        requires
            shifted <= 2_000_000,
    ;
    let v: u64 = (shifted * (extent as u64) + (NOISE_SCALE as u64)) / (2 * NOISE_SCALE as u64);
    if v >= extent as u64 {
        extent - 1
    } else {
        v as u32
    }
}

/// The canvas position selected by two noise samples, one per axis. The
/// result is a function of the samples alone and always lies on the canvas.
pub fn position_from_samples(sample_x: i32, sample_y: i32) -> (r: Coord)
    ensures
        r == position_spec(sample_x as int, sample_y as int),
        on_canvas(r),
{
    Coord { x: remap_sample(sample_x, IMAGE_WIDTH), y: remap_sample(sample_y, IMAGE_HEIGHT) }
}

/// The workgroup grid for a texture: each dimension divided by the tile size.
pub fn workgroups(texture_size: Coord) -> (r: Coord)
    ensures
        r.x == texture_size.x / WORKGROUP_SIZE,
        r.y == texture_size.y / WORKGROUP_SIZE,
{
    Coord { x: texture_size.x / WORKGROUP_SIZE, y: texture_size.y / WORKGROUP_SIZE }
}

} // verus!
