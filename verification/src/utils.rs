//! Rectangular hitboxes, the overlap test used for every entity-pair
//! interaction, and the deterministic pseudo-random number generator.

use vstd::prelude::*;

verus! {

/// One pixel is `SCALE` coordinate units: positions move in milli-pixels.
pub const SCALE: i64 = 1000;

/// Largest magnitude a coordinate may take; position updates clamp here.
pub const COORD_LIMIT: i64 = 1_000_000_000_000;

/// Largest width or height (in pixels) of a hitbox or of the screen.
pub const MAX_DIM: u32 = 1_000_000;

/// Axis-aligned rectangle used both for placement and for collision
/// testing.  `x`/`y` are the top-left corner in milli-pixels; `w`/`h`
/// are the extent in whole pixels.
#[derive(Clone, Copy, PartialEq, Eq, Structural, Debug)]
pub struct Hitbox {
    pub x: i64,
    pub y: i64,
    pub w: u32,
    pub h: u32,
}

impl Hitbox {
    /// Well-formed hitboxes have positive extents and bounded coordinates.
    pub open spec fn wf(self) -> bool {
        &&& 0 < self.w <= MAX_DIM
        &&& 0 < self.h <= MAX_DIM
        &&& -COORD_LIMIT <= self.x <= COORD_LIMIT
        &&& -COORD_LIMIT <= self.y <= COORD_LIMIT
    }
}

/// Two rectangles overlap iff each one starts before the other ends on
/// both axes.  Boundary contact (`==`) counts as non-overlapping.
pub open spec fn overlaps(a: Hitbox, b: Hitbox) -> bool {
    &&& a.x < b.x + b.w * SCALE
    &&& a.x + a.w * SCALE > b.x
    &&& a.y < b.y + b.h * SCALE
    &&& a.y + a.h * SCALE > b.y
}

/// The overlap test is symmetric in its two arguments.
pub proof fn lemma_overlaps_symmetric(a: Hitbox, b: Hitbox)
    ensures
        overlaps(a, b) == overlaps(b, a),
{
}

/// Rectangles that merely touch along an edge do not overlap.
pub proof fn lemma_touching_never_overlaps(a: Hitbox, b: Hitbox)
    requires
        a.x + a.w * SCALE == b.x || b.x + b.w * SCALE == a.x
            || a.y + a.h * SCALE == b.y || b.y + b.h * SCALE == a.y,
    ensures
        !overlaps(a, b),
{
}

/// Collision check between two hitboxes; the executable face of
/// `overlaps`.
pub fn check_collision(hitbox1: &Hitbox, hitbox2: &Hitbox) -> (r: bool)
    requires
        hitbox1.wf(),
        hitbox2.wf(),
    ensures
        r == overlaps(*hitbox1, *hitbox2),
{
    let x1 = hitbox1.x;
    let y1 = hitbox1.y;
    let w1 = hitbox1.w as i64 * SCALE;
    let h1 = hitbox1.h as i64 * SCALE;
    let x2 = hitbox2.x;
    let y2 = hitbox2.y;
    let w2 = hitbox2.w as i64 * SCALE;
    let h2 = hitbox2.h as i64 * SCALE;
    x1 < x2 + w2 && x1 + w1 > x2 && y1 < y2 + h2 && y1 + h1 > y2
}

/// Largest per-frame coordinate delta `add_coord` accepts.
pub const DELTA_LIMIT: i64 = 0x1_0000_0000_0000;

/// Clamp a coordinate into the representable band.
pub open spec fn clamp_coord_spec(v: int) -> int {
    if v < -COORD_LIMIT {
        -COORD_LIMIT as int
    } else if v > COORD_LIMIT {
        COORD_LIMIT as int
    } else {
        v
    }
}

/// Advance a coordinate by a delta, clamping at the representable band
/// so that runaway entities cannot push a position out of range.
pub fn add_coord(a: i64, d: i64) -> (r: i64)
    requires
        -COORD_LIMIT <= a <= COORD_LIMIT,
        -DELTA_LIMIT <= d <= DELTA_LIMIT,
    ensures
        r == clamp_coord_spec(a + d),
        -COORD_LIMIT <= r <= COORD_LIMIT,
{
    let s = a + d;
    if s < -COORD_LIMIT {
        -COORD_LIMIT
    } else if s > COORD_LIMIT {
        COORD_LIMIT
    } else {
        s
    }
}

/// Clamp a value into `[lo, hi]` (for `lo <= hi`).
pub open spec fn clamp_between_spec(v: int, lo: int, hi: int) -> int {
    if v < lo {
        lo
    } else if v > hi {
        hi
    } else {
        v
    }
}

/// Saturating subtraction on 32-bit counters.
pub open spec fn sat_sub_u32(a: u32, b: u32) -> u32 {
    if a >= b {
        (a - b) as u32
    } else {
        0u32
    }
}

/// Saturating addition on 32-bit counters.
pub open spec fn sat_add_u32(a: u32, b: u32) -> u32 {
    if a + b <= 0xffff_ffffu32 {
        (a + b) as u32
    } else {
        0xffff_ffffu32
    }
}

/// One step of the linear congruential generator, modulo 2^32 for the
/// multiply-add and reduced into 31 bits.
#[verifier::opaque]
pub open spec fn lcg(seed: u32) -> u32 {
    (((seed * 1103515245 + 12345) % 0x1_0000_0000) % 0x8000_0000) as u32
}

/// Pseudo-random number generator step: every randomized choice of the
/// simulation draws from chains of this function.
pub fn rand_with_seed(seed: u32) -> (r: u32)
    ensures
        r == lcg(seed),
        r < 0x8000_0000,
{
    let t = seed.wrapping_mul(1103515245).wrapping_add(12345);
    proof {
        reveal(lcg);
        vstd::arithmetic::div_mod::lemma_add_mod_noop(
            seed as int * 1103515245,
            12345,
            0x1_0000_0000,
        );
        vstd::arithmetic::div_mod::lemma_mod_mod(
            seed as int * 1103515245,
            0x1_0000_0000,
            1,
        );
    }
    t % 0x8000_0000u32
}

/// Deterministic random source: a seedable stream of 32-bit draws.
#[derive(Clone, Copy, PartialEq, Eq, Structural, Debug)]
pub struct Rng {
    pub state: u32,
}

impl Rng {
    pub fn new(seed: u32) -> (r: Rng)
        ensures
            r.state == seed,
    {
        Rng { state: seed }
    }

    /// Advance the stream and return the fresh draw.
    pub fn next_draw(&mut self) -> (r: u32)
        ensures
            final(self).state == lcg(old(self).state),
            r == lcg(old(self).state),
    {
        self.state = rand_with_seed(self.state);
        self.state
    }
}

} // verus!
