use vstd::prelude::*;
use crate::rng::random_in;

verus! {

/// Fixed-point scale: number of coordinate units per logical pixel.
pub const SCALE: i64 = 1000;

/// Exclusive upper bound on a spawned bubble's radius: 120 pixels.
pub const MAX_RADIUS: i64 = 120 * SCALE;

/// Largest screen extent (width, height) and bubble radius the update rule
/// handles, in units: one million pixels.
pub const MAX_EXTENT: i64 = 1_000_000_000;

/// Largest frame time the update rule handles, in thousandths of a second:
/// one hundred thousand seconds.
pub const MAX_DELTA: i64 = 100_000_000;

/// Coordinate range preserved by the update rule, in units.
pub const MAX_POS: i64 = 4_000_000_000;

/// How far a bubble moves up in one frame: `speed * dt * 16 / SCALE` units,
/// where `dt` is in thousandths of a second, so a bubble with `speed ==
/// SCALE` rises 16 pixels per second. The division truncates; both factors
/// are nonnegative wherever this is applied.
pub open spec fn displacement(speed: int, dt: int) -> int {
    (speed * dt * 16) / (SCALE as int)
}

/// A single animated circle: position of its centre, radius, and upward
/// speed, all in fixed-point units.
#[derive(Clone, Copy, PartialEq, Eq, Structural, Debug)]
pub struct Bubble {
    pub x: i64,
    pub y: i64,
    pub radius: i64,
    pub speed: i64,
}

impl Bubble {
    /// The ranges within which the update arithmetic is exact and overflow
    /// free: nonnegative radius and speed, bounded extents, coordinates in a
    /// window the update rule preserves.
    pub open spec fn wf(self) -> bool {
        &&& 0 <= self.radius <= MAX_EXTENT
        &&& 0 <= self.speed <= SCALE
        &&& -MAX_POS <= self.x <= MAX_POS
        &&& -MAX_POS <= self.y <= MAX_POS
    }

    /// Vertical position after drifting for `dt` thousandths of a second,
    /// before any wraparound.
    pub open spec fn moved_y(self, dt: int) -> int {
        self.y - displacement(self.speed as int, dt)
    }

    /// Whether, after drifting for `dt`, the bubble has fully left the top of
    /// the screen: its lowest point is at or above the top edge.
    pub open spec fn leaves_top(self, dt: int) -> bool {
        self.moved_y(dt) + self.radius <= 0
    }

    /// Vertical position after one update on a screen of the given height:
    /// the drifted position, or `height + radius` (just below the visible
    /// area) when the bubble has fully left the top.
    pub open spec fn updated_y(self, dt: int, height: int) -> int {
        if self.leaves_top(dt) {
            height + self.radius
        } else {
            self.moved_y(dt)
        }
    }
}

/// One update step relates the new bubble to the old one: only `y` changes,
/// and it changes to `updated_y`.
pub open spec fn updated_from(new: Bubble, prev: Bubble, dt: int, height: int) -> bool {
    &&& new.x == prev.x
    &&& new.radius == prev.radius
    &&& new.speed == prev.speed
    &&& new.y == prev.updated_y(dt, height)
}

/// The field ranges every freshly spawned bubble satisfies: position inside
/// the screen, radius below `MAX_RADIUS`, speed below `SCALE` (one pixel per
/// sixteenth of a second).
pub open spec fn spawned_in(b: Bubble, width: int, height: int) -> bool {
    &&& 0 <= b.x < width
    &&& 0 <= b.y < height
    &&& 0 <= b.radius < MAX_RADIUS
    &&& 0 <= b.speed < SCALE
}

impl Bubble {
    /// A bubble with each field drawn independently and uniformly from its
    /// range: position over the screen, radius over `[0, MAX_RADIUS)`, speed
    /// over `[0, SCALE)`.
    pub fn spawn_random(width: i64, height: i64) -> (b: Bubble)
        requires
            0 < width <= MAX_EXTENT,
            0 < height <= MAX_EXTENT,
        ensures
            b.wf(),
            spawned_in(b, width as int, height as int),
    {
        Bubble {
            x: random_in(0, width),
            y: random_in(0, height),
            radius: random_in(0, MAX_RADIUS),
            speed: random_in(0, SCALE),
        }
    }

    /// One frame: drift up by `displacement(speed, delta_time)` and, once the
    /// bubble has fully left the top of the screen, wrap around to just below
    /// the bottom edge, at `height + radius`.
    pub fn update(&mut self, delta_time: i64, height: i64)
        requires
            old(self).wf(),
            0 <= delta_time <= MAX_DELTA,
            0 <= height <= MAX_EXTENT,
        ensures
            final(self).wf(),
            updated_from(*final(self), *old(self), delta_time as int, height as int),
    {
        proof {
            assert(0 <= self.speed * delta_time <= SCALE * MAX_DELTA
                && 0 <= self.speed * delta_time * 16 <= SCALE * MAX_DELTA * 16)
                by (nonlinear_arith)
                requires
                    0 <= self.speed <= SCALE,
                    0 <= delta_time <= MAX_DELTA,
            ;
        }
        let prod: i64 = self.speed * delta_time * 16;
        proof {
            assert(0 <= (prod as int) / (SCALE as int) <= prod as int) by (nonlinear_arith)
                requires
                    0 <= prod as int,
            ;
        }
        let disp: i64 = (prod as u64 / (SCALE as u64)) as i64;
        assert(disp == displacement(self.speed as int, delta_time as int));
        self.y = self.y - disp;
        if self.y + self.radius <= 0 {
            self.y = height + self.radius;
        }
    }

    /// Whether the bubble lies inside the ranges the update rule handles;
    /// decides `wf`.
    pub fn is_well_formed(&self) -> (r: bool)
        ensures
            r == self.wf(),
    {
        0 <= self.radius && self.radius <= MAX_EXTENT
            && 0 <= self.speed && self.speed <= SCALE
            && -MAX_POS <= self.x && self.x <= MAX_POS
            && -MAX_POS <= self.y && self.y <= MAX_POS
    }
}

/// Between wraparounds the vertical position never increases: as long as the
/// drifted bubble has not fully left the top of the screen, an update can
/// only lower `y` (or leave it unchanged).
pub proof fn lemma_update_monotonic(b: Bubble, dt: int, height: int)
    requires
        b.wf(),
        0 <= dt,
        !b.leaves_top(dt),
    ensures
        b.updated_y(dt, height) <= b.y,
{
    assert(0 <= b.speed * dt * 16) by (nonlinear_arith)
        requires
            0 <= b.speed,
            0 <= dt,
    ;
    assert(0 <= displacement(b.speed as int, dt)) by (nonlinear_arith)
        requires
            0 <= b.speed * dt * 16,
    ;
}

/// Wraparound is exact: once the drifted bubble has fully left the top of the
/// screen, the update places it at `height + radius`, nothing else.
pub proof fn lemma_wraparound_exact(b: Bubble, dt: int, height: int)
    requires
        b.leaves_top(dt),
    ensures
        b.updated_y(dt, height) == height + b.radius,
{
}

/// Repeated updates apply one and the same rule: if `b1` comes from updating
/// `b0` and `b2` from updating `b1`, and neither step wraps, then `y` never
/// increases across the two frames.
pub proof fn lemma_repeated_updates_monotonic(
    b0: Bubble,
    b1: Bubble,
    b2: Bubble,
    dt1: int,
    dt2: int,
    height: int,
)
    requires
        b0.wf(),
        b1.wf(),
        updated_from(b1, b0, dt1, height),
        updated_from(b2, b1, dt2, height),
        0 <= dt1,
        0 <= dt2,
        !b0.leaves_top(dt1),
        !b1.leaves_top(dt2),
    ensures
        b2.y <= b1.y <= b0.y,
{
    lemma_update_monotonic(b0, dt1, height);
    lemma_update_monotonic(b1, dt2, height);
}

} // verus!
