use vstd::prelude::*;
use crate::physics::Player;

verus! {

/// Lowest gap center an obstacle may have.
pub const GAP_CENTER_LOW: i32 = 10;

/// One past the highest gap center an obstacle may have.
pub const GAP_CENTER_HIGH: i32 = 40;

/// Gap size of the first obstacle, at score zero.
pub const BASE_GAP_SIZE: i64 = 20;

/// The gap never closes below this size.
pub const MIN_GAP_SIZE: i64 = 2;

/// A wall at column `x` with an opening of `size` cells around `gap_y`.
/// The size is wide enough to hold the one made for any `i32` score.
pub struct Obstacle {
    pub x: i32,
    pub gap_y: i32,
    pub size: i64,
}

/// Gap size for an obstacle made at the given score: `max(2, 20 - score)`.
pub open spec fn gap_size_for(score: int) -> int {
    if BASE_GAP_SIZE - score < MIN_GAP_SIZE {
        MIN_GAP_SIZE as int
    } else {
        BASE_GAP_SIZE - score
    }
}

/// A drawn gap center, clamped into `[GAP_CENTER_LOW, GAP_CENTER_HIGH)`.
pub open spec fn clamp_center(draw: int) -> int {
    if draw < GAP_CENTER_LOW {
        GAP_CENTER_LOW as int
    } else if draw >= GAP_CENTER_HIGH {
        GAP_CENTER_HIGH - 1
    } else {
        draw
    }
}

/// Whether a body at height `y` (tenths) in column `px` strikes a wall at
/// column `ox` whose gap spans rows `top ..= bottom`.
pub open spec fn hits(px: int, y: int, ox: int, top: int, bottom: int) -> bool {
    px == ox && (y < top * 10 || y > bottom * 10)
}

impl Obstacle {
    pub open spec fn wf(&self) -> bool {
        &&& GAP_CENTER_LOW <= self.gap_y < GAP_CENTER_HIGH
        &&& MIN_GAP_SIZE <= self.size
        &&& self.size <= BASE_GAP_SIZE - (i32::MIN as int)
    }

    pub open spec fn spec_gap_top(&self) -> int {
        self.gap_y - self.size / 2
    }

    pub open spec fn spec_gap_bottom(&self) -> int {
        self.gap_y + self.size / 2
    }

    /// Makes the obstacle at column `x` for the given score, its gap centered
    /// on `draw` (a value outside the allowed range is clamped into it).
    pub fn new(x: i32, score: i32, draw: i32) -> (r: Obstacle)
        ensures
            r.x == x,
            r.gap_y == clamp_center(draw as int),
            r.size == gap_size_for(score as int),
            r.size >= MIN_GAP_SIZE,
            r.wf(),
    {
        let gap_y: i32 = if draw < GAP_CENTER_LOW {
            GAP_CENTER_LOW
        } else if draw >= GAP_CENTER_HIGH {
            GAP_CENTER_HIGH - 1
        } else {
            draw
        };
        let shrunk: i64 = BASE_GAP_SIZE - score as i64;
        let size: i64 = if shrunk < MIN_GAP_SIZE {
            MIN_GAP_SIZE
        } else {
            shrunk
        };
        Obstacle { x, gap_y, size }
    }

    /// The last open row from the top: `gap_y - size / 2`.
    pub fn gap_top(&self) -> (r: i64)
        requires
            self.wf(),
        ensures
            r == self.spec_gap_top(),
    {
        self.gap_y as i64 - self.size / 2
    }

    /// The last open row from the bottom: `gap_y + size / 2`.
    pub fn gap_bottom(&self) -> (r: i64)
        requires
            self.wf(),
        ensures
            r == self.spec_gap_bottom(),
    {
        self.gap_y as i64 + self.size / 2
    }

    /// Whether `player` is in this obstacle's column and strictly above or
    /// below its gap.
    pub fn is_hit(&self, player: &Player) -> (r: bool)
        requires
            self.wf(),
        ensures
            r == hits(
                player.x as int,
                player.y as int,
                self.x as int,
                self.spec_gap_top(),
                self.spec_gap_bottom(),
            ),
    {
        let does_x_match = player.x == self.x;
        let above_gap = (player.y as i64) < self.gap_top() * 10;
        let below_gap = (player.y as i64) > self.gap_bottom() * 10;
        does_x_match && (above_gap || below_gap)
    }
}

/// Whatever the score, a new obstacle leaves a gap of at least two cells.
pub proof fn lemma_gap_never_closes(score: int)
    ensures
        gap_size_for(score) >= MIN_GAP_SIZE,
        score <= 18 ==> gap_size_for(score) == BASE_GAP_SIZE - score,
        score >= 18 ==> gap_size_for(score) == MIN_GAP_SIZE,
{
}

/// The hit test is the column match together with a position strictly
/// outside the gap: a body exactly on a gap edge is never hit.
pub proof fn lemma_hit_iff_outside_gap(o: Obstacle, p: Player)
    requires
        o.wf(),
    ensures
        hits(p.x as int, p.y as int, o.x as int, o.spec_gap_top(), o.spec_gap_bottom())
            <==> (p.x == o.x && (p.y < o.spec_gap_top() * 10 || p.y > o.spec_gap_bottom() * 10)),
        p.y == o.spec_gap_top() * 10 ==> !hits(
            p.x as int,
            p.y as int,
            o.x as int,
            o.spec_gap_top(),
            o.spec_gap_bottom(),
        ),
        p.y == o.spec_gap_bottom() * 10 ==> !hits(
            p.x as int,
            p.y as int,
            o.x as int,
            o.spec_gap_top(),
            o.spec_gap_bottom(),
        ),
        p.x != o.x ==> !hits(
            p.x as int,
            p.y as int,
            o.x as int,
            o.spec_gap_top(),
            o.spec_gap_bottom(),
        ),
{
}

} // verus!
