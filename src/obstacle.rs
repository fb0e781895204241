use vstd::prelude::*;

use crate::draw::{is_glyph, Color, Draw};
use crate::player::Player;
use crate::{trunc_div, SCREEN_HEIGHT};

verus! {

/// Lowest gap centre a spawned obstacle can have.
pub const GAP_CENTER_MIN: i32 = 10;

/// One past the highest gap centre a spawned obstacle can have.
pub const GAP_CENTER_END: i32 = 30;

/// Gap size of an obstacle spawned at score zero.
pub const LARGEST_GAP: i32 = 20;

/// The gap never shrinks below this.
pub const SMALLEST_GAP: i32 = 2;

/// A vertical wall with one gap in it.
#[derive(Clone, Copy, Debug, PartialEq, Eq, Structural)]
pub struct Obstacle {
    /// World-space column of the wall.
    pub x: i32,
    /// Row at the centre of the gap.
    pub gap_y: i32,
    /// Height of the gap.
    pub size: i32,
}

/// Gap size for an obstacle spawned at `score`: shrinks by one per point, never below the minimum.
pub open spec fn gap_size(score: int) -> int {
    if LARGEST_GAP - score > SMALLEST_GAP {
        LARGEST_GAP - score
    } else {
        SMALLEST_GAP as int
    }
}

/// Rows of the wall drawn above the gap: `[0, top_end)`.
pub open spec fn top_end(o: Obstacle) -> int {
    o.gap_y - o.size / 2
}

/// Rows of the wall drawn below the gap: `[bottom_start, SCREEN_HEIGHT)`.
pub open spec fn bottom_start(o: Obstacle) -> int {
    o.gap_y + o.size / 2
}

/// Draw requests for an obstacle's wall at screen column `sx`.
pub open spec fn wall_ok(o: Obstacle, sx: int, r: Seq<Draw>) -> bool {
    let top = top_end(o);
    let bottom = if bottom_start(o) < SCREEN_HEIGHT { SCREEN_HEIGHT - bottom_start(o) } else { 0 };
    &&& r.len() == top + bottom
    &&& forall|i: int| 0 <= i < top ==> is_glyph(#[trigger] r[i], sx, i, '|', Color::Red, Color::Black)
    &&& forall|i: int|
        top <= i < r.len() ==> is_glyph(#[trigger] r[i], sx, bottom_start(o) + (i - top), '|', Color::Red, Color::Black)
}

/// A value drawn at random from `[lo, hi)`.
/// Relies on bracket-lib's `RandomNumberGenerator::new` and `range`, which
/// returns a value from its first argument inclusive to its second exclusive
/// (and panics only on an empty range).
#[verifier::external_body]
fn random_in(lo: i32, hi: i32) -> (r: i32)
    requires
        lo < hi,
    ensures
        lo <= r < hi,
{
    bracket_lib::prelude::RandomNumberGenerator::new().range(lo, hi)
}

/// A gap centre drawn at random from `[GAP_CENTER_MIN, GAP_CENTER_END)`.
pub fn random_gap_center() -> (r: i32)
    ensures
        GAP_CENTER_MIN <= r < GAP_CENTER_END,
{
    random_in(GAP_CENTER_MIN, GAP_CENTER_END)
}

impl Obstacle {
    /// Gap centre and size lie in the ranges that spawning gives.
    pub open spec fn wf(self) -> bool {
        &&& GAP_CENTER_MIN <= self.gap_y < GAP_CENTER_END
        &&& SMALLEST_GAP <= self.size <= LARGEST_GAP
    }

    /// The obstacle spawned at `x` and `score` with gap centre `gap_y`.
    pub open spec fn spawned(x: int, score: int, gap_y: int) -> Obstacle {
        Obstacle { x: x as i32, gap_y: gap_y as i32, size: gap_size(score) as i32 }
    }

    /// Whether the obstacle stops the player: same column, and the row
    /// strictly above or below the gap (half the size, truncated, each side).
    pub open spec fn hits(self, p: Player) -> bool {
        let half = trunc_div(self.size as int, 2);
        self.x == p.x && (p.y < self.gap_y - half || p.y > self.gap_y + half)
    }

    /// An obstacle at world column `x` whose gap is centred on `gap_y` and
    /// sized for `score`.
    pub fn spawn(x: i32, score: i32, gap_y: i32) -> (r: Obstacle)
        requires
            score >= LARGEST_GAP - i32::MAX,
            GAP_CENTER_MIN <= gap_y < GAP_CENTER_END,
        ensures
            r == Obstacle::spawned(x as int, score as int, gap_y as int),
            score >= 0 ==> r.wf(),
    {
        let size: i32 = if LARGEST_GAP - score > SMALLEST_GAP {
            LARGEST_GAP - score
        } else {
            SMALLEST_GAP
        };
        Obstacle { x, gap_y, size }
    }

    /// An obstacle at world column `x` sized for `score`, its gap centre
    /// drawn at random.
    pub fn new(x: i32, score: i32) -> (r: Obstacle)
        requires
            score >= LARGEST_GAP - i32::MAX,
        ensures
            r.x == x,
            r.size == gap_size(score as int),
            GAP_CENTER_MIN <= r.gap_y < GAP_CENTER_END,
            score >= 0 ==> r.wf(),
    {
        Obstacle::spawn(x, score, random_gap_center())
    }

    /// Whether the player crashes into this obstacle.
    pub fn hit_obstacle(&self, player: &Player) -> (r: bool)
        ensures
            r == self.hits(*player),
    {
        let half_size: i64 = if self.size >= 0 {
            (self.size / 2) as i64
        } else {
            -((-(self.size as i64)) / 2)
        };
        let is_match_x = self.x == player.x;
        let player_above_gap = (player.y as i64) < self.gap_y as i64 - half_size;
        let player_below_gap = (player.y as i64) > self.gap_y as i64 + half_size;
        is_match_x && (player_above_gap || player_below_gap)
    }

    /// Draw requests for the wall, seen from a player at world column
    /// `player_x`: a red bar on every row above the gap, then on every row
    /// below it down to the bottom of the screen.
    pub fn render(&self, player_x: i32) -> (r: Vec<Draw>)
        requires
            self.wf(),
            self.x >= 0,
            player_x >= 0,
        ensures
            wall_ok(*self, self.x - player_x, r@),
    {
        let screen_x = self.x - player_x;
        let half_size = self.size / 2;
        let mut out: Vec<Draw> = Vec::new();
        let top: i32 = self.gap_y - half_size;
        let mut y: i32 = 0;
        while y < top
            invariant
                0 <= y <= top,
                top == top_end(*self),
                out@.len() == y,
                forall|i: int| 0 <= i < y ==> is_glyph(#[trigger] out@[i], screen_x as int, i, '|', Color::Red, Color::Black),
            decreases top - y,
        {
            out.push(Draw::Glyph { x: screen_x, y, glyph: '|', fg: Color::Red, bg: Color::Black });
            y = y + 1;
        }
        let start: i32 = self.gap_y + half_size;
        let mut y: i32 = start;
        while y < SCREEN_HEIGHT
            invariant
                start == bottom_start(*self),
                top == top_end(*self),
                top >= 0,
                start <= y,
                start < SCREEN_HEIGHT ==> y <= SCREEN_HEIGHT,
                start >= SCREEN_HEIGHT ==> y == start,
                out@.len() == top + (y - start),
                forall|i: int| 0 <= i < top ==> is_glyph(#[trigger] out@[i], screen_x as int, i, '|', Color::Red, Color::Black),
                forall|i: int|
                    top <= i < out@.len() ==> is_glyph(#[trigger] out@[i], screen_x as int, start + (i - top), '|', Color::Red, Color::Black),
            decreases SCREEN_HEIGHT - y,
        {
            out.push(Draw::Glyph { x: screen_x, y, glyph: '|', fg: Color::Red, bg: Color::Black });
            y = y + 1;
        }
        out
    }
}

} // verus!
