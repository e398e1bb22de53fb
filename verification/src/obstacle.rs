use vstd::prelude::*;

use crate::player::Player;
use crate::rng::{new_rng, rng_range};
use crate::SCREEN_HEIGHT;

verus! {

broadcast use vstd::seq_lib::lemma_seq_contains_after_push;

/// Narrowest bar an obstacle can have, in cells.
pub const MIN_WIDTH: i32 = 3;

/// Lowest row (inclusive) where a gap center may land.
pub const GAP_CENTER_MIN: i32 = 10;

/// Row bound (exclusive) below which a gap center must stay.
pub const GAP_CENTER_MAX: i32 = 40;

/// Gap size granted at score zero; the gap shrinks as the score grows.
pub const BASE_SIZE: i32 = 20;

/// Floor under the gap size: the opening never fully closes.
pub const MIN_SIZE: i32 = 2;

/// One vertical obstacle: a solid bar of `width` columns at world position
/// `x`, opened by a gap centered on row `gap_y`. The gap reaches `size / 2`
/// rows to each side of the center.
pub struct Obstacle {
    pub x: i32,
    pub width: i32,
    pub gap_y: i32,
    pub size: i32,
}

/// The gap size an obstacle is built with at a given score: it shrinks one
/// row per point, floored so the opening never closes.
pub open spec fn size_for_score(score: int) -> int {
    if BASE_SIZE - score >= MIN_SIZE {
        BASE_SIZE - score
    } else {
        MIN_SIZE as int
    }
}

/// Exclusive upper bound of the randomized bar width at a given score: the
/// range of possible widths widens every five points.
pub open spec fn width_bound_for_score(score: int) -> int {
    5 + score / 5
}

impl Obstacle {
    /// Geometry every constructed obstacle satisfies, whatever the random
    /// draws returned.
    pub open spec fn wf(self) -> bool {
        &&& MIN_WIDTH <= self.width
        &&& GAP_CENTER_MIN <= self.gap_y < GAP_CENTER_MAX
        &&& MIN_SIZE <= self.size <= BASE_SIZE
    }

    /// A fresh obstacle at world position `x`, parameterized by the score:
    /// the bar width and the gap center are drawn at random from fixed
    /// ranges, the gap size is derived from the score alone.
    pub fn new(x: i32, score: i32) -> (o: Obstacle)
        requires
            0 <= score,
        ensures
            o.x == x,
            MIN_WIDTH <= o.width < width_bound_for_score(score as int),
            GAP_CENTER_MIN <= o.gap_y < GAP_CENTER_MAX,
            o.size == size_for_score(score as int),
            o.wf(),
    {
        let mut random = new_rng();
        let width_bound: i32 = 5 + score / 5;
        let width = rng_range(&mut random, MIN_WIDTH, width_bound);
        let gap_y = rng_range(&mut random, GAP_CENTER_MIN, GAP_CENTER_MAX);
        let size: i32 = if BASE_SIZE - score >= MIN_SIZE {
            BASE_SIZE - score
        } else {
            MIN_SIZE
        };
        Obstacle { x, width, gap_y, size }
    }

    /// The collision predicate: the player's column lies on the bar
    /// (inclusive at both edges) and its row is strictly outside the open
    /// interval the gap spans. Touching a gap boundary row counts as inside
    /// the gap, not as a hit.
    pub open spec fn hits(self, px: int, py: int) -> bool {
        let half = self.size as int / 2;
        &&& px <= self.x + self.width
        &&& px >= self.x
        &&& (py < self.gap_y - half || py > self.gap_y + half)
    }

    /// Executable collision test against the player's current position.
    pub fn hit_test(&self, player: &Player) -> (r: bool)
        requires
            self.wf(),
        ensures
            r == self.hits(player.x as int, player.y as int),
    {
        let half: i32 = self.size / 2;
        let on_bar = player.x as i64 >= self.x as i64
            && player.x as i64 <= self.x as i64 + self.width as i64;
        on_bar && (player.y < self.gap_y - half || player.y > self.gap_y + half)
    }
}

impl Obstacle {
    /// Does the obstacle, seen with the camera pinned to the player's column,
    /// cover the screen cell `(cx, cy)`? The bar spans `width` columns from
    /// the obstacle's camera-relative position and every visible row outside
    /// the gap's open interval.
    pub open spec fn covers(self, player_x: int, cx: int, cy: int) -> bool {
        let sx = self.x - player_x;
        let half = self.size as int / 2;
        &&& sx <= cx < sx + self.width
        &&& 0 <= cy < SCREEN_HEIGHT
        &&& (cy < self.gap_y - half || cy >= self.gap_y + half)
    }

    /// The screen cells the obstacle fills this frame: exactly those the
    /// camera-relative geometry covers. The presentation layer draws one
    /// glyph per cell and drops cells that fall off screen.
    pub fn render_cells(&self, player_x: i32) -> (cells: Vec<(i32, i32)>)
        requires
            self.wf(),
            i32::MIN <= self.x - player_x,
            self.x - player_x + self.width <= i32::MAX,
        ensures
            forall|i: int|
                0 <= i < cells@.len() ==> self.covers(
                    player_x as int,
                    cells@[i].0 as int,
                    cells@[i].1 as int,
                ),
            forall|cx: int, cy: int|
                self.covers(player_x as int, cx, cy) ==> cells@.contains(
                    (cx as i32, cy as i32),
                ),
    {
        let screen_x = self.x - player_x;
        let half: i32 = self.size / 2;
        let top_end: i32 = self.gap_y - half;
        let bottom_start: i32 = self.gap_y + half;
        let mut cells: Vec<(i32, i32)> = Vec::new();

        let mut y: i32 = 0;
        while y < top_end
            invariant
                self.wf(),
                i32::MIN <= self.x - player_x,
                self.x - player_x + self.width <= i32::MAX,
                screen_x == self.x - player_x,
                half == self.size as int / 2,
                top_end == self.gap_y - half,
                0 <= y <= top_end,
                forall|i: int|
                    0 <= i < cells@.len() ==> self.covers(
                        player_x as int,
                        cells@[i].0 as int,
                        cells@[i].1 as int,
                    ),
                forall|cx: int, cy: int|
                    self.covers(player_x as int, cx, cy) && cy < y ==> cells@.contains(
                        (cx as i32, cy as i32),
                    ),
            decreases top_end - y,
        {
            let mut w: i32 = 0;
            while w < self.width
                invariant
                    self.wf(),
                    i32::MIN <= self.x - player_x,
                    self.x - player_x + self.width <= i32::MAX,
                    screen_x == self.x - player_x,
                    half == self.size as int / 2,
                    top_end == self.gap_y - half,
                    0 <= y < top_end,
                    0 <= w <= self.width,
                    forall|i: int|
                        0 <= i < cells@.len() ==> self.covers(
                            player_x as int,
                            cells@[i].0 as int,
                            cells@[i].1 as int,
                        ),
                    forall|cx: int, cy: int|
                        self.covers(player_x as int, cx, cy) && cy < y ==> cells@.contains(
                            (cx as i32, cy as i32),
                        ),
                    forall|cx: int|
                        screen_x <= cx < screen_x + w ==> #[trigger] cells@.contains((cx as i32, y)),
                decreases self.width - w,
            {
                cells.push((screen_x + w, y));
                w = w + 1;
            }
            y = y + 1;
        }

        let mut y: i32 = bottom_start;
        while y < SCREEN_HEIGHT
            invariant
                self.wf(),
                i32::MIN <= self.x - player_x,
                self.x - player_x + self.width <= i32::MAX,
                screen_x == self.x - player_x,
                half == self.size as int / 2,
                bottom_start == self.gap_y + half,
                bottom_start <= y <= SCREEN_HEIGHT,
                forall|i: int|
                    0 <= i < cells@.len() ==> self.covers(
                        player_x as int,
                        cells@[i].0 as int,
                        cells@[i].1 as int,
                    ),
                forall|cx: int, cy: int|
                    self.covers(player_x as int, cx, cy) && cy < y ==> cells@.contains(
                        (cx as i32, cy as i32),
                    ),
            decreases SCREEN_HEIGHT - y,
        {
            let mut w: i32 = 0;
            while w < self.width
                invariant
                    self.wf(),
                    i32::MIN <= self.x - player_x,
                    self.x - player_x + self.width <= i32::MAX,
                    screen_x == self.x - player_x,
                    half == self.size as int / 2,
                    bottom_start == self.gap_y + half,
                    bottom_start <= y < SCREEN_HEIGHT,
                    0 <= w <= self.width,
                    forall|i: int|
                        0 <= i < cells@.len() ==> self.covers(
                            player_x as int,
                            cells@[i].0 as int,
                            cells@[i].1 as int,
                        ),
                    forall|cx: int, cy: int|
                        self.covers(player_x as int, cx, cy) && cy < y ==> cells@.contains(
                            (cx as i32, cy as i32),
                        ),
                    forall|cx: int|
                        screen_x <= cx < screen_x + w ==> #[trigger] cells@.contains((cx as i32, y)),
                decreases self.width - w,
            {
                cells.push((screen_x + w, y));
                w = w + 1;
            }
            y = y + 1;
        }

        cells
    }
}

/// The width range an obstacle draws from is never empty: its exclusive
/// upper bound stays above the fixed lower bound for every score.
pub proof fn lemma_width_range_nonempty(score: int)
    requires
        0 <= score,
    ensures
        width_bound_for_score(score) > MIN_WIDTH,
{
}

} // verus!
