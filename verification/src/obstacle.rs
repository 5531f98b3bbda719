//! Obstacles: generation, recycling with difficulty scaling, and the
//! collision test.

use crate::player::Player;
use crate::rng::rng_range;
use crate::MIN_OBSTACLE_OFFSET;
use crate::PLAYER_X_OFFSET;
use crate::SCREEN_WIDTH;
use vstd::prelude::*;

verus! {

/// A wall with a gap. `x` is the absolute world column, independent of the
/// screen; the passable region spans the rows within `size / 2` of `gap_y`.
#[derive(Clone, Copy, Debug, PartialEq, Eq, Structural)]
pub struct Obstacle {
    pub x: i32,
    pub gap_y: i32,
    pub size: i32,
}

/// Gap size of a freshly spawned obstacle: starts at 20 and narrows by one
/// for every ten points of score, floored at 5.
pub open spec fn spawn_size(score: int) -> int {
    if 20 - score / 10 < 5 {
        5
    } else {
        20 - score / 10
    }
}

/// Gap size of a recycled obstacle: twice the half-size `10 - score`,
/// floored at a half-size of 3 so the passage never closes.
pub open spec fn recycle_size(score: int) -> int {
    if 10 - score < 3 {
        6
    } else {
        2 * (10 - score)
    }
}

/// A recycled obstacle leaves the actor a passage of half-size at least 3,
/// whatever the score.
pub proof fn lemma_recycle_gap_never_impassable(score: int)
    requires
        0 <= score,
    ensures
        recycle_size(score) / 2 >= 3,
{
}

/// A freshly spawned obstacle leaves a passage of half-size at least 3 for
/// every score up to 149. From 150 on the spawn formula sits on its floor
/// of 5, whose half-size is only 2 — though the game only ever spawns at
/// score 0; recycling, which sees every score, has the stronger bound
/// above.
pub proof fn lemma_spawn_gap_bound(score: int)
    requires
        0 <= score <= 149,
    ensures
        spawn_size(score) / 2 >= 3,
{
}

/// Does the obstacle hit an actor at column `px`, row `py`? True exactly
/// when the actor's column is the obstacle's trigger column and its row
/// lies outside the gap.
pub open spec fn spec_hits(ob: Obstacle, px: int, py: int) -> bool {
    &&& ob.x - PLAYER_X_OFFSET == px
    &&& (py > ob.gap_y + ob.size / 2 || py < ob.gap_y - ob.size / 2)
}

impl Obstacle {
    /// The world column is on the track, the gap center is drawn from
    /// `[10, 40)`, and the size stays within what spawning and recycling
    /// can produce, so the gap never leaves the play field.
    pub open spec fn wf(self) -> bool {
        &&& 0 <= self.x
        &&& 10 <= self.gap_y < 40
        &&& 5 <= self.size <= 20
    }

    /// Spawn an obstacle at the given world column: the gap center is drawn
    /// uniformly from `[10, 40)` and the size follows [`spawn_size`].
    pub fn new(
        x: i32,
        score: i32,
        rng: &mut bracket_lib::random::RandomNumberGenerator,
    ) -> (ob: Obstacle)
        requires
            0 <= x,
            0 <= score,
        ensures
            ob.x == x,
            10 <= ob.gap_y < 40,
            ob.size == spawn_size(score as int),
            ob.wf(),
    {
        let gap_y = rng_range(rng, 10, 40);
        let size = 20 - score / 10;
        let size = if size < 5 {
            5
        } else {
            size
        };
        Obstacle { x, gap_y, size }
    }

    /// Recycle the obstacle once the actor has passed its trigger column:
    /// chain it to `2 * MIN_OBSTACLE_OFFSET` past `last_x`, the column of
    /// whichever obstacle recycled most recently — not past its own old
    /// column, which keeps out-of-order recycles from overlapping — redraw
    /// the gap center from `[10, 40)`, and narrow the size by the score.
    /// Returns whether a recycle happened, so the caller can award score
    /// and move `last_x` along.
    pub fn check_and_reset(
        &mut self,
        x: i32,
        score: i32,
        last_x: i32,
        rng: &mut bracket_lib::random::RandomNumberGenerator,
    ) -> (reset: bool)
        requires
            old(self).wf(),
            0 <= x,
            0 <= score,
            0 <= last_x <= i32::MAX - 2 * MIN_OBSTACLE_OFFSET,
        ensures
            reset == (old(self).x <= x - PLAYER_X_OFFSET),
            reset ==> final(self).x == last_x + 2 * MIN_OBSTACLE_OFFSET,
            reset ==> final(self).size == recycle_size(score as int),
            reset ==> 10 <= final(self).gap_y < 40,
            !reset ==> *final(self) == *old(self),
            final(self).wf(),
    {
        let mut reset = false;
        if self.x <= x - PLAYER_X_OFFSET {
            self.x = last_x + 2 * MIN_OBSTACLE_OFFSET;
            let half = 10 - score;
            let half = if half < 3 {
                3
            } else {
                half
            };
            self.size = 2 * half;
            self.gap_y = rng_range(rng, 10, 40);
            reset = true;
        }
        reset
    }

    /// The collision test: true exactly when the actor's world column equals
    /// the obstacle's trigger column — its own column less the actor's
    /// screen offset — and the actor's row lies outside the gap.
    pub fn hit_player(&self, player: &Player) -> (hit: bool)
        requires
            self.wf(),
        ensures
            hit == spec_hits(*self, player.x as int, player.y as int),
    {
        let x_match = self.x - PLAYER_X_OFFSET == player.x;
        let below_gap = player.y > self.gap_y + self.size / 2;
        let above_gap = player.y < self.gap_y - self.size / 2;
        x_match && (below_gap || above_gap)
    }

    /// Is any part of the obstacle on screen for an actor at `player_x`?
    pub fn visible(&self, player_x: i32) -> (r: bool)
        requires
            self.wf(),
            0 <= player_x,
        ensures
            r == (self.x - player_x < SCREEN_WIDTH - PLAYER_X_OFFSET),
    {
        self.x - player_x < SCREEN_WIDTH - PLAYER_X_OFFSET
    }

    /// The obstacle's on-screen column for an actor at `player_x`.
    pub fn screen_x(&self, player_x: i32) -> (r: i32)
        requires
            self.wf(),
            0 <= player_x,
        ensures
            r == self.x - player_x,
    {
        self.x - player_x
    }

    /// Topmost row of the gap, for the host's renderer.
    pub fn gap_top(&self) -> (r: i32)
        requires
            self.wf(),
        ensures
            r == self.gap_y - self.size / 2,
    {
        self.gap_y - self.size / 2
    }

    /// First row below the gap, for the host's renderer.
    pub fn gap_bottom(&self) -> (r: i32)
        requires
            self.wf(),
        ensures
            r == self.gap_y + self.size / 2,
    {
        self.gap_y + self.size / 2
    }
}

} // verus!
