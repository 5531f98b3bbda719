//! The player-controlled actor and its fixed-timestep physics.

use vstd::prelude::*;

verus! {

/// The actor: a world position in screen cells and a vertical velocity.
///
/// Velocity is measured in cells per tick, positive downward. Gravity pulls
/// it toward the terminal fall speed of +5, one cell per tick; a flap snaps
/// it to the fixed impulse of -5. Every value the game ever gives it — the
/// gravity increments, the cap, the impulse, the clamp to rest — is a whole
/// number of cells, so it is held as an integer.
#[derive(Clone, Copy, Debug, PartialEq, Eq, Structural)]
pub struct Player {
    pub x: i32,
    pub y: i32,
    pub velocity: i32,
}

/// One tick of gravity: the velocity grows by one until the terminal fall
/// speed of +5 is reached, then stays there.
pub open spec fn grav_velocity(v: int) -> int {
    if v < 5 {
        v + 1
    } else {
        v
    }
}

/// The `(x, y, velocity)` triple one simulation step after `(x, y, v)`:
/// gravity, then the move, then the clamp at the top of the play field.
pub open spec fn player_step(x: int, y: int, v: int) -> (int, int, int) {
    let v1 = grav_velocity(v);
    if y + v1 < 0 {
        (x + 1, 0, 0)
    } else {
        (x + 1, y + v1, v1)
    }
}

/// The `(x, y, velocity)` triple after `n` simulation steps from `(x, y, v)`.
pub open spec fn player_after(x: int, y: int, v: int, n: nat) -> (int, int, int)
    decreases n,
{
    if n == 0 {
        (x, y, v)
    } else {
        let prev = player_after(x, y, v, (n - 1) as nat);
        player_step(prev.0, prev.1, prev.2)
    }
}

/// However many simulation steps pass, the vertical velocity never exceeds
/// the terminal fall speed of +5.
pub proof fn lemma_velocity_never_exceeds_cap(x: int, y: int, v: int, n: nat)
    requires
        v <= 5,
    ensures
        player_after(x, y, v, n).2 <= 5,
    decreases n,
{
    if n > 0 {
        lemma_velocity_never_exceeds_cap(x, y, v, (n - 1) as nat);
    }
}

impl Player {
    /// The velocity stays between the flap impulse and the terminal fall
    /// speed, and the row never leaves through the top of the play field.
    pub open spec fn wf(self) -> bool {
        &&& -5 <= self.velocity <= 5
        &&& 0 <= self.y
    }

    /// A new actor at the given cell, at rest.
    pub fn new(x: i32, y: i32) -> (p: Player)
        requires
            0 <= y,
        ensures
            p.x == x,
            p.y == y,
            p.velocity == 0,
            p.wf(),
    {
        Player { x, y, velocity: 0 }
    }

    /// Put the actor back at the given cell, at rest.
    pub fn reset(&mut self, x: i32, y: i32)
        requires
            0 <= y,
        ensures
            final(self).x == x,
            final(self).y == y,
            final(self).velocity == 0,
            final(self).wf(),
    {
        self.x = x;
        self.y = y;
        self.velocity = 0;
    }

    /// One simulation step: apply gravity up to the cap, fall by the
    /// velocity, scroll one column to the right, and clamp at the top of
    /// the play field, zeroing the velocity there.
    pub fn gravity_and_move(&mut self)
        requires
            old(self).wf(),
            old(self).x < i32::MAX,
            old(self).y + 5 <= i32::MAX,
        ensures
            final(self).wf(),
            (final(self).x as int, final(self).y as int, final(self).velocity as int)
                == player_step(old(self).x as int, old(self).y as int, old(self).velocity as int),
            old(self).y + grav_velocity(old(self).velocity as int) < 0 ==> final(self).y == 0
                && final(self).velocity == 0,
    {
        if self.velocity < 5 {
            self.velocity = self.velocity + 1;
        }
        self.y = self.y + self.velocity;
        self.x = self.x + 1;
        if self.y < 0 {
            self.y = 0;
            self.velocity = 0;
        }
    }

    /// Set the velocity to the fixed flap impulse. The value is set, not
    /// added: flapping again before the next tick changes nothing.
    pub fn flap(&mut self)
        ensures
            final(self).velocity == -5,
            final(self).x == old(self).x,
            final(self).y == old(self).y,
            old(self).wf() ==> final(self).wf(),
    {
        self.velocity = -5;
    }
}

} // verus!
