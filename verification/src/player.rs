use vstd::prelude::*;

verus! {

/// Gravity added to the vertical velocity on each logical tick, in tenths of
/// a cell per tick.
pub const GRAVITY_TENTHS: i32 = 2;

/// The soft terminal fall speed, in tenths of a cell per tick: gravity is
/// applied only while the velocity is at or below this value, so one final
/// increment may push the velocity to `MAX_FALL_TENTHS + GRAVITY_TENTHS`.
pub const MAX_FALL_TENTHS: i32 = 20;

/// The upward velocity set by a flap, in tenths of a cell per tick.
pub const FLAP_VELOCITY_TENTHS: i32 = -20;

/// The player's physics body: a world position plus a vertical velocity.
/// Velocity is measured in tenths of a cell per tick, so the physics stays in
/// integers; every reachable velocity is a whole number of tenths.
pub struct Player {
    pub x: i32,
    pub y: i32,
    pub velocity_tenths: i32,
}

/// Whole cells travelled in one tick by a velocity of `v` tenths of a cell:
/// the fractional part is dropped, rounding toward zero.
pub open spec fn cells_of(v: int) -> int {
    if v >= 0 {
        v / 10
    } else {
        -((-v) / 10)
    }
}

/// The velocity after one tick of gravity: it grows while at or below the
/// soft cap, so one overshoot increment past the cap is allowed through.
pub open spec fn gravity_velocity(v: int) -> int {
    if v <= MAX_FALL_TENTHS {
        v + GRAVITY_TENTHS
    } else {
        v
    }
}

/// A vertical position clamped to the floor of the world.
pub open spec fn clamp_floor(y: int) -> int {
    if y < 0 {
        0
    } else {
        y
    }
}

/// The player as it stands after a flap: only the velocity changes.
pub open spec fn flap_state(p: Player) -> Player {
    Player { velocity_tenths: FLAP_VELOCITY_TENTHS, ..p }
}

/// The player as it stands after one logical tick: gravity first steepens the
/// velocity, then the updated velocity moves the player vertically (clamped
/// at the floor), and the player advances one cell to the right.
pub open spec fn gravity_step(p: Player) -> Player {
    let v = gravity_velocity(p.velocity_tenths as int);
    Player {
        x: (p.x + 1) as i32,
        y: clamp_floor(p.y + cells_of(v)) as i32,
        velocity_tenths: v as i32,
    }
}

impl Player {
    /// The player never sinks below the floor, and its velocity stays between
    /// one flap upward and one overshoot past the soft fall cap.
    pub open spec fn wf(self) -> bool {
        &&& 0 <= self.y
        &&& FLAP_VELOCITY_TENTHS <= self.velocity_tenths <= MAX_FALL_TENTHS + GRAVITY_TENTHS
    }

    pub fn new(x: i32, y: i32) -> (p: Player)
        requires
            0 <= y,
        ensures
            p.x == x,
            p.y == y,
            p.velocity_tenths == 0,
            p.wf(),
    {
        Player { x, y, velocity_tenths: 0 }
    }

    /// One logical tick: gravity steepens the fall, the updated velocity moves
    /// the player vertically (clamped at the floor, without zeroing the
    /// velocity), and the player advances one cell to the right.
    pub fn gravity_and_move(&mut self)
        requires
            old(self).wf(),
            old(self).x < i32::MAX,
            old(self).y <= i32::MAX - 2,
        ensures
            *final(self) == gravity_step(*old(self)),
            final(self).velocity_tenths == gravity_velocity(old(self).velocity_tenths as int),
            final(self).x == old(self).x + 1,
            final(self).y == clamp_floor(
                old(self).y + cells_of(final(self).velocity_tenths as int),
            ),
            final(self).wf(),
    {
        if self.velocity_tenths <= MAX_FALL_TENTHS {
            self.velocity_tenths = self.velocity_tenths + GRAVITY_TENTHS;
        }
        let step: i32 = cells_moved(self.velocity_tenths);
        self.y = self.y + step;
        self.x = self.x + 1;
        if self.y < 0 {
            self.y = 0;
        }
    }

    /// A flap: the velocity jumps to the fixed upward impulse, whatever it
    /// was before; position is untouched.
    pub fn flap(&mut self)
        ensures
            *final(self) == flap_state(*old(self)),
            final(self).velocity_tenths == FLAP_VELOCITY_TENTHS,
            final(self).x == old(self).x,
            final(self).y == old(self).y,
            old(self).wf() ==> final(self).wf(),
    {
        self.velocity_tenths = FLAP_VELOCITY_TENTHS;
    }
}

/// Executable counterpart of `cells_of`.
pub fn cells_moved(v: i32) -> (c: i32)
    requires
        -30 <= v <= 30,
    ensures
        c == cells_of(v as int),
{
    if v >= 0 {
        v / 10
    } else {
        -((-v) / 10)
    }
}

/// Flapping is idempotent within a tick: a second flap changes nothing.
pub proof fn lemma_flap_idempotent(p: Player)
    ensures
        flap_state(flap_state(p)) == flap_state(p),
{
}

/// The player after a whole sequence of commands, applied left to right:
/// `true` is a flap, `false` one gravity tick.
pub open spec fn after_inputs(p: Player, inputs: Seq<bool>) -> Player
    decreases inputs.len(),
{
    if inputs.len() == 0 {
        p
    } else {
        let q = after_inputs(p, inputs.drop_last());
        if inputs.last() {
            flap_state(q)
        } else {
            gravity_step(q)
        }
    }
}

/// The floor clamp is an invariant, not a per-step accident: for every
/// sequence of gravity ticks and flaps from a well-formed player, the
/// vertical position never goes negative, and each step moves the player at
/// most one column right and at most two rows down.
pub proof fn lemma_floor_holds_for_any_inputs(p: Player, inputs: Seq<bool>)
    requires
        p.wf(),
        p.x + inputs.len() <= i32::MAX,
        p.y + 2 * inputs.len() <= i32::MAX,
    ensures
        after_inputs(p, inputs).wf(),
        after_inputs(p, inputs).y >= 0,
        after_inputs(p, inputs).x <= p.x + inputs.len(),
        after_inputs(p, inputs).y <= p.y + 2 * inputs.len(),
    decreases inputs.len(),
{
    if inputs.len() > 0 {
        lemma_floor_holds_for_any_inputs(p, inputs.drop_last());
    }
}

/// The velocity after `n` gravity ticks from standstill, with no flap.
pub open spec fn velocity_after_ticks(n: nat) -> int
    decreases n,
{
    if n == 0 {
        0
    } else {
        gravity_velocity(velocity_after_ticks((n - 1) as nat))
    }
}

/// Gravity integration is linear until the soft cap: starting from velocity
/// zero, each of the first eleven ticks adds exactly one gravity increment.
pub proof fn lemma_gravity_linear_below_cap(n: nat)
    requires
        n <= 11,
    ensures
        velocity_after_ticks(n) == GRAVITY_TENTHS * n,
    decreases n,
{
    if n > 0 {
        lemma_gravity_linear_below_cap((n - 1) as nat);
    }
}

/// After the soft cap is passed, the fall speed stays pinned at one overshoot
/// increment above the cap.
pub proof fn lemma_gravity_capped(n: nat)
    requires
        n >= 11,
    ensures
        velocity_after_ticks(n) == MAX_FALL_TENTHS + GRAVITY_TENTHS,
    decreases n,
{
    if n == 11 {
        lemma_gravity_linear_below_cap(11);
    } else {
        lemma_gravity_capped((n - 1) as nat);
    }
}

} // verus!
