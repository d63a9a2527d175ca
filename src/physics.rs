use vstd::prelude::*;

verus! {

/// Gravity added to the velocity on each physics step (tenths of a cell).
pub const GRAVITY: i32 = 2;

/// Terminal downward velocity (tenths of a cell per step).
pub const TERMINAL_VELOCITY: i32 = 20;

/// Velocity set by a flap (tenths of a cell per step).
pub const FLAP_VELOCITY: i32 = -20;

/// Scroll position of a freshly spawned body.
pub const SPAWN_X: i32 = 5;

/// Height of a freshly spawned body (tenths of a cell).
pub const SPAWN_Y: i32 = 250;

/// Length of the animation cycle.
pub const ANIMATION_FRAMES: usize = 6;

/// The avatar: horizontal scroll position, vertical position and velocity
/// (both in tenths of a cell), and animation frame.
pub struct Player {
    pub x: i32,
    pub y: i32,
    pub velocity: i32,
    pub frame: usize,
}

impl Player {
    /// Velocity stays in `[-2.0, 2.0]` on the grid of gravity steps, the
    /// position stays at or below the top edge, the frame in its cycle.
    pub open spec fn wf(&self) -> bool {
        &&& FLAP_VELOCITY <= self.velocity <= TERMINAL_VELOCITY
        &&& self.velocity % 2 == 0
        &&& self.y >= 0
        &&& self.frame < ANIMATION_FRAMES
    }

    /// The body after one gravity step: accelerate unless at terminal
    /// velocity, move, clamp at the top edge, scroll, animate.
    pub open spec fn stepped(self) -> Player {
        let v: int = if self.velocity < TERMINAL_VELOCITY {
            self.velocity + GRAVITY
        } else {
            self.velocity as int
        };
        let y: int = self.y + v;
        Player {
            x: (self.x + 1) as i32,
            y: if y < 0 { 0 } else { y as i32 },
            velocity: v as i32,
            frame: ((self.frame + 1) % (ANIMATION_FRAMES as int)) as usize,
        }
    }

    /// The body of a new session, at rest at its spawn point.
    pub open spec fn spawn() -> Player {
        Player { x: SPAWN_X, y: SPAWN_Y, velocity: 0, frame: 0 }
    }

    /// Whether one more step fits the machine integers.
    pub open spec fn can_step(&self) -> bool {
        self.x < i32::MAX && self.y <= i32::MAX - TERMINAL_VELOCITY
    }

    /// A body at rest at scroll position `x` and height `y` (tenths).
    pub fn new(x: i32, y: i32) -> (r: Player)
        requires
            y >= 0,
        ensures
            r == (Player { x, y, velocity: 0, frame: 0 }),
            r.wf(),
    {
        Player { x, y, velocity: 0, frame: 0 }
    }

    /// Advances the body by exactly one physics step.
    pub fn gravity_and_move(&mut self)
        requires
            old(self).wf(),
            old(self).can_step(),
        ensures
            *final(self) == old(self).stepped(),
            final(self).wf(),
            final(self).velocity <= TERMINAL_VELOCITY,
            final(self).y >= 0,
    {
        if self.velocity < TERMINAL_VELOCITY {
            self.velocity = self.velocity + GRAVITY;
        }
        self.y = self.y + self.velocity;
        if self.y < 0 {
            self.y = 0;
        }
        self.x = self.x + 1;
        self.frame = (self.frame + 1) % ANIMATION_FRAMES;
    }

    /// Sets the velocity to the flap impulse; takes effect on the next step.
    pub fn flap(&mut self)
        requires
            old(self).wf(),
        ensures
            *final(self) == (Player { velocity: FLAP_VELOCITY, ..*old(self) }),
            final(self).wf(),
    {
        self.velocity = FLAP_VELOCITY;
    }

    /// The vertical cell the body occupies (its height truncated).
    pub open spec fn row(&self) -> int {
        self.y / 10
    }
}

/// Gravity never pushes a well-formed body past terminal velocity, nor above
/// the top edge.
pub proof fn lemma_step_bounds(p: Player)
    requires
        p.wf(),
        p.can_step(),
    ensures
        p.stepped().velocity <= TERMINAL_VELOCITY,
        p.stepped().y >= 0,
        p.stepped().wf(),
{
}

/// The body after `k` physics steps with no flap in between.
pub open spec fn steps(p: Player, k: nat) -> Player
    decreases k,
{
    if k == 0 {
        p
    } else {
        steps(p.stepped(), (k - 1) as nat)
    }
}

/// Gravity alone never raises the velocity past terminal velocity, whatever
/// the position.
pub proof fn lemma_terminal_velocity(p: Player)
    requires
        p.wf(),
    ensures
        p.stepped().velocity <= TERMINAL_VELOCITY,
        p.stepped().velocity >= p.velocity,
        p.stepped().velocity % 2 == 0,
{
}

/// Without flaps the velocity climbs by one gravity step per physics step
/// until it reaches terminal velocity, then stays there: from rest it runs
/// 0.2, 0.4, ..., 2.0, 2.0, ...
pub proof fn lemma_velocity_ramp(p: Player, k: nat)
    requires
        FLAP_VELOCITY <= p.velocity <= TERMINAL_VELOCITY,
        p.velocity % 2 == 0,
    ensures
        steps(p, k).velocity == (if p.velocity + GRAVITY * k < TERMINAL_VELOCITY {
            p.velocity + GRAVITY * k
        } else {
            TERMINAL_VELOCITY as int
        }),
    decreases k,
{
    if k > 0 {
        lemma_velocity_ramp(p.stepped(), (k - 1) as nat);
    }
}

} // verus!
