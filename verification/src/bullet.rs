//! Bullet flight and hit detection: per-tick position advance anchored to the
//! camera-following character, with epsilon-gated offset recomputation and
//! one-directional status transitions.

use vstd::prelude::*;
use crate::bounds::WorldBounds;
use crate::controls::CharacterInputState;
use crate::position::{Position, COORD_LIMIT};

verus! {

/// Per-tick bullet speed along the y axis, per unit of movement direction,
/// in fixed-point world units.
pub const BULLET_SPEED: i64 = 40;

/// Per-tick bullet speed along the x axis: `BULLET_SPEED` divided by the 5:3
/// aspect correction factor (40 * 3 / 5).
pub const BULLET_SPEED_X: i64 = 24;

/// Fixed-point analogue of machine epsilon: an input displacement change of
/// at most this many units per axis counts as numerically meaningless drift.
pub const MOVEMENT_EPSILON: i64 = 1;

/// Absolute bound on each component of a bullet's movement direction.
pub const DIRECTION_LIMIT: i64 = 10_000;

/// Absolute bound on a bullet's held anchor (`previous_position`): the input
/// displacement plus one direction-speed term, which is what every update
/// stores there.
pub const PREV_LIMIT: i64 = COORD_LIMIT + DIRECTION_LIMIT * BULLET_SPEED;

/// Absolute bound on a bullet's offset delta: the difference of an input
/// displacement and a held anchor, which is what every recomputation stores.
pub const DELTA_LIMIT: i64 = COORD_LIMIT + PREV_LIMIT;

/// Absolute bound on a *flying* bullet's position: every position the bounds
/// oracle accepts lies well within it, and a bullet that leaves it is
/// terminal and frozen, so no further arithmetic touches it.
pub const POS_LIMIT: i64 = 2 * COORD_LIMIT;

/// Flight status of a bullet, derived anew from the bounds oracle each tick
/// while flying. `Hit` and `OutOfBounds` are terminal: they trigger removal
/// and no update leaves them.
#[derive(Clone, Copy, Debug, PartialEq, Eq, Structural)]
pub enum Collision {
    Flying,
    Hit,
    OutOfBounds,
}

/// A bullet status that triggers removal and is never left again.
pub open spec fn is_terminal(c: Collision) -> bool {
    c is Hit || c is OutOfBounds
}

/// Magnitude of a displacement component.
pub open spec fn abs1(v: int) -> int {
    if v < 0 {
        -v
    } else {
        v
    }
}

/// The aggregated input displacement moved by more than epsilon on some axis
/// since this bullet's previous tick: only then is the offset delta
/// recomputed; sub-epsilon drift holds the previous delta (anti-jitter).
pub open spec fn delta_exceeds_epsilon(mov: Position, prev: Position) -> bool {
    abs1(mov.x - prev.x) > MOVEMENT_EPSILON || abs1(mov.y - prev.y) > MOVEMENT_EPSILON
}

/// The complete effect of one `BulletDrawable::update` tick: a terminal
/// bullet is left untouched; a flying one gets its offset delta recomputed
/// (epsilon-gated), its position advanced by the offset delta plus the fixed
/// direction-speed term, and its status derived from the new position by the
/// bounds oracle.
pub open spec fn spec_update(
    b: BulletDrawable,
    ci: CharacterInputState,
    bounds: WorldBounds,
) -> BulletDrawable {
    if is_terminal(b.status) {
        b
    } else {
        let delta = if delta_exceeds_epsilon(ci.movement(), b.previous_position) {
            Position {
                x: (ci.x_movement - b.previous_position.x) as i64,
                y: (ci.y_movement - b.previous_position.y) as i64,
            }
        } else {
            b.offset_delta
        };
        let pos = Position {
            x: (b.position.x + delta.x + b.movement_direction.x * BULLET_SPEED_X) as i64,
            y: (b.position.y + delta.y - b.movement_direction.y * BULLET_SPEED) as i64,
        };
        let prev = Position {
            x: (ci.x_movement - b.movement_direction.x * BULLET_SPEED_X) as i64,
            y: (ci.y_movement + b.movement_direction.y * BULLET_SPEED) as i64,
        };
        let status = if !bounds.in_world(pos.x as int, pos.y as int) {
            Collision::OutOfBounds
        } else if !bounds.tile_passable(ci.x_movement - pos.x, ci.y_movement - pos.y) {
            Collision::Hit
        } else {
            Collision::Flying
        };
        BulletDrawable {
            position: pos,
            previous_position: prev,
            offset_delta: delta,
            movement_direction: b.movement_direction,
            status,
        }
    }
}

/// Epsilon-gated delta hold: while consecutive inputs stay within epsilon of
/// a flying bullet's held anchor on both axes, an update leaves the offset
/// delta unchanged — and the position still advances, by that held delta plus
/// the fixed direction-speed term.
pub proof fn lemma_epsilon_delta_hold(
    b: BulletDrawable,
    ci: CharacterInputState,
    bounds: WorldBounds,
)
    requires
        b.wf(),
        ci.in_bounds(),
        !is_terminal(b.status),
        !delta_exceeds_epsilon(ci.movement(), b.previous_position),
    ensures
        spec_update(b, ci, bounds).offset_delta == b.offset_delta,
        spec_update(b, ci, bounds).position.x
            == b.position.x + b.offset_delta.x + b.movement_direction.x * BULLET_SPEED_X,
        spec_update(b, ci, bounds).position.y
            == b.position.y + b.offset_delta.y - b.movement_direction.y * BULLET_SPEED,
{
}

/// Status transitions are one-directional: a bullet whose status is terminal
/// (`Hit` or `OutOfBounds`) never returns to `Flying`, however often an
/// update is (erroneously) invoked on it.
pub proof fn lemma_status_monotonic(
    b: BulletDrawable,
    ci: CharacterInputState,
    bounds: WorldBounds,
)
    requires
        is_terminal(b.status),
    ensures
        spec_update(b, ci, bounds).status == b.status,
        is_terminal(spec_update(b, ci, bounds).status),
{
}

/// A live bullet. Its movement direction is fixed at spawn time; position is
/// advanced each tick relative to the aggregated input displacement, so the
/// bullet moves independently of — but anchored to — the camera-following
/// character.
#[derive(Clone, Copy, Debug, PartialEq, Eq, Structural)]
pub struct BulletDrawable {
    pub position: Position,
    pub previous_position: Position,
    pub offset_delta: Position,
    pub movement_direction: Position,
    pub status: Collision,
}

impl BulletDrawable {
    /// Every stored coordinate is within the bound its own update rule keeps
    /// it under, so one tick's arithmetic cannot overflow. A flying bullet's
    /// position passed the bounds oracle (or was just spawned in range); a
    /// terminal bullet is frozen, so its position needs no bound. Spawning
    /// establishes this and `update` preserves it.
    pub open spec fn wf(self) -> bool {
        &&& !is_terminal(self.status) ==> {
            &&& -POS_LIMIT <= self.position.x <= POS_LIMIT
            &&& -POS_LIMIT <= self.position.y <= POS_LIMIT
        }
        &&& -PREV_LIMIT <= self.previous_position.x <= PREV_LIMIT
        &&& -PREV_LIMIT <= self.previous_position.y <= PREV_LIMIT
        &&& -DELTA_LIMIT <= self.offset_delta.x <= DELTA_LIMIT
        &&& -DELTA_LIMIT <= self.offset_delta.y <= DELTA_LIMIT
        &&& -DIRECTION_LIMIT <= self.movement_direction.x <= DIRECTION_LIMIT
        &&& -DIRECTION_LIMIT <= self.movement_direction.y <= DIRECTION_LIMIT
    }

    pub fn new(position: Position, movement_direction: Position) -> (r: BulletDrawable)
        requires
            position.in_bounds(),
            -DIRECTION_LIMIT <= movement_direction.x <= DIRECTION_LIMIT,
            -DIRECTION_LIMIT <= movement_direction.y <= DIRECTION_LIMIT,
        ensures
            r.position == position,
            r.previous_position == (Position { x: 0, y: 0 }),
            r.offset_delta == (Position { x: 0, y: 0 }),
            r.movement_direction == movement_direction,
            r.status == Collision::Flying,
            r.wf(),
    {
        BulletDrawable {
            position,
            previous_position: Position::new(0, 0),
            offset_delta: Position::new(0, 0),
            movement_direction,
            status: Collision::Flying,
        }
    }

    /// Advance this bullet one tick against the aggregated input displacement
    /// `ci` and the bounds oracle: recompute the offset delta only when the
    /// input moved by more than epsilon, advance the position by the offset
    /// delta plus the fixed direction-speed term, then derive the new status
    /// from the *new* position. A terminal status is never left: on a `Hit`
    /// or `OutOfBounds` bullet the call changes nothing. Well-formedness is
    /// preserved, so the next tick's update can always be called.
    pub fn update(&mut self, ci: &CharacterInputState, bounds: &WorldBounds)
        requires
            old(self).wf(),
            ci.in_bounds(),
            bounds.wf(),
        ensures
            *final(self) == spec_update(*old(self), *ci, *bounds),
            final(self).wf(),
            is_terminal(old(self).status) ==> *final(self) == *old(self),
            !is_terminal(old(self).status)
                && !delta_exceeds_epsilon(ci.movement(), old(self).previous_position)
                ==> final(self).offset_delta == old(self).offset_delta,
            !is_terminal(old(self).status) ==> {
                &&& final(self).position.x == old(self).position.x + final(self).offset_delta.x
                    + old(self).movement_direction.x * BULLET_SPEED_X
                &&& final(self).position.y == old(self).position.y + final(self).offset_delta.y
                    - old(self).movement_direction.y * BULLET_SPEED
            },
    {
        if self.status != Collision::Flying {
            return;
        }

        let dx: i64 = ci.x_movement - self.previous_position.x;
        let dy: i64 = ci.y_movement - self.previous_position.y;
        self.offset_delta = if dx > MOVEMENT_EPSILON || dx < -MOVEMENT_EPSILON
            || dy > MOVEMENT_EPSILON || dy < -MOVEMENT_EPSILON {
            Position::new(dx, dy)
        } else {
            self.offset_delta
        };

        self.previous_position = Position::new(
            ci.x_movement - self.movement_direction.x * BULLET_SPEED_X,
            ci.y_movement + self.movement_direction.y * BULLET_SPEED,
        );

        self.position = Position::new(
            self.position.x + self.offset_delta.x + self.movement_direction.x * BULLET_SPEED_X,
            self.position.y + self.offset_delta.y - self.movement_direction.y * BULLET_SPEED,
        );

        let tile_pos = Position::new(
            ci.x_movement - self.position.x,
            ci.y_movement - self.position.y,
        );

        self.status = if !bounds.can_move(self.position) {
            Collision::OutOfBounds
        } else if !bounds.can_move_to_tile(tile_pos) {
            Collision::Hit
        } else {
            Collision::Flying
        };

        proof {
            // A position the bounds oracle accepted lies inside the covered
            // world rectangle, which sits well within the flying-position
            // bound.
            if self.status is Flying {
                assert(bounds.tiles_w * bounds.tile_size
                    <= crate::bounds::MAX_TILES_PER_AXIS * crate::bounds::MAX_TILE_SIZE)
                    by (nonlinear_arith)
                    requires
                        1 <= bounds.tiles_w <= crate::bounds::MAX_TILES_PER_AXIS,
                        1 <= bounds.tile_size <= crate::bounds::MAX_TILE_SIZE;
                assert(bounds.tiles_h * bounds.tile_size
                    <= crate::bounds::MAX_TILES_PER_AXIS * crate::bounds::MAX_TILE_SIZE)
                    by (nonlinear_arith)
                    requires
                        1 <= bounds.tiles_h <= crate::bounds::MAX_TILES_PER_AXIS,
                        1 <= bounds.tile_size <= crate::bounds::MAX_TILE_SIZE;
            }
        }
    }
}

/// The collection of live bullets, owned by the simulation world. Bullets are
/// appended on spawn, updated in place, and swept once terminal.
#[derive(Clone, Debug)]
pub struct Bullets {
    pub bullets: Vec<BulletDrawable>,
}

impl Bullets {
    pub fn new() -> (r: Bullets)
        ensures
            r.bullets@ =~= Seq::<BulletDrawable>::empty(),
    {
        Bullets { bullets: Vec::new() }
    }

    /// Every held bullet is well formed.
    pub open spec fn wf(self) -> bool {
        forall|i: int| 0 <= i < self.bullets@.len() ==> (#[trigger] self.bullets@[i]).wf()
    }

    /// Evict every bullet whose status is terminal, keeping the flying ones
    /// in their original order: the sweep that follows each tick's update
    /// phase.
    pub fn sweep_terminal(&mut self)
        ensures
            final(self).bullets@ == old(self).bullets@.filter(
                |b: BulletDrawable| !is_terminal(b.status)),
            old(self).wf() ==> final(self).wf(),
    {
        let n: usize = self.bullets.len();
        let mut kept: Vec<BulletDrawable> = Vec::new();
        let mut i: usize = 0;
        while i < n
            invariant
                i <= n,
                n == self.bullets@.len(),
                kept@ == self.bullets@.subrange(0, i as int).filter(
                    |b: BulletDrawable| !is_terminal(b.status)),
                self.wf() ==> forall|k: int| 0 <= k < kept@.len()
                    ==> (#[trigger] kept@[k]).wf(),
            decreases n - i,
        {
            let ghost prefix = self.bullets@.subrange(0, i as int);
            let b = self.bullets[i];
            if !(matches!(b.status, Collision::Hit) || matches!(b.status, Collision::OutOfBounds)) {
                kept.push(b);
            }
            i += 1;
            proof {
                let longer = self.bullets@.subrange(0, i as int);
                assert(longer.drop_last() =~= prefix);
                assert(longer.last() == self.bullets@[i - 1]);
                reveal_with_fuel(Seq::filter, 2);
            }
        }
        proof {
            assert(self.bullets@.subrange(0, n as int) =~= self.bullets@);
        }
        self.bullets = kept;
    }
}

/// The pre-draw pass: advances every live bullet one tick before frame
/// composition.
#[derive(Clone, Copy, Debug)]
pub struct PreDrawSystem;

impl PreDrawSystem {
    pub fn new() -> (r: PreDrawSystem)
        ensures
            r == (PreDrawSystem {}),
    {
        PreDrawSystem {}
    }

    /// Update every bullet in place against this tick's aggregated input
    /// displacement and the bounds oracle. Every bullet stays well formed,
    /// so the next tick's pass can always run.
    pub fn run(&self, bullets: &mut Bullets, ci: &CharacterInputState, bounds: &WorldBounds)
        requires
            old(bullets).wf(),
            ci.in_bounds(),
            bounds.wf(),
        ensures
            final(bullets).bullets@.len() == old(bullets).bullets@.len(),
            forall|j: int| 0 <= j < old(bullets).bullets@.len()
                ==> final(bullets).bullets@[j]
                    == spec_update(#[trigger] old(bullets).bullets@[j], *ci, *bounds),
            final(bullets).wf(),
    {
        let n: usize = bullets.bullets.len();
        let mut i: usize = 0;
        while i < n
            invariant
                i <= n,
                n == bullets.bullets@.len(),
                n == old(bullets).bullets@.len(),
                ci.in_bounds(),
                bounds.wf(),
                forall|j: int| 0 <= j < i
                    ==> bullets.bullets@[j]
                        == spec_update(#[trigger] old(bullets).bullets@[j], *ci, *bounds),
                forall|j: int| i <= j < n
                    ==> #[trigger] bullets.bullets@[j] == old(bullets).bullets@[j],
                forall|j: int| 0 <= j < i ==> (#[trigger] bullets.bullets@[j]).wf(),
                old(bullets).wf(),
            decreases n - i,
        {
            let mut b = bullets.bullets[i];
            assert(b == old(bullets).bullets@[i as int]);
            assert(b.wf());
            b.update(ci, bounds);
            bullets.bullets.set(i, b);
            i += 1;
        }
    }
}

} // verus!
