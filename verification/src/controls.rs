//! Input aggregation: queued discrete directional events become a continuous
//! per-axis velocity bias, with diagonal normalization and mouse-aim override.

use vstd::prelude::*;
use crate::position::{Position, COORD_LIMIT};

verus! {

/// Per-tick displacement magnitude of horizontal movement, in fixed-point
/// world units.
pub const X_SPEED: i64 = 2400;

/// Per-tick displacement magnitude of vertical movement, in fixed-point
/// world units.
pub const Y_SPEED: i64 = 2100;

/// The per-axis magnitude applied while moving diagonally: the axis-aligned
/// magnitude divided by 1.5 (both speed constants are multiples of 3, so the
/// division is exact).
pub open spec fn diag_component(v: int) -> int {
    v * 2 / 3
}

/// The diagonal per-axis bias is exactly the axis-aligned bias divided by
/// 1.5: three halves of `diag_component(v)` give back `v`.
pub proof fn lemma_diagonal_normalization(v: int)
    requires
        v % 3 == 0,
    ensures
        3 * diag_component(v) == 2 * v,
{
    vstd::arithmetic::div_mod::lemma_fundamental_div_mod(v * 2, 3);
    assert((v * 2) % 3 == 0) by (nonlinear_arith)
        requires v % 3 == 0;
}

/// Accumulated per-axis displacement of the player character, recomputed from
/// the control queue every simulation tick.
#[derive(Clone, Copy, Debug, PartialEq, Eq, Structural)]
pub struct CharacterInputState {
    pub x_movement: i64,
    pub y_movement: i64,
}

impl CharacterInputState {
    /// Both accumulated displacements lie within the simulation's working
    /// range, with headroom for one more tick of movement.
    pub open spec fn in_bounds(self) -> bool {
        -(COORD_LIMIT - X_SPEED) <= self.x_movement <= COORD_LIMIT - X_SPEED
            && -(COORD_LIMIT - X_SPEED) <= self.y_movement <= COORD_LIMIT - X_SPEED
    }

    /// The accumulated displacement as a position-like vector.
    pub open spec fn movement(self) -> Position {
        Position { x: self.x_movement, y: self.y_movement }
    }

    pub fn new() -> (r: CharacterInputState)
        ensures
            r.x_movement == 0,
            r.y_movement == 0,
            r.in_bounds(),
    {
        CharacterInputState { x_movement: 0, y_movement: 0 }
    }
}

/// The mouse state the aggregator consults: while an aiming point is active,
/// directional-key movement is suppressed.
#[derive(Clone, Copy, Debug, PartialEq, Eq, Structural)]
pub struct MouseInputState {
    pub left_click_point: Option<Position>,
}

impl MouseInputState {
    pub fn new() -> (r: MouseInputState)
        ensures
            r.left_click_point is None,
    {
        MouseInputState { left_click_point: None }
    }
}

/// A discrete directional control event. Stop events are explicit: an empty
/// queue leaves the velocity bias unchanged.
#[derive(Clone, Copy, Debug, PartialEq, Eq, Structural)]
pub enum CharacterControl {
    Left,
    Right,
    Up,
    Down,
    XMoveStop,
    YMoveStop,
}

/// Effect of one control event on the horizontal velocity bias.
pub open spec fn x_step(cur: Option<i64>, ev: CharacterControl) -> Option<i64> {
    match ev {
        CharacterControl::Right => Some(X_SPEED),
        CharacterControl::Left => Some((-X_SPEED) as i64),
        CharacterControl::XMoveStop => None,
        _ => cur,
    }
}

/// Effect of one control event on the vertical velocity bias.
pub open spec fn y_step(cur: Option<i64>, ev: CharacterControl) -> Option<i64> {
    match ev {
        CharacterControl::Up => Some(Y_SPEED),
        CharacterControl::Down => Some((-Y_SPEED) as i64),
        CharacterControl::YMoveStop => None,
        _ => cur,
    }
}

/// Horizontal velocity bias after draining `evs` in order, starting from `init`.
pub open spec fn x_after_events(init: Option<i64>, evs: Seq<CharacterControl>) -> Option<i64>
    decreases evs.len(),
{
    if evs.len() == 0 {
        init
    } else {
        x_step(x_after_events(init, evs.drop_last()), evs.last())
    }
}

/// Vertical velocity bias after draining `evs` in order, starting from `init`.
pub open spec fn y_after_events(init: Option<i64>, evs: Seq<CharacterControl>) -> Option<i64>
    decreases evs.len(),
{
    if evs.len() == 0 {
        init
    } else {
        y_step(y_after_events(init, evs.drop_last()), evs.last())
    }
}

/// The horizontal displacement one tick adds: nothing when no horizontal key
/// is held, the full magnitude on axis-aligned motion, and the reduced
/// magnitude when both axes are held (diagonal motion).
pub open spec fn x_velocity_bias(x: Option<i64>, y: Option<i64>) -> int {
    match x {
        Option::None => 0,
        Option::Some(v) => if y is Some { diag_component(v as int) } else { v as int },
    }
}

/// The vertical displacement one tick adds; symmetric to `x_velocity_bias`.
pub open spec fn y_velocity_bias(x: Option<i64>, y: Option<i64>) -> int {
    match y {
        Option::None => 0,
        Option::Some(v) => if x is Some { diag_component(v as int) } else { v as int },
    }
}

/// The input aggregator: the per-axis key state distilled from the control
/// queue, kept across ticks until an explicit stop event.
#[derive(Clone, Copy, Debug, PartialEq, Eq, Structural)]
pub struct CharacterControlSystem {
    pub x_move: Option<i64>,
    pub y_move: Option<i64>,
}

impl CharacterControlSystem {
    /// The held velocities only ever take the fixed per-axis magnitudes.
    pub open spec fn wf(self) -> bool {
        (self.x_move matches Some(v) ==> v == X_SPEED || v == -X_SPEED)
            && (self.y_move matches Some(v) ==> v == Y_SPEED || v == -Y_SPEED)
    }

    pub fn new() -> (r: CharacterControlSystem)
        ensures
            r.x_move is None,
            r.y_move is None,
            r.wf(),
    {
        CharacterControlSystem { x_move: None, y_move: None }
    }

    /// Drain all queued control events, then apply the resulting velocity
    /// bias to the accumulated displacement — in full on axis-aligned motion,
    /// reduced by 1.5 per axis on diagonal motion, and not at all while a
    /// mouse aiming point is active.
    pub fn run(
        &mut self,
        events: &Vec<CharacterControl>,
        ci: &mut CharacterInputState,
        mi: &MouseInputState,
    )
        requires
            old(self).wf(),
            old(ci).in_bounds(),
        ensures
            final(self).x_move == x_after_events(old(self).x_move, events@),
            final(self).y_move == y_after_events(old(self).y_move, events@),
            final(self).wf(),
            mi.left_click_point is Some ==> *final(ci) == *old(ci),
            mi.left_click_point is None ==> final(ci).x_movement
                == old(ci).x_movement + x_velocity_bias(final(self).x_move, final(self).y_move),
            mi.left_click_point is None ==> final(ci).y_movement
                == old(ci).y_movement + y_velocity_bias(final(self).x_move, final(self).y_move),
    {
        let mut i: usize = 0;
        while i < events.len()
            invariant
                i <= events.len(),
                self.x_move == x_after_events(old(self).x_move, events@.subrange(0, i as int)),
                self.y_move == y_after_events(old(self).y_move, events@.subrange(0, i as int)),
                self.wf(),
                *ci == *old(ci),
            decreases events.len() - i,
        {
            let ghost prefix = events@.subrange(0, i as int);
            match events[i] {
                CharacterControl::Up => self.y_move = Some(Y_SPEED),
                CharacterControl::Down => self.y_move = Some(-Y_SPEED),
                CharacterControl::YMoveStop => self.y_move = None,
                CharacterControl::Right => self.x_move = Some(X_SPEED),
                CharacterControl::Left => self.x_move = Some(-X_SPEED),
                CharacterControl::XMoveStop => self.x_move = None,
            }
            i += 1;
            proof {
                let longer = events@.subrange(0, i as int);
                assert(longer.drop_last() =~= prefix);
                assert(longer.last() == events@[i - 1]);
            }
        }
        proof {
            assert(events@.subrange(0, events@.len() as int) =~= events@);
        }
        if let Some(x) = self.x_move {
            if let Some(y) = self.y_move {
                if mi.left_click_point.is_none() {
                    ci.x_movement += diagonal(x);
                    ci.y_movement += diagonal(y);
                }
            }
        }
        if let Some(x) = self.x_move {
            if self.y_move.is_none() {
                if mi.left_click_point.is_none() {
                    ci.x_movement += x;
                }
            }
        }
        if let Some(y) = self.y_move {
            if self.x_move.is_none() {
                if mi.left_click_point.is_none() {
                    ci.y_movement += y;
                }
            }
        }
    }
}

/// The diagonal-motion magnitude of one of the four held velocities: the
/// value divided by 1.5.
fn diagonal(v: i64) -> (r: i64)
    requires
        v == X_SPEED || v == -X_SPEED || v == Y_SPEED || v == -Y_SPEED,
    ensures
        r == diag_component(v as int),
{
    if v == X_SPEED {
        1600
    } else if v == -X_SPEED {
        -1600
    } else if v == Y_SPEED {
        1400
    } else {
        -1400
    }
}

} // verus!
