//! The player character: its animation-frame counters and drawable state.

use vstd::prelude::*;
use crate::orientation::Stance;
use crate::position::Position;

verus! {

/// Largest run-animation frame index; the run counter cycles `0..=RUN_FRAME_MAX`.
pub const RUN_FRAME_MAX: usize = 13;

/// Largest fire-animation frame index; the fire counter cycles `0..=FIRE_FRAME_MAX`.
pub const FIRE_FRAME_MAX: usize = 4;

/// One step of a bounded animation counter with wrap threshold `max`:
/// increment below the threshold, wrap to zero at it.
pub open spec fn next_frame(idx: nat, max: nat) -> nat {
    if idx < max {
        idx + 1
    } else {
        0
    }
}

/// The counter value after `n` steps of `next_frame` starting from zero.
pub open spec fn frame_after(n: nat, max: nat) -> nat
    decreases n,
{
    if n == 0 {
        0
    } else {
        next_frame(frame_after((n - 1) as nat, max), max)
    }
}

/// An animation counter with wrap threshold `max` cycles
/// `0, 1, ..., max, 0, 1, ...` and never exceeds `max`: after `n` steps from
/// zero its value is exactly `n % (max + 1)`.
pub proof fn lemma_animation_wrap(n: nat, max: nat)
    ensures
        frame_after(n, max) == n % (max + 1),
        frame_after(n, max) <= max,
    decreases n,
{
    let m = max + 1;
    if n > 0 {
        lemma_animation_wrap((n - 1) as nat, max);
        let r = (n - 1) % m as int;
        let q = (n - 1) / m as int;
        vstd::arithmetic::div_mod::lemma_fundamental_div_mod(n - 1, m as int);
        if r < max {
            vstd::arithmetic::div_mod::lemma_fundamental_div_mod_converse(
                n as int, m as int, q, r + 1);
        } else {
            assert(n == (q + 1) * m) by (nonlinear_arith)
                requires n - 1 == q * m + r && r == max && m == max + 1;
            vstd::arithmetic::div_mod::lemma_fundamental_div_mod_converse(
                n as int, m as int, q + 1, 0);
        }
    } else {
        vstd::arithmetic::div_mod::lemma_small_mod(0, m);
    }
}

/// Marker component for the unique player character entity.
#[derive(Clone, Copy, Debug)]
pub struct Character;

/// Animation-frame counters of the player character. Each counter is bounded
/// by its own wrap threshold and advances only when its cooldown fires.
#[derive(Clone, Copy, Debug, PartialEq, Eq, Structural)]
pub struct CharacterSprite {
    pub character_idx: usize,
    pub character_fire_idx: usize,
}

impl CharacterSprite {
    /// Both counters stay within their wrap thresholds.
    pub open spec fn wf(self) -> bool {
        self.character_idx <= RUN_FRAME_MAX && self.character_fire_idx <= FIRE_FRAME_MAX
    }

    pub fn new() -> (r: CharacterSprite)
        ensures
            r.character_idx == 0,
            r.character_fire_idx == 0,
            r.wf(),
    {
        CharacterSprite { character_idx: 0, character_fire_idx: 0 }
    }

    /// Advance the run-animation counter one step (wrapping at
    /// `RUN_FRAME_MAX`) and rewind the fire-animation counter.
    pub fn update_run(&mut self)
        ensures
            final(self).character_idx == next_frame(old(self).character_idx as nat, RUN_FRAME_MAX as nat),
            final(self).character_fire_idx == 0,
            final(self).wf(),
    {
        if self.character_idx < RUN_FRAME_MAX {
            self.character_idx += 1;
        } else {
            self.character_idx = 0;
        }
        self.character_fire_idx = 0;
    }

    /// Advance the fire-animation counter one step, wrapping at
    /// `FIRE_FRAME_MAX`; the run counter is untouched.
    pub fn update_fire(&mut self)
        ensures
            final(self).character_fire_idx == next_frame(old(self).character_fire_idx as nat, FIRE_FRAME_MAX as nat),
            final(self).character_idx == old(self).character_idx,
            old(self).wf() ==> final(self).wf(),
    {
        if self.character_fire_idx < FIRE_FRAME_MAX {
            self.character_fire_idx += 1;
        } else {
            self.character_fire_idx = 0;
        }
    }
}

/// Drawable state of the player character: where it stands and what it is
/// doing. The stance selects which sprite counter the cooldown scheduler
/// advances.
#[derive(Clone, Copy, Debug, PartialEq, Eq, Structural)]
pub struct CharacterDrawable {
    pub position: Position,
    pub stance: Stance,
}

impl CharacterDrawable {
    pub fn new(position: Position, stance: Stance) -> (r: CharacterDrawable)
        ensures
            r.position == position,
            r.stance == stance,
    {
        CharacterDrawable { position, stance }
    }
}

} // verus!
