//! Zombies: drawable state and their bounded animation counters.

use vstd::prelude::*;
use crate::character::next_frame;
use crate::orientation::Stance;
use crate::position::Position;

verus! {

/// Drawable state of one zombie. `alive_idx` drives the still/walk/run
/// animations, `death_idx` the death animations; each wraps at the threshold
/// the caller passes for the zombie's current stance.
#[derive(Clone, Copy, Debug, PartialEq, Eq, Structural)]
pub struct ZombieDrawable {
    pub position: Position,
    pub stance: Stance,
    pub alive_idx: usize,
    pub death_idx: usize,
}

impl ZombieDrawable {
    pub fn new(position: Position, stance: Stance) -> (r: ZombieDrawable)
        ensures
            r.position == position,
            r.stance == stance,
            r.alive_idx == 0,
            r.death_idx == 0,
    {
        ZombieDrawable { position, stance, alive_idx: 0, death_idx: 0 }
    }

    /// Advance the alive-animation counter one step, wrapping at `max`.
    pub fn update_alive_idx(&mut self, max: usize)
        ensures
            final(self).alive_idx == next_frame(old(self).alive_idx as nat, max as nat),
            *final(self) == (ZombieDrawable { alive_idx: final(self).alive_idx, ..*old(self) }),
    {
        if self.alive_idx < max {
            self.alive_idx += 1;
        } else {
            self.alive_idx = 0;
        }
    }

    /// Advance the death-animation counter one step, wrapping at `max`.
    pub fn update_death_idx(&mut self, max: usize)
        ensures
            final(self).death_idx == next_frame(old(self).death_idx as nat, max as nat),
            *final(self) == (ZombieDrawable { death_idx: final(self).death_idx, ..*old(self) }),
    {
        if self.death_idx < max {
            self.death_idx += 1;
        } else {
            self.death_idx = 0;
        }
    }
}

/// The collection of live zombies, owned by the simulation world.
#[derive(Clone, Debug)]
pub struct Zombies {
    pub zombies: Vec<ZombieDrawable>,
}

impl Zombies {
    pub fn new() -> (r: Zombies)
        ensures
            r.zombies@ =~= Seq::<ZombieDrawable>::empty(),
    {
        Zombies { zombies: Vec::new() }
    }
}

} // verus!
