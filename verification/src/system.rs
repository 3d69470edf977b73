//! The per-frame draw system, re-architected around an explicit simulation
//! clock: advance the cooldowns, fire the gated animation updates for every
//! eligible entity, and compose the frame's depth-sorted draw list.

use vstd::prelude::*;
use crate::character::{next_frame, CharacterDrawable, CharacterSprite, FIRE_FRAME_MAX, RUN_FRAME_MAX};
use crate::clock::{clock_after, SimulationClock};
use crate::compose::{compose, drawables_of, sort_desc, sorted_desc, Drawables};
use crate::bullet::Bullets;
use crate::orientation::Stance;
use crate::terrain_object::TerrainObjects;
use crate::zombie::{Zombies, ZombieDrawable};

verus! {

/// Wrap threshold of a zombie's normal-death animation.
pub const ZOMBIE_NORMAL_DEATH_MAX: usize = 5;

/// Wrap threshold of a zombie's critical-death animation.
pub const ZOMBIE_CRITICAL_DEATH_MAX: usize = 7;

/// Wrap threshold of a zombie's walk and run animations.
pub const ZOMBIE_WALK_MAX: usize = 7;

/// Wrap threshold of a zombie's idle animation.
pub const ZOMBIE_STILL_MAX: usize = 3;

/// One step of the character's run animation: advance the run counter, rewind
/// the fire counter.
pub open spec fn run_step(s: CharacterSprite) -> CharacterSprite {
    CharacterSprite {
        character_idx: next_frame(s.character_idx as nat, RUN_FRAME_MAX as nat) as usize,
        character_fire_idx: 0,
    }
}

/// One step of the character's fire animation.
pub open spec fn fire_step(s: CharacterSprite) -> CharacterSprite {
    CharacterSprite {
        character_fire_idx: next_frame(s.character_fire_idx as nat, FIRE_FRAME_MAX as nat) as usize,
        ..s
    }
}

/// What one frame does to the character sprite: the walk cooldown firing
/// advances the run animation of a walking character, and — independently —
/// the fire cooldown firing advances the fire animation of a firing
/// character. The stance is one value, so at most one branch applies.
pub open spec fn sprite_after(
    s: CharacterSprite,
    stance: Stance,
    walk_fired: bool,
    fire_fired: bool,
) -> CharacterSprite {
    if walk_fired && stance is Walking {
        run_step(s)
    } else if fire_fired && stance is Firing {
        fire_step(s)
    } else {
        s
    }
}

/// One step of a zombie's alive animation with wrap threshold `max`.
pub open spec fn alive_step(z: ZombieDrawable, max: usize) -> ZombieDrawable {
    ZombieDrawable {
        alive_idx: next_frame(z.alive_idx as nat, max as nat) as usize,
        ..z
    }
}

/// One step of a zombie's death animation with wrap threshold `max`.
pub open spec fn death_step(z: ZombieDrawable, max: usize) -> ZombieDrawable {
    ZombieDrawable {
        death_idx: next_frame(z.death_idx as nat, max as nat) as usize,
        ..z
    }
}

/// What the walk cooldown firing does to one zombie, selected by its stance:
/// the death stances advance their death animation, walking and still
/// zombies their alive animation, and a running zombie is left to the run
/// cooldown.
pub open spec fn zombie_walk_step(z: ZombieDrawable) -> ZombieDrawable {
    match z.stance {
        Stance::NormalDeath => death_step(z, ZOMBIE_NORMAL_DEATH_MAX),
        Stance::CriticalDeath => death_step(z, ZOMBIE_CRITICAL_DEATH_MAX),
        Stance::Walking => alive_step(z, ZOMBIE_WALK_MAX),
        Stance::Still => alive_step(z, ZOMBIE_STILL_MAX),
        _ => z,
    }
}

/// What one frame does to one zombie: the walk-cooldown step if the walk
/// cooldown fired, then the run-animation step if the run cooldown fired and
/// the zombie is running.
pub open spec fn zombie_after(z: ZombieDrawable, walk_fired: bool, run_fired: bool) -> ZombieDrawable {
    let z1 = if walk_fired {
        zombie_walk_step(z)
    } else {
        z
    };
    if run_fired && z1.stance is Running {
        alive_step(z1, ZOMBIE_WALK_MAX)
    } else {
        z1
    }
}

/// Run one frame of the draw system's simulation side: advance the clock by
/// `delta` milliseconds, fire the cooldown-gated animation updates for the
/// character and every zombie, and compose the frame's draw list, sorted by
/// descending world Y. The returned order is exactly the order in which the
/// renderer must dispatch the per-kind draw calls.
pub fn run_frame(
    clock: &mut SimulationClock,
    delta: u32,
    character: &CharacterDrawable,
    character_sprite: &mut CharacterSprite,
    zombies: &mut Zombies,
    bullets: &Bullets,
    objects: &TerrainObjects,
) -> (r: Vec<Drawables>)
    requires
        old(clock).frames < u64::MAX,
    ensures
        *final(clock) == clock_after(*old(clock), delta),
        *final(character_sprite) == sprite_after(
            *old(character_sprite),
            character.stance,
            final(clock).walk_fired(),
            final(clock).fire_fired(),
        ),
        final(zombies).zombies@.len() == old(zombies).zombies@.len(),
        forall|i: int| 0 <= i < old(zombies).zombies@.len()
            ==> final(zombies).zombies@[i] == zombie_after(
                #[trigger] old(zombies).zombies@[i],
                final(clock).walk_fired(),
                final(clock).run_fired(),
            ),
        r@ == sort_desc(drawables_of(*bullets, *final(zombies), *objects, *character)),
        sorted_desc(r@),
{
    clock.advance(delta);

    if clock.cool_down == 0 {
        if character.stance == Stance::Walking {
            character_sprite.update_run();
        }
        let n: usize = zombies.zombies.len();
        let mut i: usize = 0;
        while i < n
            invariant
                i <= n,
                n == zombies.zombies@.len(),
                n == old(zombies).zombies@.len(),
                forall|j: int| 0 <= j < i
                    ==> zombies.zombies@[j] == zombie_walk_step(#[trigger] old(zombies).zombies@[j]),
                forall|j: int| i <= j < n
                    ==> #[trigger] zombies.zombies@[j] == old(zombies).zombies@[j],
            decreases n - i,
        {
            let mut z = zombies.zombies[i];
            match z.stance {
                Stance::NormalDeath => z.update_death_idx(ZOMBIE_NORMAL_DEATH_MAX),
                Stance::CriticalDeath => z.update_death_idx(ZOMBIE_CRITICAL_DEATH_MAX),
                Stance::Walking => z.update_alive_idx(ZOMBIE_WALK_MAX),
                Stance::Still => z.update_alive_idx(ZOMBIE_STILL_MAX),
                _ => {},
            }
            zombies.zombies.set(i, z);
            i += 1;
        }
    }

    // The fire cadence is gated on the fire cooldown alone: the three
    // cooldowns fire independently of one another.
    if clock.fire_cool_down == 0 && character.stance == Stance::Firing {
        character_sprite.update_fire();
    }

    let ghost mid = zombies.zombies@;

    if clock.run_cool_down == 0 {
        let n: usize = zombies.zombies.len();
        let mut i: usize = 0;
        while i < n
            invariant
                i <= n,
                n == zombies.zombies@.len(),
                n == mid.len(),
                forall|j: int| 0 <= j < i
                    ==> zombies.zombies@[j] == (if (#[trigger] mid[j]).stance is Running {
                        alive_step(mid[j], ZOMBIE_WALK_MAX)
                    } else {
                        mid[j]
                    }),
                forall|j: int| i <= j < n ==> #[trigger] zombies.zombies@[j] == mid[j],
            decreases n - i,
        {
            let mut z = zombies.zombies[i];
            if z.stance == Stance::Running {
                z.update_alive_idx(ZOMBIE_WALK_MAX);
                zombies.zombies.set(i, z);
            }
            i += 1;
            proof {
                assert(zombies.zombies@[i - 1] == (if mid[i - 1].stance is Running {
                    alive_step(mid[i - 1], ZOMBIE_WALK_MAX)
                } else {
                    mid[i - 1]
                }));
            }
        }
    }

    compose(bullets, zombies, objects, character)
}

} // verus!
