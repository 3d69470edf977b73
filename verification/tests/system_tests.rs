use hinterland::bullet::Bullets;
use hinterland::character::{CharacterDrawable, CharacterSprite};
use hinterland::clock::SimulationClock;
use hinterland::compose::Drawables;
use hinterland::orientation::Stance;
use hinterland::position::Position;
use hinterland::system::run_frame;
use hinterland::terrain_object::TerrainObjects;
use hinterland::zombie::{ZombieDrawable, Zombies};

#[test]
fn walk_fire_advances_eligible_animations() {
    let mut clock = SimulationClock::new();
    let character = CharacterDrawable::new(Position::new(0, 3), Stance::Walking);
    let mut sprite = CharacterSprite::new();
    let mut zombies = Zombies::new();
    zombies.zombies.push(ZombieDrawable::new(Position::new(0, 9), Stance::Still));
    zombies.zombies.push(ZombieDrawable::new(Position::new(0, 7), Stance::Running));
    zombies.zombies.push(ZombieDrawable::new(Position::new(0, 5), Stance::NormalDeath));
    let bullets = Bullets::new();
    let objects = TerrainObjects::new();

    // Delta 1000 drains every cooldown to exactly zero: all three fire.
    let order = run_frame(
        &mut clock, 1000, &character, &mut sprite, &mut zombies, &bullets, &objects,
    );

    assert_eq!(clock.cool_down, 0);
    assert_eq!(clock.frames, 1);
    // Walking character: run animation stepped.
    assert_eq!(sprite.character_idx, 1);
    // Still zombie: alive animation stepped by the walk cooldown.
    assert_eq!(zombies.zombies[0].alive_idx, 1);
    // Running zombie: stepped by the run cooldown, not the walk branch.
    assert_eq!(zombies.zombies[1].alive_idx, 1);
    // Dying zombie: death animation stepped.
    assert_eq!(zombies.zombies[2].death_idx, 1);
    assert_eq!(zombies.zombies[2].alive_idx, 0);

    // The draw list is the zombies by descending world Y, then the character.
    assert_eq!(order.len(), 4);
    assert!(matches!(order[0], Drawables::Zombie { index: 0, y: 9 }));
    assert!(matches!(order[1], Drawables::Zombie { index: 1, y: 7 }));
    assert!(matches!(order[2], Drawables::Zombie { index: 2, y: 5 }));
    assert!(matches!(order[3], Drawables::Character { y: 3 }));
}

#[test]
fn fire_fires_while_walk_cooldown_is_live() {
    let mut clock = SimulationClock::new();
    clock.cool_down = 30;
    clock.fire_cool_down = 20;
    clock.run_cool_down = 15;
    let character = CharacterDrawable::new(Position::new(0, 0), Stance::Firing);
    let mut sprite = CharacterSprite::new();
    let mut zombies = Zombies::new();
    let bullets = Bullets::new();
    let objects = TerrainObjects::new();

    run_frame(&mut clock, 20, &character, &mut sprite, &mut zombies, &bullets, &objects);

    // Walk cooldown is still live (10), fire cooldown hit zero: fire steps.
    assert_eq!(clock.cool_down, 10);
    assert_eq!(clock.fire_cool_down, 0);
    assert_eq!(sprite.character_fire_idx, 1);
    assert_eq!(sprite.character_idx, 0);
}

#[test]
fn fire_cadence_is_independent_of_walk_cooldown() {
    // The walk and fire cooldowns reach zero on the same tick: the fire
    // animation of a firing character still advances — the three cooldowns
    // fire independently.
    let mut clock = SimulationClock::new();
    clock.cool_down = 20;
    clock.fire_cool_down = 20;
    clock.run_cool_down = 15;
    let character = CharacterDrawable::new(Position::new(0, 0), Stance::Firing);
    let mut sprite = CharacterSprite::new();
    let mut zombies = Zombies::new();
    let bullets = Bullets::new();
    let objects = TerrainObjects::new();

    run_frame(&mut clock, 20, &character, &mut sprite, &mut zombies, &bullets, &objects);

    assert_eq!(clock.cool_down, 0);
    assert_eq!(clock.fire_cool_down, 0);
    assert_eq!(sprite.character_fire_idx, 1);
    // Not walking: the run counter is untouched.
    assert_eq!(sprite.character_idx, 0);
}

#[test]
fn no_cooldown_fired_means_no_animation_step() {
    let mut clock = SimulationClock::new();
    let character = CharacterDrawable::new(Position::new(0, 0), Stance::Walking);
    let mut sprite = CharacterSprite::new();
    let mut zombies = Zombies::new();
    zombies.zombies.push(ZombieDrawable::new(Position::new(0, 1), Stance::Walking));
    let bullets = Bullets::new();
    let objects = TerrainObjects::new();

    run_frame(&mut clock, 10, &character, &mut sprite, &mut zombies, &bullets, &objects);

    assert_eq!(clock.cool_down, 990);
    assert_eq!(sprite.character_idx, 0);
    assert_eq!(zombies.zombies[0].alive_idx, 0);
}
