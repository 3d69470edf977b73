use hinterland::bounds::WorldBounds;
use hinterland::bullet::{BulletDrawable, Bullets, Collision, PreDrawSystem};
use hinterland::controls::CharacterInputState;
use hinterland::position::Position;

fn open_bounds() -> WorldBounds {
    // A 10x10 grid of passable tiles of side 100: world rectangle [0,1000)^2.
    WorldBounds::new(0, 0, 10, 10, 100, vec![true; 100])
}

fn input(x: i64, y: i64) -> CharacterInputState {
    let mut ci = CharacterInputState::new();
    ci.x_movement = x;
    ci.y_movement = y;
    ci
}

#[test]
fn bullet_new_starts_flying() {
    let b = BulletDrawable::new(Position::new(5, 6), Position::new(10, -5));
    assert_eq!(b.position, Position::new(5, 6));
    assert_eq!(b.previous_position, Position::new(0, 0));
    assert_eq!(b.offset_delta, Position::new(0, 0));
    assert_eq!(b.movement_direction, Position::new(10, -5));
    assert_eq!(b.status, Collision::Flying);
}

#[test]
fn bullet_update_applies_direction_speed() {
    // Direction (10, 5): x term 10 * 24 = 240, y term 5 * 40 = 200.
    let mut b = BulletDrawable::new(Position::new(500, 500), Position::new(10, 5));
    let bounds = open_bounds();
    b.update(&input(0, 0), &bounds);
    assert_eq!(b.position, Position::new(740, 300));
    assert_eq!(b.previous_position, Position::new(-240, 200));
    assert_eq!(b.offset_delta, Position::new(0, 0));
    // Still inside the world rectangle, but the tile under (0,0)-(740,300)
    // is behind the camera anchor: the tile lookup fails, so it registers a hit.
    assert_eq!(b.status, Collision::Hit);
}

#[test]
fn bullet_tracks_input_displacement() {
    let mut b = BulletDrawable::new(Position::new(0, 0), Position::new(0, 0));
    let bounds = open_bounds();
    b.update(&input(150, 150), &bounds);
    assert_eq!(b.offset_delta, Position::new(150, 150));
    assert_eq!(b.position, Position::new(150, 150));
    assert_eq!(b.status, Collision::Flying);
}

#[test]
fn epsilon_gated_delta_hold() {
    // After one real displacement, a sub-epsilon input change (one unit on
    // one axis) keeps the previous offset delta, and the position still
    // advances by the held delta plus the (zero) direction-speed term.
    let mut b = BulletDrawable::new(Position::new(0, 0), Position::new(0, 0));
    let bounds = open_bounds();
    b.update(&input(150, 150), &bounds);
    let held = b.offset_delta;
    assert_eq!(held, Position::new(150, 150));
    b.update(&input(150, 151), &bounds);
    assert_eq!(b.offset_delta, held);
    assert_eq!(b.position, Position::new(300, 300));
}

#[test]
fn above_epsilon_delta_recomputed() {
    let mut b = BulletDrawable::new(Position::new(0, 0), Position::new(0, 0));
    let bounds = open_bounds();
    b.update(&input(150, 150), &bounds);
    // prev is now (150, 150); a change of 2 units exceeds epsilon (1).
    b.update(&input(152, 150), &bounds);
    assert_eq!(b.offset_delta, Position::new(2, 0));
}

#[test]
fn bullet_leaves_world_out_of_bounds() {
    // Direction (10, 0) pushes x by 240 past the right world edge.
    let mut b = BulletDrawable::new(Position::new(990, 500), Position::new(10, 0));
    let bounds = open_bounds();
    b.update(&input(990, 500), &bounds);
    assert_eq!(b.status, Collision::OutOfBounds);
}

#[test]
fn status_monotonic_after_hit() {
    let mut b = BulletDrawable::new(Position::new(0, 0), Position::new(0, 0));
    let bounds = open_bounds();
    b.status = Collision::Hit;
    let before = b;
    // Erroneous extra update: the bullet must not return to Flying.
    b.update(&input(150, 150), &bounds);
    assert_eq!(b.status, Collision::Hit);
    assert_eq!(b, before);
}

#[test]
fn status_monotonic_after_out_of_bounds() {
    let mut b = BulletDrawable::new(Position::new(0, 0), Position::new(0, 0));
    let bounds = open_bounds();
    b.status = Collision::OutOfBounds;
    b.update(&input(150, 150), &bounds);
    assert_eq!(b.status, Collision::OutOfBounds);
}

#[test]
fn blocked_tile_registers_hit() {
    // Only the tile at column 1, row 1 is blocked.
    let mut passable = vec![true; 100];
    passable[1 * 10 + 1] = false;
    let bounds = WorldBounds::new(0, 0, 10, 10, 100, passable);
    // Stationary bullet anchored so that the tile under (input - position)
    // is exactly that blocked tile.
    let mut b = BulletDrawable::new(Position::new(10, 10), Position::new(0, 0));
    b.previous_position = Position::new(160, 160);
    b.update(&input(160, 160), &bounds);
    // position stays (10,10); tile position (150,150) -> tile (1,1).
    assert_eq!(b.position, Position::new(10, 10));
    assert_eq!(b.status, Collision::Hit);
}

#[test]
fn sweep_terminal_keeps_flying_in_order() {
    let mut bullets = Bullets::new();
    let a = BulletDrawable::new(Position::new(1, 0), Position::new(0, 0));
    let mut h = BulletDrawable::new(Position::new(2, 0), Position::new(0, 0));
    let c = BulletDrawable::new(Position::new(3, 0), Position::new(0, 0));
    let mut o = BulletDrawable::new(Position::new(4, 0), Position::new(0, 0));
    h.status = Collision::Hit;
    o.status = Collision::OutOfBounds;
    bullets.bullets.push(a);
    bullets.bullets.push(h);
    bullets.bullets.push(c);
    bullets.bullets.push(o);
    bullets.sweep_terminal();
    assert_eq!(bullets.bullets.len(), 2);
    assert_eq!(bullets.bullets[0].position, Position::new(1, 0));
    assert_eq!(bullets.bullets[1].position, Position::new(3, 0));
}

#[test]
fn pre_draw_updates_every_bullet() {
    let bounds = open_bounds();
    let ci = input(150, 150);
    let mut bullets = Bullets::new();
    bullets.bullets.push(BulletDrawable::new(Position::new(0, 0), Position::new(0, 0)));
    bullets.bullets.push(BulletDrawable::new(Position::new(10, 10), Position::new(0, 0)));
    let system = PreDrawSystem::new();
    system.run(&mut bullets, &ci, &bounds);

    let mut lone = BulletDrawable::new(Position::new(0, 0), Position::new(0, 0));
    lone.update(&ci, &bounds);
    assert_eq!(bullets.bullets[0], lone);
    assert_eq!(bullets.bullets[1].position, Position::new(160, 160));
}
