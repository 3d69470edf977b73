use hinterland::bullet::{BulletDrawable, Bullets};
use hinterland::character::CharacterDrawable;
use hinterland::compose::{compose, Drawables};
use hinterland::orientation::Stance;
use hinterland::position::Position;
use hinterland::terrain_object::{TerrainObjectDrawable, TerrainObjects};
use hinterland::zombie::{ZombieDrawable, Zombies};

fn world(bullet_ys: &[i64], zombie_ys: &[i64], object_ys: &[i64], character_y: i64)
    -> (Bullets, Zombies, TerrainObjects, CharacterDrawable)
{
    let mut bullets = Bullets::new();
    for &y in bullet_ys {
        bullets.bullets.push(BulletDrawable::new(Position::new(0, y), Position::new(0, 0)));
    }
    let mut zombies = Zombies::new();
    for &y in zombie_ys {
        zombies.zombies.push(ZombieDrawable::new(Position::new(0, y), Stance::Still));
    }
    let mut objects = TerrainObjects::new();
    for &y in object_ys {
        objects.objects.push(TerrainObjectDrawable::new(Position::new(0, y)));
    }
    let character = CharacterDrawable::new(Position::new(0, character_y), Stance::Still);
    (bullets, zombies, objects, character)
}

#[test]
fn draw_order_is_descending_world_y() {
    // Bullet at 5, zombie at 2, terrain object at 8, character lowest.
    let (bullets, zombies, objects, character) = world(&[5], &[2], &[8], 0);
    let order = compose(&bullets, &zombies, &objects, &character);
    assert_eq!(order.len(), 4);
    assert!(matches!(order[0], Drawables::TerrainAmmo { y: 8, .. }));
    assert!(matches!(order[1], Drawables::Bullet { y: 5, .. }));
    assert!(matches!(order[2], Drawables::Zombie { y: 2, .. }));
    assert!(matches!(order[3], Drawables::Character { y: 0 }));

    // Repeated composition of unchanged input yields the identical order.
    let again = compose(&bullets, &zombies, &objects, &character);
    assert_eq!(order, again);
}

#[test]
fn equal_keys_keep_build_order() {
    // Bullets come before zombies in the flat list; with equal world Y the
    // stable sort keeps that order, and keeps index order within a kind.
    let (bullets, zombies, objects, character) = world(&[4, 4], &[4], &[], -1);
    let order = compose(&bullets, &zombies, &objects, &character);
    assert!(matches!(order[0], Drawables::Bullet { index: 0, y: 4 }));
    assert!(matches!(order[1], Drawables::Bullet { index: 1, y: 4 }));
    assert!(matches!(order[2], Drawables::Zombie { index: 0, y: 4 }));
    assert!(matches!(order[3], Drawables::Character { y: -1 }));
}

#[test]
fn terrain_object_kind_follows_index() {
    // Index 0 is the ammo crate, 1 and 2 houses, the rest trees.
    let (bullets, zombies, objects, character) = world(&[], &[], &[40, 30, 20, 10], -100);
    let order = compose(&bullets, &zombies, &objects, &character);
    assert!(matches!(order[0], Drawables::TerrainAmmo { index: 0, y: 40 }));
    assert!(matches!(order[1], Drawables::TerrainHouse { index: 1, y: 30 }));
    assert!(matches!(order[2], Drawables::TerrainHouse { index: 2, y: 20 }));
    assert!(matches!(order[3], Drawables::TerrainTree { index: 3, y: 10 }));
    assert!(matches!(order[4], Drawables::Character { y: -100 }));
}

#[test]
fn get_y_reads_the_sort_key() {
    let d = Drawables::Zombie { index: 3, y: -17 };
    assert_eq!(d.get_y(), -17);
    let c = Drawables::Character { y: 9 };
    assert_eq!(c.get_y(), 9);
}

#[test]
fn character_alone_composes_to_one_drawable() {
    let (bullets, zombies, objects, character) = world(&[], &[], &[], 12);
    let order = compose(&bullets, &zombies, &objects, &character);
    assert_eq!(order.len(), 1);
    assert!(matches!(order[0], Drawables::Character { y: 12 }));
}
