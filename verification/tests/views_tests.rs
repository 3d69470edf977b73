use hinterland::views::{
    cartesian_to_isometric, get_tiles, viewport_move, Point, Rectangle, TerrainFrame,
    ViewportEvents, TILES_H, TILES_W,
};

fn no_events() -> ViewportEvents {
    ViewportEvents { move_left: false, move_right: false, move_up: false, move_down: false }
}

#[test]
fn cartesian_to_isometric_halves_and_quarters() {
    let p = cartesian_to_isometric(200, 100);
    assert_eq!(p, Point { x: 50, y: 75 });
    let q = cartesian_to_isometric(0, 100);
    assert_eq!(q, Point { x: -50, y: 25 });
    let o = cartesian_to_isometric(0, 0);
    assert_eq!(o, Point { x: 0, y: 0 });
}

#[test]
fn get_tiles_lays_out_the_full_grid() {
    let tiles = get_tiles();
    assert_eq!(tiles.len(), 18 * 36);

    // Tile (0, 0): the isometric origin shifted by the tile offset.
    let first = tiles[0];
    assert_eq!(first.rect, Rectangle { x: 752, y: 0, w: TILES_W, h: TILES_H });
    assert_eq!(first.current, TerrainFrame::Grass);

    // Tile (1, 1) sits at flat index 1 * 36 + 1.
    let diag = tiles[37];
    assert_eq!(diag.rect, Rectangle { x: 802, y: 75, w: TILES_W, h: TILES_H });

    // The last tile (17, 35).
    let last = tiles[647];
    assert_eq!(last.rect, Rectangle { x: 702, y: 1725, w: TILES_W, h: TILES_H });
}

#[test]
fn viewport_move_shifts_along_the_first_held_flag() {
    let right = ViewportEvents { move_right: true, ..no_events() };
    let r = viewport_move(&right, 100, 200, 30, 40);
    assert_eq!(r, Rectangle { x: 97, y: 200, w: 90, h: 120 });

    let left = ViewportEvents { move_left: true, ..no_events() };
    let r = viewport_move(&left, 100, 200, 30, 40);
    assert_eq!(r, Rectangle { x: 103, y: 200, w: 90, h: 120 });

    let up = ViewportEvents { move_up: true, ..no_events() };
    let r = viewport_move(&up, 100, 200, 30, 40);
    assert_eq!(r, Rectangle { x: 100, y: 203, w: 90, h: 120 });

    let down = ViewportEvents { move_down: true, ..no_events() };
    let r = viewport_move(&down, 100, 200, 30, 40);
    assert_eq!(r, Rectangle { x: 100, y: 197, w: 90, h: 120 });

    let r = viewport_move(&no_events(), 100, 200, 30, 40);
    assert_eq!(r, Rectangle { x: 100, y: 200, w: 90, h: 120 });
}

#[test]
fn viewport_move_right_takes_precedence() {
    let both = ViewportEvents { move_right: true, move_left: true, move_up: true, move_down: true };
    let r = viewport_move(&both, 0, 0, 1, 1);
    assert_eq!(r, Rectangle { x: -3, y: 0, w: 3, h: 3 });
}
