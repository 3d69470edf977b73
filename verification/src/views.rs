//! The isometric tile view: cartesian-to-isometric projection, the laid-out
//! terrain tiles, and viewport movement. Lengths are fixed-point world units.

use vstd::prelude::*;
use crate::position::COORD_LIMIT;

verus! {

/// Width of one terrain chunk.
pub const TERRAIN_W: i64 = 1000;

/// Height of one terrain chunk.
pub const TERRAIN_H: i64 = 500;

/// Width of one tile sprite.
pub const TILES_W: i64 = 200;

/// Height of one tile sprite.
pub const TILES_H: i64 = 100;

/// Screen width.
pub const SCREEN_WIDTH: i64 = 1600;

/// Horizontal offset of the laid-out tiles: 47% of the screen width.
pub const TILES_OFFSET_X: i64 = 752;

/// How far the viewport shifts per tick while a movement flag is held.
pub const VIEWPORT_STEP: i64 = 3;

/// The sprite frame a terrain tile shows.
#[derive(Clone, Copy, Debug, PartialEq, Eq, Structural)]
pub enum TerrainFrame {
    Sand,
    Grass,
}

/// An axis-aligned rectangle in world units.
#[derive(Clone, Copy, Debug, PartialEq, Eq, Structural)]
pub struct Rectangle {
    pub x: i64,
    pub y: i64,
    pub w: i64,
    pub h: i64,
}

/// One laid-out terrain tile: its screen rectangle and its current frame.
#[derive(Clone, Copy, Debug, PartialEq, Eq, Structural)]
pub struct TerrainTile {
    pub rect: Rectangle,
    pub current: TerrainFrame,
}

/// A 2D point of the isometric view.
#[derive(Clone, Copy, Debug, PartialEq, Eq, Structural)]
pub struct Point {
    pub x: i64,
    pub y: i64,
}

/// Project cartesian world coordinates onto the isometric view: the diagonal
/// half-difference becomes the screen x, the quarter-sum the screen y. The
/// divisions must be exact, which every caller on the tile lattice satisfies.
pub fn cartesian_to_isometric(point_x: i64, point_y: i64) -> (r: Point)
    requires
        -COORD_LIMIT <= point_x <= COORD_LIMIT,
        -COORD_LIMIT <= point_y <= COORD_LIMIT,
        (point_x - point_y) % 2 == 0,
        (point_x + point_y) % 4 == 0,
    ensures
        2 * r.x == point_x - point_y,
        4 * r.y == point_x + point_y,
{
    let diff: i64 = point_x - point_y;
    let total: i64 = point_x + point_y;
    Point { x: diff / 2, y: total / 4 }
}

/// The screen rectangle of the tile at grid position `(x, y)`: its lattice
/// point projected isometrically, shifted right by the tile offset.
pub open spec fn tile_rect_at(x: int, y: int) -> Rectangle {
    Rectangle {
        x: ((TILES_W * x - TILES_H * y) / 2 + TILES_OFFSET_X) as i64,
        y: ((TILES_W * x + TILES_H * y) / 4) as i64,
        w: TILES_W,
        h: TILES_H,
    }
}

/// Lay out the full grid of terrain tiles on the isometric lattice, all
/// showing the grass frame, column by column.
pub fn get_tiles() -> (r: Vec<TerrainTile>)
    ensures
        r@.len() == crate::terrain::TILES_PCS_W * crate::terrain::TILES_PCS_H,
        forall|x: int, y: int|
            0 <= x < crate::terrain::TILES_PCS_W && 0 <= y < crate::terrain::TILES_PCS_H
            ==> #[trigger] r@[x * crate::terrain::TILES_PCS_H + y] == (TerrainTile {
                rect: tile_rect_at(x, y),
                current: TerrainFrame::Grass,
            }),
{
    let w: usize = crate::terrain::TILES_PCS_W;
    let h: usize = crate::terrain::TILES_PCS_H;
    let mut tiles: Vec<TerrainTile> = Vec::new();
    let mut x: usize = 0;
    while x < w
        invariant
            x <= w,
            w == crate::terrain::TILES_PCS_W,
            h == crate::terrain::TILES_PCS_H,
            tiles@.len() == x * h,
            forall|xi: int, yi: int| 0 <= xi < x && 0 <= yi < h
                ==> #[trigger] tiles@[xi * h + yi] == (TerrainTile {
                    rect: tile_rect_at(xi, yi),
                    current: TerrainFrame::Grass,
                }),
        decreases w - x,
    {
        let mut y: usize = 0;
        while y < h
            invariant
                x < w,
                y <= h,
                w == crate::terrain::TILES_PCS_W,
                h == crate::terrain::TILES_PCS_H,
                tiles@.len() == x * h + y,
                forall|xi: int, yi: int| (0 <= xi < x && 0 <= yi < h) || (xi == x && 0 <= yi < y)
                    ==> #[trigger] tiles@[xi * h + yi] == (TerrainTile {
                        rect: tile_rect_at(xi, yi),
                        current: TerrainFrame::Grass,
                    }),
            decreases h - y,
        {
            let px: i64 = TILES_W * (x as i64);
            let py: i64 = TILES_H * (y as i64);
            proof {
                vstd::arithmetic::div_mod::lemma_fundamental_div_mod_converse(
                    px - py, 2, 100 * x - 50 * y, 0);
                vstd::arithmetic::div_mod::lemma_fundamental_div_mod_converse(
                    px + py, 4, 50 * x + 25 * y, 0);
            }
            let point = cartesian_to_isometric(px, py);
            let tile = TerrainTile {
                rect: Rectangle {
                    x: point.x + TILES_OFFSET_X,
                    y: point.y,
                    w: TILES_W,
                    h: TILES_H,
                },
                current: TerrainFrame::Grass,
            };
            proof {
                assert(tile == (TerrainTile {
                    rect: tile_rect_at(x as int, y as int),
                    current: TerrainFrame::Grass,
                }));
            }
            tiles.push(tile);
            y += 1;
            proof {
                assert forall|xi: int, yi: int|
                    (0 <= xi < x && 0 <= yi < h) || (xi == x && 0 <= yi < y)
                    implies #[trigger] tiles@[xi * h + yi] == (TerrainTile {
                        rect: tile_rect_at(xi, yi),
                        current: TerrainFrame::Grass,
                    }) by {
                    if xi == x && yi == y - 1 {
                        assert(xi * h + yi == tiles@.len() - 1) by (nonlinear_arith)
                            requires
                                xi == x,
                                yi == y - 1,
                                tiles@.len() == x * h + y;
                    } else {
                        assert(xi * h + yi < tiles@.len() - 1) by (nonlinear_arith)
                            requires
                                ((0 <= xi < x && 0 <= yi < h) || (xi == x && 0 <= yi < y - 1)),
                                h >= 1,
                                tiles@.len() == x * h + y,
                                y >= 1;
                    }
                }
            }
        }
        x += 1;
    }
    tiles
}

/// The held viewport-movement flags of one tick.
#[derive(Clone, Copy, Debug, PartialEq, Eq, Structural)]
pub struct ViewportEvents {
    pub move_left: bool,
    pub move_right: bool,
    pub move_up: bool,
    pub move_down: bool,
}

/// Where one tick of held movement flags puts the viewport: the current
/// corner shifted one step along the first held direction (right before
/// left before up before down), with the output size always tripled.
pub open spec fn viewport_rect_after(
    events: ViewportEvents,
    curr_x: int,
    curr_y: int,
    out_w: int,
    out_h: int,
) -> Rectangle {
    let x = if events.move_right {
        curr_x - VIEWPORT_STEP
    } else if events.move_left {
        curr_x + VIEWPORT_STEP
    } else {
        curr_x
    };
    let y = if !events.move_right && !events.move_left && events.move_up {
        curr_y + VIEWPORT_STEP
    } else if !events.move_right && !events.move_left && !events.move_up && events.move_down {
        curr_y - VIEWPORT_STEP
    } else {
        curr_y
    };
    Rectangle { x: x as i64, y: y as i64, w: (out_w * 3) as i64, h: (out_h * 3) as i64 }
}

/// Shift the viewport one step along the first held movement flag and triple
/// the output size.
pub fn viewport_move(events: &ViewportEvents, curr_x: i64, curr_y: i64, out_w: i64, out_h: i64)
    -> (r: Rectangle)
    requires
        -COORD_LIMIT <= curr_x <= COORD_LIMIT,
        -COORD_LIMIT <= curr_y <= COORD_LIMIT,
        0 <= out_w <= COORD_LIMIT,
        0 <= out_h <= COORD_LIMIT,
    ensures
        r == viewport_rect_after(*events, curr_x as int, curr_y as int, out_w as int, out_h as int),
{
    if events.move_right {
        Rectangle { x: curr_x - VIEWPORT_STEP, y: curr_y, w: out_w * 3, h: out_h * 3 }
    } else if events.move_left {
        Rectangle { x: curr_x + VIEWPORT_STEP, y: curr_y, w: out_w * 3, h: out_h * 3 }
    } else if events.move_up {
        Rectangle { x: curr_x, y: curr_y + VIEWPORT_STEP, w: out_w * 3, h: out_h * 3 }
    } else if events.move_down {
        Rectangle { x: curr_x, y: curr_y - VIEWPORT_STEP, w: out_w * 3, h: out_h * 3 }
    } else {
        Rectangle { x: curr_x, y: curr_y, w: out_w * 3, h: out_h * 3 }
    }
}

} // verus!
