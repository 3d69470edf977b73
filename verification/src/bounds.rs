//! The spatial bounds oracle: pure predicates answering whether an entity can
//! occupy a world position, and whether it can occupy the tile under a world
//! position. Seeded from the tile map and consulted by all movement logic.

use vstd::prelude::*;
use crate::position::COORD_LIMIT;
use crate::position::Position;

verus! {

/// Upper bound on the tile grid's width and height, in tiles.
pub const MAX_TILES_PER_AXIS: usize = 4096;

/// Upper bound on the side length of one tile, in fixed-point world units.
pub const MAX_TILE_SIZE: i64 = 1_000_000;

/// World geometry: an axis-aligned rectangle of square tiles starting at
/// `(min_x, min_y)`, with a passability flag per tile (row-major).
#[derive(Clone, Debug)]
pub struct WorldBounds {
    pub min_x: i64,
    pub min_y: i64,
    pub tiles_w: usize,
    pub tiles_h: usize,
    pub tile_size: i64,
    pub passable: Vec<bool>,
}

impl WorldBounds {
    pub open spec fn wf(self) -> bool {
        &&& 1 <= self.tile_size <= MAX_TILE_SIZE
        &&& 1 <= self.tiles_w <= MAX_TILES_PER_AXIS
        &&& 1 <= self.tiles_h <= MAX_TILES_PER_AXIS
        &&& self.passable@.len() == self.tiles_w * self.tiles_h
        &&& -COORD_LIMIT <= self.min_x <= COORD_LIMIT
        &&& -COORD_LIMIT <= self.min_y <= COORD_LIMIT
    }

    /// The world position `(x, y)` lies inside the covered rectangle.
    pub open spec fn in_world(self, x: int, y: int) -> bool {
        &&& self.min_x <= x < self.min_x + self.tiles_w * self.tile_size
        &&& self.min_y <= y < self.min_y + self.tiles_h * self.tile_size
    }

    /// Column of the tile under world x-coordinate `x`.
    pub open spec fn tile_col(self, x: int) -> int {
        (x - self.min_x) / (self.tile_size as int)
    }

    /// Row of the tile under world y-coordinate `y`.
    pub open spec fn tile_row(self, y: int) -> int {
        (y - self.min_y) / (self.tile_size as int)
    }

    /// The tile under world position `(x, y)` exists and is passable.
    pub open spec fn tile_passable(self, x: int, y: int) -> bool {
        &&& self.in_world(x, y)
        &&& self.passable@[self.tile_row(y) * self.tiles_w + self.tile_col(x)]
    }

    /// Side length of the covered rectangle along one axis, in world units.
    fn axis_extent(tiles: usize, tile_size: i64) -> (r: i64)
        requires
            1 <= tiles <= MAX_TILES_PER_AXIS,
            1 <= tile_size <= MAX_TILE_SIZE,
        ensures
            r == tiles * tile_size,
            1 <= r <= MAX_TILES_PER_AXIS * MAX_TILE_SIZE,
    {
        proof {
            assert(1 <= tiles * tile_size <= MAX_TILES_PER_AXIS * MAX_TILE_SIZE)
                by (nonlinear_arith)
                requires 1 <= tiles <= MAX_TILES_PER_AXIS && 1 <= tile_size <= MAX_TILE_SIZE;
        }
        (tiles as i64) * tile_size
    }

    pub fn new(
        min_x: i64,
        min_y: i64,
        tiles_w: usize,
        tiles_h: usize,
        tile_size: i64,
        passable: Vec<bool>,
    ) -> (r: WorldBounds)
        requires
            1 <= tile_size <= MAX_TILE_SIZE,
            1 <= tiles_w <= MAX_TILES_PER_AXIS,
            1 <= tiles_h <= MAX_TILES_PER_AXIS,
            passable@.len() == tiles_w * tiles_h,
            -COORD_LIMIT <= min_x <= COORD_LIMIT,
            -COORD_LIMIT <= min_y <= COORD_LIMIT,
        ensures
            r.wf(),
            r == (WorldBounds { min_x, min_y, tiles_w, tiles_h, tile_size, passable }),
    {
        WorldBounds { min_x, min_y, tiles_w, tiles_h, tile_size, passable }
    }

    /// Can an entity occupy world position `p`: true exactly when `p` lies
    /// inside the covered world rectangle.
    pub fn can_move(&self, p: Position) -> (r: bool)
        requires
            self.wf(),
        ensures
            r == self.in_world(p.x as int, p.y as int),
    {
        let extent_x: i64 = WorldBounds::axis_extent(self.tiles_w, self.tile_size);
        let extent_y: i64 = WorldBounds::axis_extent(self.tiles_h, self.tile_size);
        self.min_x <= p.x && p.x < self.min_x + extent_x && self.min_y <= p.y
            && p.y < self.min_y + extent_y
    }

    /// Can an entity occupy the tile under world position `p`: true exactly
    /// when that tile exists and is passable.
    pub fn can_move_to_tile(&self, p: Position) -> (r: bool)
        requires
            self.wf(),
        ensures
            r == self.tile_passable(p.x as int, p.y as int),
    {
        let extent_x: i64 = WorldBounds::axis_extent(self.tiles_w, self.tile_size);
        let extent_y: i64 = WorldBounds::axis_extent(self.tiles_h, self.tile_size);
        if !(self.min_x <= p.x && p.x < self.min_x + extent_x && self.min_y <= p.y
            && p.y < self.min_y + extent_y) {
            return false;
        }
        let dx: u64 = (p.x - self.min_x) as u64;
        let dy: u64 = (p.y - self.min_y) as u64;
        let col: u64 = dx / (self.tile_size as u64);
        let row: u64 = dy / (self.tile_size as u64);
        proof {
            assert((dx as int) < (self.tile_size as int) * (self.tiles_w as int))
                by (nonlinear_arith)
                requires (dx as int) < (self.tiles_w as int) * (self.tile_size as int);
            assert((dy as int) < (self.tile_size as int) * (self.tiles_h as int))
                by (nonlinear_arith)
                requires (dy as int) < (self.tiles_h as int) * (self.tile_size as int);
            vstd::arithmetic::div_mod::lemma_multiply_divide_lt(
                dx as int, self.tile_size as int, self.tiles_w as int);
            vstd::arithmetic::div_mod::lemma_multiply_divide_lt(
                dy as int, self.tile_size as int, self.tiles_h as int);
            vstd::arithmetic::div_mod::lemma_div_pos_is_pos(dx as int, self.tile_size as int);
            vstd::arithmetic::div_mod::lemma_div_pos_is_pos(dy as int, self.tile_size as int);
            assert(col < self.tiles_w && row < self.tiles_h);
        }
        let n: usize = self.passable.len();
        proof {
            assert(row * self.tiles_w + col < self.tiles_w * self.tiles_h) by (nonlinear_arith)
                requires
                    row < self.tiles_h,
                    col < self.tiles_w,
                    self.tiles_w >= 1;
            assert(row * self.tiles_w + col < n);
        }
        let idx: usize = (row as usize) * self.tiles_w + (col as usize);
        self.passable[idx]
    }
}

} // verus!
