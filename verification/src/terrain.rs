//! The terrain tile map: packing the loaded grid of tile indices into the
//! four-lane buffer entries the terrain renderer consumes.

use vstd::prelude::*;

verus! {

/// Width of the tile grid, in tiles.
pub const TILES_PCS_W: usize = 18;

/// Height of the tile grid, in tiles.
pub const TILES_PCS_H: usize = 36;

/// Length of the packed tile buffer.
pub const TILEMAP_BUF_LENGTH: usize = TILES_PCS_H * TILES_PCS_H;

/// A quarter of the packed tile buffer: each buffer entry has four lanes, and
/// the grid is folded into the entries one lane-sized stretch at a time.
pub const QUARTER_BUF_LENGTH: usize = TILEMAP_BUF_LENGTH / 4;

/// One packed tile-buffer entry: four lanes of tile values.
#[derive(Clone, Copy, Debug, PartialEq, Eq)]
pub struct TileMapData {
    pub data: [u32; 4],
}

impl TileMapData {
    pub fn new(data: [u32; 4]) -> (r: TileMapData)
        ensures
            r.data == data,
    {
        TileMapData { data }
    }

    pub fn new_empty() -> (r: TileMapData)
        ensures
            r.data[0] == 0,
            r.data[1] == 0,
            r.data[2] == 0,
            r.data[3] == 0,
    {
        TileMapData { data: [0, 0, 0, 0] }
    }
}

/// A loaded tile map: one grid of tile values in row-major order, as handed
/// over by the map loader. Tile values are 1-based; value 0 is reserved for
/// "no tile", which a loaded map never contains.
#[derive(Clone, Debug)]
pub struct MapGrid {
    pub tiles: Vec<u32>,
}

impl MapGrid {
    pub open spec fn wf(self) -> bool {
        &&& self.tiles@.len() == TILES_PCS_W * TILES_PCS_H
        &&& forall|i: int| 0 <= i < self.tiles@.len() ==> 1 <= #[trigger] self.tiles@[i]
    }

    pub fn new(tiles: Vec<u32>) -> (r: MapGrid)
        requires
            tiles@.len() == TILES_PCS_W * TILES_PCS_H,
            forall|i: int| 0 <= i < tiles@.len() ==> 1 <= #[trigger] tiles@[i],
        ensures
            r.tiles == tiles,
            r.wf(),
    {
        MapGrid { tiles }
    }
}

/// Flat index of the tile at grid position `(x_pos, y_pos)`.
pub fn calc_index(x_pos: usize, y_pos: usize) -> (r: usize)
    requires
        x_pos < TILES_PCS_W,
        y_pos < TILES_PCS_H,
    ensures
        r == y_pos * TILES_PCS_W + x_pos,
{
    (y_pos * TILES_PCS_W) + x_pos
}

/// The tile value of layer 0 at grid position `(x_pos, y_pos)`.
pub fn get_map_tile(map: &MapGrid, x_pos: usize, y_pos: usize) -> (r: u32)
    requires
        map.wf(),
        x_pos < TILES_PCS_W,
        y_pos < TILES_PCS_H,
    ensures
        r == map.tiles@[y_pos * TILES_PCS_W + x_pos],
        r >= 1,
{
    proof {
        assert(y_pos * TILES_PCS_W + x_pos < TILES_PCS_W * TILES_PCS_H) by (nonlinear_arith)
            requires x_pos < TILES_PCS_W && y_pos < TILES_PCS_H;
    }
    map.tiles[(y_pos * TILES_PCS_W) + x_pos]
}

/// The zero-based tile value the packed buffer holds for flat grid index `s`.
pub open spec fn packed_value(map: MapGrid, s: int) -> int {
    map.tiles@[s] - 1
}

/// Fold the loaded grid into the packed buffer: the first lane-sized stretch
/// of grid values fills lane 0, the second stretch lane 1 of the same
/// entries; lanes 2 and 3 are cleared (the grid is half the buffer, so they
/// stay unused). Entries past the folded region are untouched.
pub fn populate_tile_map(tiles: &mut Vec<TileMapData>, map: &MapGrid)
    requires
        map.wf(),
        old(tiles)@.len() == TILEMAP_BUF_LENGTH,
    ensures
        final(tiles)@.len() == TILEMAP_BUF_LENGTH,
        forall|s: int| 0 <= s < QUARTER_BUF_LENGTH ==> {
            &&& (#[trigger] final(tiles)@[s]).data[0] == packed_value(*map, s)
            &&& final(tiles)@[s].data[1] == packed_value(*map, s + QUARTER_BUF_LENGTH)
            &&& final(tiles)@[s].data[2] == 0
            &&& final(tiles)@[s].data[3] == 0
        },
        forall|s: int| QUARTER_BUF_LENGTH <= s < TILEMAP_BUF_LENGTH
            ==> #[trigger] final(tiles)@[s] == old(tiles)@[s],
{
    let mut y_pos: usize = 0;
    while y_pos < TILES_PCS_H
        invariant
            y_pos <= TILES_PCS_H,
            map.wf(),
            tiles@.len() == TILEMAP_BUF_LENGTH,
            forall|s: int| 0 <= s < y_pos * TILES_PCS_W && s < QUARTER_BUF_LENGTH ==> {
                &&& (#[trigger] tiles@[s]).data[0] == packed_value(*map, s)
                &&& tiles@[s].data[2] == 0
                &&& tiles@[s].data[3] == 0
            },
            forall|s: int| 0 <= s < y_pos * TILES_PCS_W - QUARTER_BUF_LENGTH ==> {
                &&& (#[trigger] tiles@[s]).data[1] == packed_value(*map, s + QUARTER_BUF_LENGTH)
            },
            forall|s: int| y_pos * TILES_PCS_W <= s < QUARTER_BUF_LENGTH
                ==> (#[trigger] tiles@[s]).data[1] == old(tiles)@[s].data[1],
            forall|s: int| QUARTER_BUF_LENGTH <= s < TILEMAP_BUF_LENGTH
                ==> #[trigger] tiles@[s] == old(tiles)@[s],
        decreases TILES_PCS_H - y_pos,
    {
        let mut x_pos: usize = 0;
        while x_pos < TILES_PCS_W
            invariant
                x_pos <= TILES_PCS_W,
                y_pos < TILES_PCS_H,
                map.wf(),
                tiles@.len() == TILEMAP_BUF_LENGTH,
                forall|s: int| 0 <= s < y_pos * TILES_PCS_W + x_pos && s < QUARTER_BUF_LENGTH ==> {
                    &&& (#[trigger] tiles@[s]).data[0] == packed_value(*map, s)
                    &&& tiles@[s].data[2] == 0
                    &&& tiles@[s].data[3] == 0
                },
                forall|s: int| 0 <= s < y_pos * TILES_PCS_W + x_pos - QUARTER_BUF_LENGTH ==> {
                    &&& (#[trigger] tiles@[s]).data[1] == packed_value(*map, s + QUARTER_BUF_LENGTH)
                },
                forall|s: int| y_pos * TILES_PCS_W + x_pos <= s < QUARTER_BUF_LENGTH
                    ==> (#[trigger] tiles@[s]).data[1] == old(tiles)@[s].data[1],
                forall|s: int| QUARTER_BUF_LENGTH <= s < TILEMAP_BUF_LENGTH
                    ==> #[trigger] tiles@[s] == old(tiles)@[s],
            decreases TILES_PCS_W - x_pos,
        {
            let map_val: u32 = get_map_tile(map, x_pos, y_pos) - 1;
            let idx: usize = calc_index(x_pos, y_pos);
            proof {
                assert(idx < TILES_PCS_H * TILES_PCS_W) by (nonlinear_arith)
                    requires
                        idx == y_pos * TILES_PCS_W + x_pos,
                        x_pos < TILES_PCS_W,
                        y_pos < TILES_PCS_H;
            }

            if idx < QUARTER_BUF_LENGTH {
                tiles.set(idx, TileMapData::new([map_val, 0, 0, 0]));
            } else if idx < QUARTER_BUF_LENGTH * 2 {
                let kept0: u32 = tiles[idx - QUARTER_BUF_LENGTH].data[0];
                tiles.set(idx - QUARTER_BUF_LENGTH, TileMapData::new([kept0, map_val, 0, 0]));
            } else if idx < QUARTER_BUF_LENGTH * 3 {
                let base: usize = idx - QUARTER_BUF_LENGTH * 2;
                let kept0: u32 = tiles[base].data[0];
                let kept1: u32 = tiles[base].data[1];
                tiles.set(base, TileMapData::new([kept0, kept1, map_val, 0]));
            } else {
                let base: usize = idx - QUARTER_BUF_LENGTH * 3;
                let kept0: u32 = tiles[base].data[0];
                let kept1: u32 = tiles[base].data[1];
                let kept2: u32 = tiles[base].data[2];
                tiles.set(base, TileMapData::new([kept0, kept1, kept2, map_val]));
            }
            x_pos += 1;
        }
        y_pos += 1;
    }
}

/// The terrain component: the packed tile buffer and the tile map it was
/// seeded from.
#[derive(Clone, Debug)]
pub struct Terrain {
    pub tiles: Vec<TileMapData>,
    pub tile_sets: [MapGrid; 1],
    pub curr_tile_set_idx: usize,
}

impl Terrain {
    /// Build the terrain from a loaded tile map: an all-empty packed buffer
    /// folded full of the map's tile values.
    pub fn new(map: MapGrid) -> (r: Terrain)
        requires
            map.wf(),
        ensures
            r.tiles@.len() == TILEMAP_BUF_LENGTH,
            forall|s: int| 0 <= s < QUARTER_BUF_LENGTH ==> {
                &&& (#[trigger] r.tiles@[s]).data[0] == packed_value(map, s)
                &&& r.tiles@[s].data[1] == packed_value(map, s + QUARTER_BUF_LENGTH)
                &&& r.tiles@[s].data[2] == 0
                &&& r.tiles@[s].data[3] == 0
            },
            forall|s: int| QUARTER_BUF_LENGTH <= s < TILEMAP_BUF_LENGTH ==> {
                &&& (#[trigger] r.tiles@[s]).data[0] == 0
                &&& r.tiles@[s].data[1] == 0
                &&& r.tiles@[s].data[2] == 0
                &&& r.tiles@[s].data[3] == 0
            },
            r.tile_sets[0] == map,
            r.curr_tile_set_idx == 0,
    {
        let mut map_data: Vec<TileMapData> = Vec::new();
        let mut i: usize = 0;
        while i < TILEMAP_BUF_LENGTH
            invariant
                i <= TILEMAP_BUF_LENGTH,
                map_data@.len() == i,
                forall|s: int| 0 <= s < i ==> {
                    &&& (#[trigger] map_data@[s]).data[0] == 0
                    &&& map_data@[s].data[1] == 0
                    &&& map_data@[s].data[2] == 0
                    &&& map_data@[s].data[3] == 0
                },
            decreases TILEMAP_BUF_LENGTH - i,
        {
            map_data.push(TileMapData::new_empty());
            i += 1;
        }

        populate_tile_map(&mut map_data, &map);

        Terrain {
            tiles: map_data,
            tile_sets: [map],
            curr_tile_set_idx: 0,
        }
    }
}

} // verus!
