use hinterland::terrain::{
    calc_index, get_map_tile, populate_tile_map, MapGrid, Terrain, TileMapData,
    QUARTER_BUF_LENGTH, TILEMAP_BUF_LENGTH, TILES_PCS_H, TILES_PCS_W,
};

fn uniform_grid(value: u32) -> Vec<u32> {
    vec![value; TILES_PCS_W * TILES_PCS_H]
}

#[test]
fn calc_index_is_row_major() {
    assert_eq!(calc_index(0, 0), 0);
    assert_eq!(calc_index(2, 3), 3 * 18 + 2);
    assert_eq!(calc_index(17, 35), 647);
}

#[test]
fn get_map_tile_reads_the_grid() {
    let mut grid = uniform_grid(1);
    grid[3 * 18 + 2] = 9;
    let map = MapGrid::new(grid);
    assert_eq!(get_map_tile(&map, 2, 3), 9);
    assert_eq!(get_map_tile(&map, 0, 0), 1);
}

#[test]
fn terrain_packs_grid_into_two_lanes() {
    let mut grid = uniform_grid(1);
    grid[0] = 5;
    grid[QUARTER_BUF_LENGTH] = 7;
    grid[5] = 2;
    let terrain = Terrain::new(MapGrid::new(grid));

    assert_eq!(terrain.tiles.len(), TILEMAP_BUF_LENGTH);
    // Grid values are 1-based; the buffer stores them zero-based.
    assert_eq!(terrain.tiles[0].data, [4, 6, 0, 0]);
    assert_eq!(terrain.tiles[5].data, [1, 0, 0, 0]);
    // Entries past the folded region stay empty.
    assert_eq!(terrain.tiles[QUARTER_BUF_LENGTH].data, [0, 0, 0, 0]);
    assert_eq!(terrain.tiles[TILEMAP_BUF_LENGTH - 1].data, [0, 0, 0, 0]);
    assert_eq!(terrain.curr_tile_set_idx, 0);
    assert_eq!(terrain.tile_sets[0].tiles[0], 5);
}

#[test]
fn populate_leaves_unfolded_entries_untouched() {
    let mut buffer = vec![TileMapData::new([9, 9, 9, 9]); TILEMAP_BUF_LENGTH];
    let map = MapGrid::new(uniform_grid(1));
    populate_tile_map(&mut buffer, &map);
    // Folded entries are rebuilt from the grid (all zeros here) ...
    assert_eq!(buffer[0].data, [0, 0, 0, 0]);
    assert_eq!(buffer[QUARTER_BUF_LENGTH - 1].data, [0, 0, 0, 0]);
    // ... and entries past the folded region keep their old contents.
    assert_eq!(buffer[QUARTER_BUF_LENGTH].data, [9, 9, 9, 9]);
    assert_eq!(buffer[TILEMAP_BUF_LENGTH - 1].data, [9, 9, 9, 9]);
}
