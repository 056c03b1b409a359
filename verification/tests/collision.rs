//! Unit scenarios for the grid geometry and the collision resolver.

use tile_digger::collision::find_nearest_tile;
use tile_digger::collision::resolve_axis;
use tile_digger::grid::TileGrid;
use tile_digger::Position;
use tile_digger::TileType;

fn air_grid() -> TileGrid {
    TileGrid::new(20, 100, 40, 100, 10)
}

#[test]
fn world_to_cell_maps_and_rejects() {
    let grid = air_grid();
    // (0,0) is cell 0; (39,39) still cell 0; (40,0) is column 1.
    assert_eq!(grid.world_to_cell(0, 0), Some(0));
    assert_eq!(grid.world_to_cell(39, 39), Some(0));
    assert_eq!(grid.world_to_cell(40, 0), Some(1));
    // (100, 200): column 2, row 5.
    assert_eq!(grid.world_to_cell(100, 200), Some(5 * 20 + 2));
    // Negative coordinates are rejected, not wrapped.
    assert_eq!(grid.world_to_cell(-1, 0), None);
    assert_eq!(grid.world_to_cell(0, -1), None);
    // Beyond the right edge (20 * 40 = 800) or the bottom edge (4000).
    assert_eq!(grid.world_to_cell(800, 0), None);
    assert_eq!(grid.world_to_cell(0, 4000), None);
    assert_eq!(grid.world_to_cell(799, 3999), Some(100 * 20 - 1));
}

#[test]
fn no_probe_without_velocity() {
    let mut grid = air_grid();
    // Surround the box with solid tiles; zero velocity still finds nothing.
    for cell in 0..grid.cell_count() {
        grid.set_tile(cell, TileType::Ground, 10);
    }
    let pos = Position { x: 100, y: 100 };
    assert_eq!(find_nearest_tile(0, 0, &pos, &grid), None);
    let r = resolve_axis(0, 0, &pos, &grid);
    assert_eq!(r, (None, 0, 0));
}

#[test]
fn unobstructed_velocity_passes_through() {
    let grid = air_grid();
    let pos = Position { x: 100, y: 100 };
    assert_eq!(resolve_axis(0, 3, &pos, &grid), (None, 0, 3));
    assert_eq!(resolve_axis(0, -3, &pos, &grid), (None, 0, -3));
    assert_eq!(resolve_axis(1, 0, &pos, &grid), (None, 1, 0));
    assert_eq!(resolve_axis(-1, 0, &pos, &grid), (None, -1, 0));
}

#[test]
fn falling_clamps_to_tile_top() {
    let mut grid = air_grid();
    // Solid tile at row 5, column 2: top edge y = 200.
    grid.set_tile(5 * 20 + 2, TileType::Ground, 10);
    // Box bottom at 198, falling 3: would reach 201, clamped to 2.
    let pos = Position { x: 90, y: 168 };
    let (tile, vx, vy) = resolve_axis(0, 3, &pos, &grid);
    assert_eq!(tile, Some(5 * 20 + 2));
    assert_eq!(vx, 0);
    assert_eq!(vy, 2);
    // Already overlapping probes still clamp back up to contact.
    let pos2 = Position { x: 90, y: 171 };
    let (tile2, _, vy2) = resolve_axis(0, 3, &pos2, &grid);
    assert_eq!(tile2, Some(5 * 20 + 2));
    assert_eq!(vy2, -1);
}

#[test]
fn moving_left_clamps_to_tile_right_edge() {
    let mut grid = air_grid();
    // Solid tile at row 2, column 1: x 40..80, y 80..120.
    grid.set_tile(2 * 20 + 1, TileType::Ground, 10);
    // Box left edge at 82, moving left 3: clamped to -2 (touch at 80).
    let pos = Position { x: 82, y: 85 };
    let (tile, vx, vy) = resolve_axis(-3, 0, &pos, &grid);
    assert_eq!(tile, Some(2 * 20 + 1));
    assert_eq!(vx, -2);
    assert_eq!(vy, 0);
}

#[test]
fn equidistant_candidates_keep_first_probe() {
    let mut grid = air_grid();
    // Two solid tiles at row 1, columns 0 and 1 (tops at y = 40).
    grid.set_tile(20, TileType::Ground, 10);
    grid.set_tile(21, TileType::Ground, 10);
    // Box at x = 20: probes at x 21 (column 0) and x 49 (column 1).
    // Distances from (20, 10): |0-20| + |40-10| = 50 and |40-20| + 30 = 50.
    // Exact tie: the earlier (negative-corner) probe's tile must win.
    let pos = Position { x: 20, y: 10 };
    let found = find_nearest_tile(0, 3, &pos, &grid);
    assert_eq!(found, Some(20));
}

#[test]
fn horizontal_tie_keeps_bottom_probe() {
    let mut grid = air_grid();
    // Solid tiles at column 4, rows 0 and 1 (x 160..200, tops 0 and 40).
    grid.set_tile(4, TileType::Ground, 10);
    grid.set_tile(24, TileType::Ground, 10);
    // Box at (131, 20), moving right: probes at (162, 49) (bottom corner,
    // row 1) and (162, 21) (top corner, row 0). Distances from (131, 20):
    // |160-131| + |40-20| = 49 and |160-131| + |0-20| = 49. Exact tie: the
    // bottom-corner probe comes first in scan order and must win.
    let pos = Position { x: 131, y: 20 };
    assert_eq!(find_nearest_tile(1, 0, &pos, &grid), Some(24));
}

#[test]
fn nearer_candidate_beats_probe_order() {
    let mut grid = air_grid();
    grid.set_tile(20, TileType::Ground, 10);
    grid.set_tile(21, TileType::Ground, 10);
    // Box at x = 25: distances are 55 (column 0) and 45 (column 1): the
    // second probe's tile is strictly nearer and wins.
    let pos = Position { x: 25, y: 10 };
    let found = find_nearest_tile(0, 3, &pos, &grid);
    assert_eq!(found, Some(21));
}

#[test]
fn air_tiles_are_never_blocking() {
    let grid = air_grid();
    let pos = Position { x: 100, y: 196 };
    // Everything below is air: fall goes through tile boundaries.
    assert_eq!(find_nearest_tile(0, 3, &pos, &grid), None);
}

#[test]
fn tile_edges_derive_from_cell_index() {
    let grid = air_grid();
    // Cell 102: row 5, column 2 with 40-unit tiles.
    assert_eq!(grid.tile_top(102), 200);
    assert_eq!(grid.tile_bottom(102), 240);
    assert_eq!(grid.tile_left(102), 80);
    assert_eq!(grid.tile_right(102), 120);
}

#[test]
fn position_edges() {
    let p = Position { x: 100, y: 170 };
    assert_eq!(p.top(), 170);
    assert_eq!(p.bottom(), 200);
    assert_eq!(p.left(), 100);
    assert_eq!(p.right(), 130);
}
