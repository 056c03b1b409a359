//! Axis-separated collision resolution: find the nearest solid tile in the
//! direction of travel and clamp the velocity so the box touches it without
//! entering it.
//!
//! Probe points sit on the box's leading edge, inset by one world unit on the
//! perpendicular axis so a box flush with a tile boundary does not straddle
//! two columns (or rows). Probes are generated in a fixed scan order —
//! vertical pair before horizontal pair, negative corner before positive
//! corner — and ties in distance keep the earliest probe's tile, so the
//! selection is deterministic.

use vstd::prelude::*;
use crate::geometry::Position;
use crate::grid::TileGrid;
use crate::grid::GRID_EXTENT_LIMIT;

verus! {

/// Bound on the velocities accepted by the collision queries.
pub const VEL_LIMIT: i64 = 4096;

/// Magnitude of an integer.
pub open spec fn abs_val(v: int) -> int {
    if v < 0 {
        -v
    } else {
        v
    }
}

/// Manhattan distance from the box's top-left corner to the top-left corner
/// of tile `cell`: the measure by which candidate blocking tiles compete.
pub open spec fn spec_dist(grid: TileGrid, pos: Position, cell: int) -> int {
    abs_val(grid.spec_tile_left(cell) - pos.spec_left()) + abs_val(
        grid.spec_tile_top(cell) - pos.spec_top(),
    )
}

/// One probe step of the nearest-tile scan: look up the probe point's cell,
/// discard it when it is outside the grid or passable, and otherwise keep
/// whichever of it and `best` lies nearer the box — on a tie, `best`, which
/// came earlier in scan order.
pub open spec fn spec_consider(
    grid: TileGrid,
    pos: Position,
    best: Option<usize>,
    px: int,
    py: int,
) -> Option<usize> {
    match grid.spec_cell_of(px, py) {
        None => best,
        Some(c) => {
            if !grid.tiles@[c as int].tile_type.spec_is_solid() {
                best
            } else {
                match best {
                    None => Some(c),
                    Some(b) => {
                        if spec_dist(grid, pos, c as int) < spec_dist(grid, pos, b as int) {
                            Some(c)
                        } else {
                            Some(b)
                        }
                    },
                }
            }
        },
    }
}

/// The nearest solid tile hit by the probe points of a box at `pos` moving by
/// `(vel_x, vel_y)`, or `None` when every probe lands outside the grid or in
/// passable tiles. Probes run in scan order: vertical pair first, and within
/// a pair the negative corner first.
pub open spec fn spec_find_nearest(
    grid: TileGrid,
    vel_x: int,
    vel_y: int,
    pos: Position,
) -> Option<usize> {
    let l = pos.spec_left();
    let r = pos.spec_right();
    let t = pos.spec_top();
    let b = pos.spec_bottom();
    let b0 = Option::<usize>::None;
    let b1 = if vel_y > 0 {
        spec_consider(
            grid,
            pos,
            spec_consider(grid, pos, b0, l + 1 + vel_x, b + vel_y),
            r - 1 + vel_x,
            b + vel_y,
        )
    } else if vel_y < 0 {
        spec_consider(
            grid,
            pos,
            spec_consider(grid, pos, b0, l + 1 + vel_x, t + vel_y),
            r - 1 + vel_x,
            t + vel_y,
        )
    } else {
        b0
    };
    if vel_x > 0 {
        spec_consider(
            grid,
            pos,
            spec_consider(grid, pos, b1, r + vel_x, b - 1 + vel_y),
            r + vel_x,
            t + 1 + vel_y,
        )
    } else if vel_x < 0 {
        spec_consider(
            grid,
            pos,
            spec_consider(grid, pos, b1, l + vel_x, b - 1 + vel_y),
            l + vel_x,
            t + 1 + vel_y,
        )
    } else {
        b1
    }
}

/// Runtime Manhattan distance, matching `spec_dist`.
fn dist(grid: &TileGrid, pos: &Position, cell: usize) -> (d: i64)
    requires
        grid.wf(),
        pos.in_range(),
        cell < grid.tiles@.len(),
    ensures
        d == spec_dist(*grid, *pos, cell as int),
{
    let dl = grid.tile_left(cell) - pos.left();
    let dt = grid.tile_top(cell) - pos.top();
    let adl = if dl < 0 {
        -dl
    } else {
        dl
    };
    let adt = if dt < 0 {
        -dt
    } else {
        dt
    };
    adl + adt
}

/// Runtime probe step, matching `spec_consider`.
fn consider(grid: &TileGrid, pos: &Position, best: Option<usize>, px: i64, py: i64) -> (r: Option<
    usize,
>)
    requires
        grid.wf(),
        pos.in_range(),
        best is Some ==> best->Some_0 < grid.tiles@.len()
            && grid.tiles@[best->Some_0 as int].tile_type.spec_is_solid(),
    ensures
        r == spec_consider(*grid, *pos, best, px as int, py as int),
        r is Some ==> r->Some_0 < grid.tiles@.len()
            && grid.tiles@[r->Some_0 as int].tile_type.spec_is_solid(),
{
    match grid.world_to_cell(px, py) {
        None => best,
        Some(c) => {
            let tile = grid.tile_at(c);
            if !tile.tile_type.is_solid() {
                best
            } else {
                match best {
                    None => Some(c),
                    Some(b) => {
                        let dc = dist(grid, pos, c);
                        let db = dist(grid, pos, b);
                        if dc < db {
                            Some(c)
                        } else {
                            Some(b)
                        }
                    },
                }
            }
        },
    }
}

/// Find the nearest solid tile in the direction of travel, per
/// `spec_find_nearest`. Returns `None` when the box is unobstructed.
pub fn find_nearest_tile(vel_x: i64, vel_y: i64, current_position: &Position, grid: &TileGrid) -> (r:
    Option<usize>)
    requires
        grid.wf(),
        current_position.in_range(),
        -VEL_LIMIT <= vel_x <= VEL_LIMIT,
        -VEL_LIMIT <= vel_y <= VEL_LIMIT,
    ensures
        r == spec_find_nearest(*grid, vel_x as int, vel_y as int, *current_position),
        r is Some ==> r->Some_0 < grid.tiles@.len()
            && grid.tiles@[r->Some_0 as int].tile_type.spec_is_solid(),
{
    let pos = current_position;
    let mut best: Option<usize> = None;
    if vel_y > 0 {
        best = consider(grid, pos, best, pos.left() + 1 + vel_x, pos.bottom() + vel_y);
        best = consider(grid, pos, best, pos.right() - 1 + vel_x, pos.bottom() + vel_y);
    } else if vel_y < 0 {
        best = consider(grid, pos, best, pos.left() + 1 + vel_x, pos.top() + vel_y);
        best = consider(grid, pos, best, pos.right() - 1 + vel_x, pos.top() + vel_y);
    }
    if vel_x > 0 {
        best = consider(grid, pos, best, pos.right() + vel_x, pos.bottom() - 1 + vel_y);
        best = consider(grid, pos, best, pos.right() + vel_x, pos.top() + 1 + vel_y);
    } else if vel_x < 0 {
        best = consider(grid, pos, best, pos.left() + vel_x, pos.bottom() - 1 + vel_y);
        best = consider(grid, pos, best, pos.left() + vel_x, pos.top() + 1 + vel_y);
    }
    best
}

/// The velocity pair after clamping against the blocking tile, along with
/// that tile, per `spec_resolve_axis`.
pub open spec fn spec_resolve_axis(grid: TileGrid, vel_x: int, vel_y: int, pos: Position) -> (
    Option<usize>,
    int,
    int,
) {
    match spec_find_nearest(grid, vel_x, vel_y, pos) {
        Some(c) => {
            if vel_y > 0 {
                (Some(c), vel_x, grid.spec_tile_top(c as int) - pos.spec_bottom())
            } else if vel_y < 0 {
                (Some(c), vel_x, grid.spec_tile_bottom(c as int) - pos.spec_top())
            } else if vel_x > 0 {
                (Some(c), grid.spec_tile_left(c as int) - pos.spec_right(), vel_y)
            } else if vel_x < 0 {
                (Some(c), grid.spec_tile_right(c as int) - pos.spec_left(), vel_y)
            } else {
                (None, vel_x, vel_y)
            }
        },
        None => (None, vel_x, vel_y),
    }
}

/// Resolve one axis of motion: clamp the velocity so that the box's leading
/// edge comes to rest exactly on the blocking tile's facing edge, and report
/// that tile. With no blocking tile the velocity passes through unchanged.
///
/// The containment guarantee is stated directly: whenever a blocking tile is
/// returned, the moved box touches the tile's facing edge and does not enter
/// it.
pub fn resolve_axis(vel_x: i64, vel_y: i64, current_position: &Position, grid: &TileGrid) -> (r: (
    Option<usize>,
    i64,
    i64,
))
    requires
        grid.wf(),
        current_position.in_range(),
        -VEL_LIMIT <= vel_x <= VEL_LIMIT,
        -VEL_LIMIT <= vel_y <= VEL_LIMIT,
        vel_x == 0 || vel_y == 0,
    ensures
        ({
            let s = spec_resolve_axis(*grid, vel_x as int, vel_y as int, *current_position);
            r.0 == s.0 && r.1 == s.1 && r.2 == s.2
        }),
        r.0 is None ==> r.1 == vel_x && r.2 == vel_y,
        r.0 is Some ==> r.0->Some_0 < grid.tiles@.len()
            && grid.tiles@[r.0->Some_0 as int].tile_type.spec_is_solid(),
        r.0 is Some && vel_y > 0 ==> current_position.spec_bottom() + r.2
            == grid.spec_tile_top(r.0->Some_0 as int) && r.1 == vel_x,
        r.0 is Some && vel_y < 0 ==> current_position.spec_top() + r.2
            == grid.spec_tile_bottom(r.0->Some_0 as int) && r.1 == vel_x,
        r.0 is Some && vel_y == 0 && vel_x > 0 ==> current_position.spec_right() + r.1
            == grid.spec_tile_left(r.0->Some_0 as int) && r.2 == vel_y,
        r.0 is Some && vel_y == 0 && vel_x < 0 ==> current_position.spec_left() + r.1
            == grid.spec_tile_right(r.0->Some_0 as int) && r.2 == vel_y,
        r.0 is Some && vel_y > 0 ==> 0 <= current_position.spec_bottom() + r.2
            <= GRID_EXTENT_LIMIT,
        r.0 is Some && vel_y < 0 ==> 0 <= current_position.spec_top() + r.2 <= GRID_EXTENT_LIMIT,
        r.0 is Some && vel_y == 0 && vel_x > 0 ==> 0 <= current_position.spec_right() + r.1
            <= GRID_EXTENT_LIMIT,
        r.0 is Some && vel_y == 0 && vel_x < 0 ==> 0 <= current_position.spec_left() + r.1
            <= GRID_EXTENT_LIMIT,
{
    match find_nearest_tile(vel_x, vel_y, current_position, grid) {
        Some(c) => {
            if vel_y > 0 {
                (Some(c), vel_x, grid.tile_top(c) - current_position.bottom())
            } else if vel_y < 0 {
                (Some(c), vel_x, grid.tile_bottom(c) - current_position.top())
            } else if vel_x > 0 {
                (Some(c), grid.tile_left(c) - current_position.right(), vel_y)
            } else if vel_x < 0 {
                (Some(c), grid.tile_right(c) - current_position.left(), vel_y)
            } else {
                (None, vel_x, vel_y)
            }
        },
        None => (None, vel_x, vel_y),
    }
}

} // verus!
