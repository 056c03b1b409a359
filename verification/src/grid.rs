//! The tile grid: a flat, fixed-size collection of tiles plus the geometry
//! that maps world coordinates to cells and cells to world-space edges.
//!
//! All world coordinates are integers (whole world units). A coordinate that
//! maps outside the grid is rejected explicitly: `world_to_cell` returns
//! `None` for negative or out-of-range coordinates instead of wrapping.

use vstd::prelude::*;
use crate::tile::Tile;
use crate::tile::TileType;

verus! {

/// Upper bound on a grid's extent (cell count times tile edge) in world
/// units, per axis. Keeps every derived coordinate well inside `i64`.
pub const GRID_EXTENT_LIMIT: usize = 0x1000_0000;

/// The world grid: `width * height` tiles, each `tile_size` world units on a
/// side, stored row-major. Dimensions are fixed for the grid's lifetime.
pub struct TileGrid {
    /// Number of tile columns.
    pub width: usize,
    /// Number of tile rows.
    pub height: usize,
    /// Edge length of one tile in world units.
    pub tile_size: usize,
    /// Row-major tile storage; `tiles[row * width + col]`.
    pub tiles: Vec<Tile>,
}

pub proof fn lemma_div_bound(c: int, w: int, h: int)
    by (nonlinear_arith)
    requires
        1 <= w,
        0 <= c < w * h,
    ensures
        0 <= c / w < h,
{
}

pub proof fn lemma_flat_index(cy: int, cx: int, w: int)
    by (nonlinear_arith)
    requires
        1 <= w,
        0 <= cx < w,
        0 <= cy,
    ensures
        (cy * w + cx) / w == cy,
        (cy * w + cx) % w == cx,
{
}

pub proof fn lemma_div_range(x: int, s: int)
    by (nonlinear_arith)
    requires
        1 <= s,
        0 <= x,
    ensures
        (x / s) * s <= x < (x / s) * s + s,
        0 <= x / s,
{
}

pub proof fn lemma_mul_le(a: int, b: int, s: int)
    by (nonlinear_arith)
    requires
        a <= b,
        0 <= s,
    ensures
        a * s <= b * s,
{
}

pub proof fn lemma_mul_bound(r: int, h: int, s: int)
    by (nonlinear_arith)
    requires
        0 <= r < h,
        0 <= s,
    ensures
        0 <= r * s,
        r * s + s <= h * s,
{
}

pub proof fn lemma_mod_bound(c: int, w: int)
    by (nonlinear_arith)
    requires
        1 <= w,
        0 <= c,
    ensures
        0 <= c % w < w,
{
}

pub proof fn lemma_grid_cells_bound(w: int, h: int, s: int, l: int)
    by (nonlinear_arith)
    requires
        1 <= w,
        1 <= h,
        1 <= s,
        w * s <= l,
        h * s <= l,
    ensures
        w <= l,
        h <= l,
        w * h <= l * l,
{
}

pub proof fn lemma_flat_index_bound(cy: int, cx: int, w: int, h: int)
    by (nonlinear_arith)
    requires
        1 <= w,
        0 <= cx < w,
        0 <= cy < h,
    ensures
        0 <= cy * w + cx < w * h,
{
}

impl TileGrid {
    /// Well-formedness: positive dimensions, bounded extent, a fully filled
    /// row-major tile vector whose entries know their own index and are
    /// themselves well-formed.
    pub open spec fn wf(self) -> bool {
        &&& 1 <= self.width
        &&& 1 <= self.height
        &&& 1 <= self.tile_size
        &&& self.width * self.tile_size <= GRID_EXTENT_LIMIT
        &&& self.height * self.tile_size <= GRID_EXTENT_LIMIT
        &&& self.width * self.height <= usize::MAX
        &&& self.tiles@.len() == self.width * self.height
        &&& forall|i: int|
            0 <= i < self.tiles@.len() ==> (#[trigger] self.tiles@[i]).cell == i
                && self.tiles@[i].wf()
    }

    /// Row of a cell index.
    pub open spec fn spec_row(self, cell: int) -> int {
        cell / self.width as int
    }

    /// Column of a cell index.
    pub open spec fn spec_col(self, cell: int) -> int {
        cell % self.width as int
    }

    /// World-space top edge of a cell.
    pub open spec fn spec_tile_top(self, cell: int) -> int {
        self.spec_row(cell) * self.tile_size as int
    }

    /// World-space left edge of a cell.
    pub open spec fn spec_tile_left(self, cell: int) -> int {
        self.spec_col(cell) * self.tile_size as int
    }

    /// World-space bottom edge of a cell.
    pub open spec fn spec_tile_bottom(self, cell: int) -> int {
        self.spec_tile_top(cell) + self.tile_size as int
    }

    /// World-space right edge of a cell.
    pub open spec fn spec_tile_right(self, cell: int) -> int {
        self.spec_tile_left(cell) + self.tile_size as int
    }

    /// The cell containing the world point `(x, y)`, or `None` when the point
    /// lies outside the grid (including any negative coordinate).
    pub open spec fn spec_cell_of(self, x: int, y: int) -> Option<usize> {
        if x < 0 || y < 0 {
            None
        } else {
            let cx = x / self.tile_size as int;
            let cy = y / self.tile_size as int;
            if cx >= self.width as int || cy >= self.height as int {
                None
            } else {
                Some((cy * self.width as int + cx) as usize)
            }
        }
    }

    /// Facts that hold of every in-grid mapping: the cell is a valid index
    /// and its edges enclose the queried point.
    pub proof fn lemma_cell_of_in_grid(self, x: int, y: int)
        requires
            self.wf(),
            self.spec_cell_of(x, y) is Some,
        ensures
            self.spec_cell_of(x, y)->Some_0 < self.tiles@.len(),
            ({
                let c = self.spec_cell_of(x, y)->Some_0 as int;
                &&& self.spec_row(c) == y / self.tile_size as int
                &&& self.spec_col(c) == x / self.tile_size as int
                &&& self.spec_tile_left(c) <= x < self.spec_tile_right(c)
                &&& self.spec_tile_top(c) <= y < self.spec_tile_bottom(c)
            }),
    {
        let w = self.width as int;
        let h = self.height as int;
        let s = self.tile_size as int;
        let cx = x / s;
        let cy = y / s;
        lemma_div_range(x, s);
        lemma_div_range(y, s);
        lemma_flat_index_bound(cy, cx, w, h);
        assert((cy * w + cx) as usize as int == cy * w + cx);
        lemma_flat_index(cy, cx, w);
    }

    /// Number of cells in the grid.
    pub fn cell_count(&self) -> (n: usize)
        requires
            self.wf(),
        ensures
            n == self.tiles@.len(),
    {
        self.tiles.len()
    }

    /// Copy of the tile at `cell`.
    pub fn tile_at(&self, cell: usize) -> (t: Tile)
        requires
            self.wf(),
            cell < self.tiles@.len(),
        ensures
            t == self.tiles@[cell as int],
    {
        self.tiles[cell]
    }

    /// World-space top edge of `cell`.
    pub fn tile_top(&self, cell: usize) -> (r: i64)
        requires
            self.wf(),
            cell < self.tiles@.len(),
        ensures
            r == self.spec_tile_top(cell as int),
            0 <= r,
            r + self.tile_size <= GRID_EXTENT_LIMIT,
    {
        proof {
            lemma_div_bound(cell as int, self.width as int, self.height as int);
            lemma_mul_bound(
                cell as int / self.width as int,
                self.height as int,
                self.tile_size as int,
            );
        }
        let row = cell / self.width;
        (row * self.tile_size) as i64
    }

    /// World-space bottom edge of `cell`.
    pub fn tile_bottom(&self, cell: usize) -> (r: i64)
        requires
            self.wf(),
            cell < self.tiles@.len(),
        ensures
            r == self.spec_tile_bottom(cell as int),
            0 <= r <= GRID_EXTENT_LIMIT,
    {
        let top = self.tile_top(cell);
        top + self.tile_size as i64
    }

    /// World-space left edge of `cell`.
    pub fn tile_left(&self, cell: usize) -> (r: i64)
        requires
            self.wf(),
            cell < self.tiles@.len(),
        ensures
            r == self.spec_tile_left(cell as int),
            0 <= r,
            r + self.tile_size <= GRID_EXTENT_LIMIT,
    {
        proof {
            lemma_mod_bound(cell as int, self.width as int);
            lemma_mul_bound(
                cell as int % self.width as int,
                self.width as int,
                self.tile_size as int,
            );
        }
        let col = cell % self.width;
        (col * self.tile_size) as i64
    }

    /// World-space right edge of `cell`.
    pub fn tile_right(&self, cell: usize) -> (r: i64)
        requires
            self.wf(),
            cell < self.tiles@.len(),
        ensures
            r == self.spec_tile_right(cell as int),
            0 <= r <= GRID_EXTENT_LIMIT,
    {
        let left = self.tile_left(cell);
        left + self.tile_size as i64
    }

    /// Build a grid whose first `above_ground_rows` rows are `Air` and whose
    /// remaining rows are `Ground`, every tile at full hit points.
    pub fn new(
        width: usize,
        height: usize,
        tile_size: usize,
        above_ground_rows: usize,
        max_hp: i32,
    ) -> (g: TileGrid)
        requires
            1 <= width,
            1 <= height,
            1 <= tile_size,
            width * tile_size <= GRID_EXTENT_LIMIT,
            height * tile_size <= GRID_EXTENT_LIMIT,
            width * height <= usize::MAX,
            above_ground_rows <= height,
            max_hp >= 1,
        ensures
            g.wf(),
            g.width == width,
            g.height == height,
            g.tile_size == tile_size,
            forall|i: int|
                0 <= i < g.tiles@.len() ==> #[trigger] g.tiles@[i] == (Tile {
                    cell: i as usize,
                    tile_type: if i < above_ground_rows * width {
                        TileType::Air
                    } else {
                        TileType::Ground
                    },
                    current_hp: max_hp,
                    max_hp,
                }),
    {
        proof {
            lemma_mul_le(above_ground_rows as int, height as int, width as int);
        }
        let total = width * height;
        let ground_cells = above_ground_rows * width;
        let mut tiles: Vec<Tile> = Vec::new();
        let mut i: usize = 0;
        while i < total
            invariant
                i <= total,
                total == width * height,
                ground_cells == above_ground_rows * width,
                max_hp >= 1,
                tiles@.len() == i,
                forall|j: int|
                    0 <= j < i ==> #[trigger] tiles@[j] == (Tile {
                        cell: j as usize,
                        tile_type: if j < ground_cells {
                            TileType::Air
                        } else {
                            TileType::Ground
                        },
                        current_hp: max_hp,
                        max_hp,
                    }),
            decreases total - i,
        {
            let tt = if i < ground_cells {
                TileType::Air
            } else {
                TileType::Ground
            };
            tiles.push(Tile::new(i, tt, max_hp));
            i = i + 1;
        }
        TileGrid { width, height, tile_size, tiles }
    }

    /// Replace the tile at `cell` with a fresh tile of the given kind at full
    /// hit points. Dimensions are untouched.
    pub fn set_tile(&mut self, cell: usize, tile_type: TileType, max_hp: i32)
        requires
            old(self).wf(),
            cell < old(self).tiles@.len(),
            max_hp >= 1 || tile_type == TileType::Air,
            max_hp >= 0,
        ensures
            final(self).wf(),
            final(self).width == old(self).width,
            final(self).height == old(self).height,
            final(self).tile_size == old(self).tile_size,
            final(self).tiles@ == old(self).tiles@.update(
                cell as int,
                Tile { cell, tile_type, current_hp: max_hp, max_hp },
            ),
    {
        let t = Tile::new(cell, tile_type, max_hp);
        let slot = &mut self.tiles[cell];
        *slot = t;
    }

    /// Apply one unit of dig damage to the solid tile at `cell`, reporting
    /// its former kind when the hit destroys it.
    pub fn dig_at(&mut self, cell: usize) -> (destroyed: Option<TileType>)
        requires
            old(self).wf(),
            cell < old(self).tiles@.len(),
            old(self).tiles@[cell as int].tile_type.spec_is_solid(),
        ensures
            final(self).wf(),
            final(self).width == old(self).width,
            final(self).height == old(self).height,
            final(self).tile_size == old(self).tile_size,
            final(self).tiles@ == old(self).tiles@.update(
                cell as int,
                old(self).tiles@[cell as int].spec_dug(),
            ),
            destroyed == (if old(self).tiles@[cell as int].spec_destroyed_by_dig() {
                Some(old(self).tiles@[cell as int].tile_type)
            } else {
                Option::<TileType>::None
            }),
    {
        let slot = &mut self.tiles[cell];
        slot.dig()
    }

    /// Map a world point to its cell, rejecting out-of-grid points.
    pub fn world_to_cell(&self, x: i64, y: i64) -> (r: Option<usize>)
        requires
            self.wf(),
        ensures
            r == self.spec_cell_of(x as int, y as int),
            r is Some ==> r->Some_0 < self.tiles@.len(),
    {
        if x < 0 || y < 0 {
            return None;
        }
        let s = self.tile_size as u64;
        let cx = (x as u64) / s;
        let cy = (y as u64) / s;
        if cx >= self.width as u64 || cy >= self.height as u64 {
            return None;
        }
        proof {
            lemma_flat_index_bound(cy as int, cx as int, self.width as int, self.height as int);
            lemma_grid_cells_bound(
                self.width as int,
                self.height as int,
                self.tile_size as int,
                GRID_EXTENT_LIMIT as int,
            );
            self.lemma_cell_of_in_grid(x as int, y as int);
        }
        Some((cy * self.width as u64 + cx) as usize)
    }
}

} // verus!
