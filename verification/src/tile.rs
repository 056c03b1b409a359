//! Tiles: one cell of the world grid, solid or passable, with hit points.

use vstd::prelude::*;

verus! {

/// The kind of a tile. `Air` is passable; `Ground` and `Gold` are solid.
#[derive(Clone, Copy, PartialEq, Eq, Structural, Debug)]
pub enum TileType {
    Air,
    Ground,
    Gold,
}

/// One cell of the world grid. Geometry is derived from `cell` and the grid
/// configuration, not stored here.
#[derive(Clone, Copy, Debug)]
pub struct Tile {
    /// Flat index of this tile in the grid.
    pub cell: usize,
    /// Current kind; flips to `Air` when the tile is destroyed.
    pub tile_type: TileType,
    /// Remaining hit points; the tile is destroyed when this reaches zero.
    pub current_hp: i32,
    /// Hit points the tile was created with.
    pub max_hp: i32,
}

impl TileType {
    /// A tile blocks movement exactly when it is not `Air`.
    pub open spec fn spec_is_solid(self) -> bool {
        self !== TileType::Air
    }

    /// Runtime test matching `spec_is_solid`.
    pub fn is_solid(&self) -> (r: bool)
        ensures
            r == self.spec_is_solid(),
    {
        !matches!(self, TileType::Air)
    }
}

impl Tile {
    /// Well-formedness: hit points stay within `[0, max_hp]`, and a tile with
    /// no hit points left must be passable.
    pub open spec fn wf(self) -> bool {
        &&& 0 <= self.current_hp <= self.max_hp
        &&& self.current_hp == 0 ==> self.tile_type == TileType::Air
    }

    /// A fresh tile at full hit points.
    pub fn new(cell: usize, tile_type: TileType, max_hp: i32) -> (t: Tile)
        requires
            max_hp >= 1 || tile_type == TileType::Air,
            max_hp >= 0,
        ensures
            t == (Tile { cell, tile_type, current_hp: max_hp, max_hp }),
            t.wf(),
    {
        Tile { cell, tile_type, current_hp: max_hp, max_hp }
    }

    /// The tile after one unit of dig damage: hit points drop by one, and the
    /// kind flips to `Air` exactly when they reach zero.
    pub open spec fn spec_dug(self) -> Tile {
        Tile {
            current_hp: (self.current_hp - 1) as i32,
            tile_type: if self.current_hp == 1 {
                TileType::Air
            } else {
                self.tile_type
            },
            ..self
        }
    }

    /// Whether one more unit of damage destroys this tile.
    pub open spec fn spec_destroyed_by_dig(self) -> bool {
        self.current_hp == 1
    }

    /// Apply one unit of dig damage. Returns the tile's kind before the hit
    /// when the hit destroys it, and `None` while hit points remain.
    pub fn dig(&mut self) -> (destroyed: Option<TileType>)
        requires
            old(self).wf(),
            old(self).tile_type.spec_is_solid(),
        ensures
            *final(self) == old(self).spec_dug(),
            final(self).wf(),
            destroyed == (if old(self).spec_destroyed_by_dig() {
                Some(old(self).tile_type)
            } else {
                Option::<TileType>::None
            }),
    {
        self.current_hp = self.current_hp - 1;
        if self.current_hp <= 0 {
            let response = Some(self.tile_type);
            self.tile_type = TileType::Air;
            response
        } else {
            None
        }
    }
}

} // verus!
