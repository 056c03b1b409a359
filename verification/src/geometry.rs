//! The player's axis-aligned box: a fixed-size square anchored at a mutable
//! top-left corner, with the same edge queries that tiles answer.

use vstd::prelude::*;

verus! {

/// Edge length of the player's box in world units.
pub const PLAYER_SIZE: i64 = 30;

/// Bound on player coordinates accepted by the collision queries. Keeps every
/// probe coordinate and distance comfortably inside `i64`.
pub const COORD_LIMIT: i64 = 0x4000_0000;

/// Margin inside `COORD_LIMIT` required of a position entering a tick, so
/// that one tick's movement cannot leave the accepted coordinate range.
pub const TICK_MARGIN: i64 = 8;

/// Top-left corner of the player's box, in world units.
#[derive(Clone, Copy, PartialEq, Eq, Structural, Debug)]
pub struct Position {
    pub x: i64,
    pub y: i64,
}

impl Position {
    /// World-space top edge.
    pub open spec fn spec_top(self) -> int {
        self.y as int
    }

    /// World-space bottom edge.
    pub open spec fn spec_bottom(self) -> int {
        self.y + PLAYER_SIZE
    }

    /// World-space left edge.
    pub open spec fn spec_left(self) -> int {
        self.x as int
    }

    /// World-space right edge.
    pub open spec fn spec_right(self) -> int {
        self.x + PLAYER_SIZE
    }

    /// Coordinates accepted by the collision queries.
    pub open spec fn in_range(self) -> bool {
        &&& -COORD_LIMIT <= self.x <= COORD_LIMIT
        &&& -COORD_LIMIT <= self.y <= COORD_LIMIT
    }

    /// Coordinates accepted at the start of a tick: strictly inside the
    /// accepted range, so the resolved position stays in range too.
    pub open spec fn in_tick_range(self) -> bool {
        &&& -COORD_LIMIT + TICK_MARGIN <= self.x <= COORD_LIMIT - TICK_MARGIN
        &&& -COORD_LIMIT + TICK_MARGIN <= self.y <= COORD_LIMIT - TICK_MARGIN
    }

    pub fn top(&self) -> (r: i64)
        ensures
            r == self.spec_top(),
    {
        self.y
    }

    pub fn bottom(&self) -> (r: i64)
        requires
            self.in_range(),
        ensures
            r == self.spec_bottom(),
    {
        self.y + PLAYER_SIZE
    }

    pub fn left(&self) -> (r: i64)
        ensures
            r == self.spec_left(),
    {
        self.x
    }

    pub fn right(&self) -> (r: i64)
        requires
            self.in_range(),
        ensures
            r == self.spec_right(),
    {
        self.x + PLAYER_SIZE
    }
}

} // verus!
