//! Player state and the per-tick simulation step: resolve vertical then
//! horizontal movement, derive ground contact, and apply the digging rule.
//!
//! Time is measured in whole milliseconds supplied by the caller's clock,
//! which must be monotonically non-decreasing across ticks.

use vstd::prelude::*;
use crate::collision::find_nearest_tile;
use crate::collision::resolve_axis;
use crate::collision::spec_find_nearest;
use crate::collision::spec_resolve_axis;
use crate::geometry::Position;
use crate::grid::TileGrid;
use crate::tile::Tile;
use crate::tile::TileType;

verus! {

/// Downward speed per tick when `up` is not held (unconditional gravity).
pub const GRAVITY: i64 = 3;

/// Upward speed per tick while `up` is held.
pub const JUMP_SPEED: i64 = 3;

/// Horizontal speed per tick while `left` or `right` is held.
pub const WALK_SPEED: i64 = 1;

/// Currency earned for destroying a `Gold` tile.
pub const GOLD_REWARD: u32 = 5;

/// Vertical follow window: the camera scrolls down once the player's top
/// edge passes this depth, and never scrolls above the surface band.
pub const CAMERA_WINDOW: i64 = 400;

/// Milliseconds that must pass between two dig attempts.
pub const DIG_COOLDOWN_MS: u64 = 1000;

/// One tick's intent, sampled from raw input by the caller.
#[derive(Clone, Copy, PartialEq, Eq, Structural, Debug)]
pub struct PlayerInput {
    pub left: bool,
    pub right: bool,
    pub down: bool,
    pub up: bool,
}

impl PlayerInput {
    /// The neutral intent: no key held.
    pub fn new() -> (i: PlayerInput)
        ensures
            i == (PlayerInput { left: false, right: false, down: false, up: false }),
    {
        PlayerInput { left: false, right: false, down: false, up: false }
    }
}

/// Immutable snapshot of the player between ticks.
#[derive(Clone, Copy, PartialEq, Eq, Structural, Debug)]
pub struct PlayerState {
    /// Top-left corner of the player's box.
    pub position: Position,
    /// How far the view has scrolled down; never negative.
    pub camera_offset: i64,
    /// Currency earned from destroyed `Gold` tiles.
    pub money: u32,
    /// Milliseconds between two dig attempts.
    pub dig_cooldown_ms: u64,
    /// Absolute time (milliseconds) from which the next dig is allowed.
    pub next_dig_time_ms: u64,
}

impl PlayerState {
    /// The starting snapshot: at the surface, no money, dig available.
    pub fn new() -> (s: PlayerState)
        ensures
            s == (PlayerState {
                position: Position { x: 100, y: 0 },
                camera_offset: 0,
                money: 0,
                dig_cooldown_ms: DIG_COOLDOWN_MS,
                next_dig_time_ms: 0,
            }),
    {
        PlayerState {
            position: Position { x: 100, y: 0 },
            camera_offset: 0,
            money: 0,
            dig_cooldown_ms: DIG_COOLDOWN_MS,
            next_dig_time_ms: 0,
        }
    }
}

/// Horizontal intent: `left` takes priority over `right`.
pub open spec fn spec_velocity_x(input: PlayerInput) -> int {
    if input.left {
        -WALK_SPEED as int
    } else if input.right {
        WALK_SPEED as int
    } else {
        0
    }
}

/// Vertical intent: rise while `up` is held, otherwise fall under gravity.
pub open spec fn spec_velocity_y(input: PlayerInput) -> int {
    if input.up {
        -JUMP_SPEED as int
    } else {
        GRAVITY as int
    }
}

/// The tile a dig aims at. Every dig is gated on ground: the search for a
/// solid tile directly below the post-move box must succeed, so an airborne
/// box digs nothing. On ground, `down` targets that tile below with
/// priority; otherwise `left` (which wins over `right`) or `right` target
/// the adjacent tile on that side — digging sideways into a wall while
/// grounded. With none of the three held there is no target.
pub open spec fn spec_dig_target(grid: TileGrid, pos: Position, input: PlayerInput) -> Option<
    usize,
> {
    let below = spec_find_nearest(grid, 0, 1, pos);
    if below is None {
        None
    } else if input.down {
        below
    } else if input.left {
        spec_find_nearest(grid, -1, 0, pos)
    } else if input.right {
        spec_find_nearest(grid, 1, 0, pos)
    } else {
        None
    }
}

/// Outcome of one dig attempt: the grid's tiles afterwards, the next time a
/// dig is allowed, and the currency earned. A dig happens exactly when the
/// cooldown has expired and a target exists (which needs ground under the
/// box: see `spec_dig_target`); it costs the target one hit point, resets
/// the cooldown whether or not the tile was destroyed, and pays
/// `GOLD_REWARD` only for destroying a `Gold` tile.
pub open spec fn spec_try_dig(
    grid: TileGrid,
    pos: Position,
    input: PlayerInput,
    now: int,
    next_dig_time: int,
    cooldown: int,
) -> (Seq<Tile>, int, int) {
    let target = spec_dig_target(grid, pos, input);
    if now >= next_dig_time && target is Some {
        let c = target->Some_0 as int;
        let t = grid.tiles@[c];
        (
            grid.tiles@.update(c, t.spec_dug()),
            now + cooldown,
            if t.spec_destroyed_by_dig() && t.tile_type == TileType::Gold {
                GOLD_REWARD as int
            } else {
                0
            },
        )
    } else {
        (grid.tiles@, next_dig_time, 0)
    }
}

/// Attempt one dig, per `spec_try_dig`. Returns the next allowed dig time
/// and the currency earned.
pub fn try_dig(
    grid: &mut TileGrid,
    pos: &Position,
    input: &PlayerInput,
    now_ms: u64,
    next_dig_time_ms: u64,
    dig_cooldown_ms: u64,
) -> (r: (u64, u32))
    requires
        old(grid).wf(),
        pos.in_range(),
        now_ms + dig_cooldown_ms <= u64::MAX,
    ensures
        final(grid).wf(),
        final(grid).width == old(grid).width,
        final(grid).height == old(grid).height,
        final(grid).tile_size == old(grid).tile_size,
        ({
            let s = spec_try_dig(
                *old(grid),
                *pos,
                *input,
                now_ms as int,
                next_dig_time_ms as int,
                dig_cooldown_ms as int,
            );
            final(grid).tiles@ == s.0 && r.0 == s.1 && r.1 == s.2
        }),
{
    let below = find_nearest_tile(0, 1, pos, grid);
    let target: Option<usize> = match below {
        None => None,
        Some(b) => {
            if input.down {
                Some(b)
            } else if input.left {
                find_nearest_tile(-1, 0, pos, grid)
            } else if input.right {
                find_nearest_tile(1, 0, pos, grid)
            } else {
                None
            }
        },
    };
    if now_ms >= next_dig_time_ms {
        if let Some(c) = target {
            let destroyed = grid.dig_at(c);
            let reward: u32 = match destroyed {
                Some(TileType::Gold) => GOLD_REWARD,
                _ => 0,
            };
            return (now_ms + dig_cooldown_ms, reward);
        }
    }
    (next_dig_time_ms, 0)
}

/// The post-move position of one tick: vertical motion is resolved against
/// the current position, then horizontal motion against the vertically
/// updated position.
pub open spec fn spec_next_position(grid: TileGrid, pos: Position, input: PlayerInput) -> Position {
    let vy = spec_resolve_axis(grid, 0, spec_velocity_y(input), pos).2;
    let provisional = Position { x: pos.x, y: (pos.y + vy) as i64 };
    let vx = spec_resolve_axis(grid, spec_velocity_x(input), 0, provisional).1;
    Position { x: (pos.x + vx) as i64, y: provisional.y }
}

/// Compute the post-move position of one tick, per `spec_next_position`:
/// vertical motion first against the current position, then horizontal
/// motion against the vertically updated position.
pub fn next_position(current_position: &Position, grid: &TileGrid, input: &PlayerInput) -> (p:
    Position)
    requires
        grid.wf(),
        current_position.in_tick_range(),
    ensures
        p == spec_next_position(*grid, *current_position, *input),
        p.in_range(),
{
    let vel_x: i64 = if input.left {
        -WALK_SPEED
    } else if input.right {
        WALK_SPEED
    } else {
        0
    };
    let vel_y: i64 = if input.up {
        -JUMP_SPEED
    } else {
        GRAVITY
    };

    let rv = resolve_axis(0, vel_y, current_position, grid);
    let provisional = Position { x: current_position.x, y: current_position.y + rv.2 };
    let rh = resolve_axis(vel_x, 0, &provisional, grid);
    Position { x: current_position.x + rh.1, y: provisional.y }
}

/// Ground contact after the vertical resolve: the resolver found a blocking
/// tile and the vertically updated top still sits strictly above that tile's
/// top, i.e. the player rests on a tile it could not fall through.
pub open spec fn spec_ground_contact(grid: TileGrid, pos: Position, input: PlayerInput) -> bool {
    let rv = spec_resolve_axis(grid, 0, spec_velocity_y(input), pos);
    rv.0 is Some && pos.y + rv.2 < grid.spec_tile_top(rv.0->Some_0 as int)
}

/// Runtime ground-contact test, matching `spec_ground_contact`.
pub fn ground_contact(position: &Position, grid: &TileGrid, input: &PlayerInput) -> (b: bool)
    requires
        grid.wf(),
        position.in_range(),
    ensures
        b == spec_ground_contact(*grid, *position, *input),
{
    let vy0 = if input.up {
        -JUMP_SPEED
    } else {
        GRAVITY
    };
    let r = resolve_axis(0, vy0, position, grid);
    match r.0 {
        Some(c) => position.top() + r.2 < grid.tile_top(c),
        None => false,
    }
}

/// The next camera offset: follow the player downward once the top edge is
/// below `CAMERA_WINDOW`, never scrolling above the surface band.
pub open spec fn spec_camera_offset(y: int) -> int {
    if y - CAMERA_WINDOW > 0 {
        y - CAMERA_WINDOW
    } else {
        0
    }
}

/// One tick's full outcome: the next player snapshot and the grid's tiles
/// afterwards.
pub open spec fn spec_tick(
    state: PlayerState,
    grid: TileGrid,
    input: PlayerInput,
    now: int,
) -> (PlayerState, Seq<Tile>) {
    let next_pos = spec_next_position(grid, state.position, input);
    let dug = spec_try_dig(
        grid,
        next_pos,
        input,
        now,
        state.next_dig_time_ms as int,
        state.dig_cooldown_ms as int,
    );
    (
        PlayerState {
            position: next_pos,
            camera_offset: spec_camera_offset(next_pos.y as int) as i64,
            money: (state.money + dug.2) as u32,
            dig_cooldown_ms: state.dig_cooldown_ms,
            next_dig_time_ms: dug.1 as u64,
        },
        dug.0,
    )
}

/// Advance the simulation by one tick: resolve vertical then horizontal
/// movement, attempt a dig at the post-move position, and assemble the next
/// snapshot. The grid is mutated at most once (the dig), and only when the
/// box is grounded: with no solid tile below the post-move box, the tick
/// changes neither the grid nor the money nor the dig deadline.
pub fn update_player_state(
    current_state: PlayerState,
    grid: &mut TileGrid,
    input: &PlayerInput,
    now_ms: u64,
) -> (next: PlayerState)
    requires
        old(grid).wf(),
        current_state.position.in_tick_range(),
        now_ms + current_state.dig_cooldown_ms <= u64::MAX,
        current_state.money + GOLD_REWARD <= u32::MAX,
    ensures
        final(grid).wf(),
        final(grid).width == old(grid).width,
        final(grid).height == old(grid).height,
        final(grid).tile_size == old(grid).tile_size,
        ({
            let s = spec_tick(current_state, *old(grid), *input, now_ms as int);
            next == s.0 && final(grid).tiles@ == s.1
        }),
        next.camera_offset >= 0,
        ({
            let next_pos = spec_next_position(*old(grid), current_state.position, *input);
            spec_find_nearest(*old(grid), 0, 1, next_pos) is None ==> final(grid).tiles@
                == old(grid).tiles@ && next.money == current_state.money
                && next.next_dig_time_ms == current_state.next_dig_time_ms
        }),
{
    let next_pos = next_position(&current_state.position, grid, input);

    let dug = try_dig(
        grid,
        &next_pos,
        input,
        now_ms,
        current_state.next_dig_time_ms,
        current_state.dig_cooldown_ms,
    );

    let camera_offset: i64 = if next_pos.y - CAMERA_WINDOW > 0 {
        next_pos.y - CAMERA_WINDOW
    } else {
        0
    };

    PlayerState {
        position: next_pos,
        camera_offset,
        money: current_state.money + dug.1,
        dig_cooldown_ms: current_state.dig_cooldown_ms,
        next_dig_time_ms: dug.0,
    }
}

} // verus!
