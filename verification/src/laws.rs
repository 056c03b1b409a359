//! Global laws of the resolver and the digging rule, stated and proved over
//! the specification functions that the executable contracts use.

use vstd::prelude::*;
use crate::collision::spec_consider;
use crate::collision::spec_dist;
use crate::collision::spec_find_nearest;
use crate::collision::spec_resolve_axis;
use crate::geometry::Position;
use crate::grid::TileGrid;
use crate::player::spec_dig_target;
use crate::player::spec_next_position;
use crate::player::spec_tick;
use crate::player::spec_try_dig;
use crate::player::PlayerInput;
use crate::player::PlayerState;
use crate::player::GOLD_REWARD;
use crate::tile::TileType;

verus! {

/// Containment: whenever the resolver reports a blocking tile, the box moved
/// by the clamped velocity touches that tile's facing edge and does not pass
/// it — `bottom <= top` of the tile when falling, and symmetrically for the
/// other three directions of travel.
pub proof fn lemma_containment(grid: TileGrid, vel_x: int, vel_y: int, pos: Position)
    requires
        vel_x == 0 || vel_y == 0,
    ensures
        ({
            let s = spec_resolve_axis(grid, vel_x, vel_y, pos);
            &&& s.0 is Some && vel_y > 0 ==> pos.spec_bottom() + s.2 <= grid.spec_tile_top(
                s.0->Some_0 as int,
            )
            &&& s.0 is Some && vel_y < 0 ==> pos.spec_top() + s.2 >= grid.spec_tile_bottom(
                s.0->Some_0 as int,
            )
            &&& s.0 is Some && vel_y == 0 && vel_x > 0 ==> pos.spec_right() + s.1
                <= grid.spec_tile_left(s.0->Some_0 as int)
            &&& s.0 is Some && vel_y == 0 && vel_x < 0 ==> pos.spec_left() + s.1
                >= grid.spec_tile_right(s.0->Some_0 as int)
        }),
{
}

/// Helper: one probe step keeps the candidate a valid, solid tile.
proof fn lemma_consider_solid(grid: TileGrid, pos: Position, best: Option<usize>, px: int, py: int)
    requires
        grid.wf(),
        best is Some ==> best->Some_0 < grid.tiles@.len()
            && grid.tiles@[best->Some_0 as int].tile_type.spec_is_solid(),
    ensures
        ({
            let r = spec_consider(grid, pos, best, px, py);
            r is Some ==> r->Some_0 < grid.tiles@.len()
                && grid.tiles@[r->Some_0 as int].tile_type.spec_is_solid()
        }),
{
    if grid.spec_cell_of(px, py) is Some {
        grid.lemma_cell_of_in_grid(px, py);
    }
}

/// The nearest-tile search never selects a passable (`Air`) tile, and its
/// result is always a valid cell index.
pub proof fn lemma_nearest_solid(grid: TileGrid, vel_x: int, vel_y: int, pos: Position)
    requires
        grid.wf(),
    ensures
        ({
            let r = spec_find_nearest(grid, vel_x, vel_y, pos);
            r is Some ==> r->Some_0 < grid.tiles@.len()
                && grid.tiles@[r->Some_0 as int].tile_type.spec_is_solid()
        }),
{
    let l = pos.spec_left();
    let r = pos.spec_right();
    let t = pos.spec_top();
    let b = pos.spec_bottom();
    let b0 = Option::<usize>::None;
    if vel_y > 0 {
        lemma_consider_solid(grid, pos, b0, l + 1 + vel_x, b + vel_y);
        lemma_consider_solid(
            grid,
            pos,
            spec_consider(grid, pos, b0, l + 1 + vel_x, b + vel_y),
            r - 1 + vel_x,
            b + vel_y,
        );
    } else if vel_y < 0 {
        lemma_consider_solid(grid, pos, b0, l + 1 + vel_x, t + vel_y);
        lemma_consider_solid(
            grid,
            pos,
            spec_consider(grid, pos, b0, l + 1 + vel_x, t + vel_y),
            r - 1 + vel_x,
            t + vel_y,
        );
    }
    let b1 = if vel_y > 0 {
        spec_consider(
            grid,
            pos,
            spec_consider(grid, pos, b0, l + 1 + vel_x, b + vel_y),
            r - 1 + vel_x,
            b + vel_y,
        )
    } else if vel_y < 0 {
        spec_consider(
            grid,
            pos,
            spec_consider(grid, pos, b0, l + 1 + vel_x, t + vel_y),
            r - 1 + vel_x,
            t + vel_y,
        )
    } else {
        b0
    };
    if vel_x > 0 {
        lemma_consider_solid(grid, pos, b1, r + vel_x, b - 1 + vel_y);
        lemma_consider_solid(
            grid,
            pos,
            spec_consider(grid, pos, b1, r + vel_x, b - 1 + vel_y),
            r + vel_x,
            t + 1 + vel_y,
        );
    } else if vel_x < 0 {
        lemma_consider_solid(grid, pos, b1, l + vel_x, b - 1 + vel_y);
        lemma_consider_solid(
            grid,
            pos,
            spec_consider(grid, pos, b1, l + vel_x, b - 1 + vel_y),
            l + vel_x,
            t + 1 + vel_y,
        );
    }
}

/// A probe "offers no closer candidate" than distance `d`: it lands outside
/// the grid, in a passable tile, or on a solid tile no nearer than `d`.
pub open spec fn probe_no_closer(grid: TileGrid, pos: Position, px: int, py: int, d: int) -> bool {
    match grid.spec_cell_of(px, py) {
        Some(c) => grid.tiles@[c as int].tile_type.spec_is_solid() ==> spec_dist(
            grid,
            pos,
            c as int,
        ) >= d,
        None => true,
    }
}

/// Helper: a probe that offers no closer candidate leaves the current best
/// in place — on an exact tie the earlier probe's tile is kept.
proof fn lemma_consider_keeps(grid: TileGrid, pos: Position, b: usize, px: int, py: int)
    requires
        probe_no_closer(grid, pos, px, py, spec_dist(grid, pos, b as int)),
    ensures
        spec_consider(grid, pos, Some(b), px, py) == Some(b),
{
}

/// Tie-break determinism, vertical travel: when the probe generated first in
/// scan order (the negative corner of the leading edge) lands on a solid
/// tile, and no later probe — the positive corner, nor either horizontal
/// probe — offers a strictly closer candidate, the first probe's tile is
/// selected. Equidistant candidates therefore always lose to the earlier
/// probe.
pub proof fn lemma_tie_break_vertical(grid: TileGrid, vel_x: int, vel_y: int, pos: Position)
    requires
        grid.wf(),
        vel_y != 0,
        ({
            let py = (if vel_y > 0 {
                pos.spec_bottom()
            } else {
                pos.spec_top()
            }) + vel_y;
            let c = grid.spec_cell_of(pos.spec_left() + 1 + vel_x, py);
            c is Some && grid.tiles@[c->Some_0 as int].tile_type.spec_is_solid()
        }),
        ({
            let py = (if vel_y > 0 {
                pos.spec_bottom()
            } else {
                pos.spec_top()
            }) + vel_y;
            let c0 = grid.spec_cell_of(pos.spec_left() + 1 + vel_x, py)->Some_0;
            let d0 = spec_dist(grid, pos, c0 as int);
            &&& probe_no_closer(grid, pos, pos.spec_right() - 1 + vel_x, py, d0)
            &&& vel_x > 0 ==> probe_no_closer(
                grid,
                pos,
                pos.spec_right() + vel_x,
                pos.spec_bottom() - 1 + vel_y,
                d0,
            ) && probe_no_closer(grid, pos, pos.spec_right() + vel_x, pos.spec_top() + 1 + vel_y, d0)
            &&& vel_x < 0 ==> probe_no_closer(
                grid,
                pos,
                pos.spec_left() + vel_x,
                pos.spec_bottom() - 1 + vel_y,
                d0,
            ) && probe_no_closer(grid, pos, pos.spec_left() + vel_x, pos.spec_top() + 1 + vel_y, d0)
        }),
    ensures
        ({
            let py = (if vel_y > 0 {
                pos.spec_bottom()
            } else {
                pos.spec_top()
            }) + vel_y;
            spec_find_nearest(grid, vel_x, vel_y, pos) == Some(
                grid.spec_cell_of(pos.spec_left() + 1 + vel_x, py)->Some_0,
            )
        }),
{
    let l = pos.spec_left();
    let r = pos.spec_right();
    let t = pos.spec_top();
    let b = pos.spec_bottom();
    let py = (if vel_y > 0 {
        b
    } else {
        t
    }) + vel_y;
    let c0 = grid.spec_cell_of(l + 1 + vel_x, py)->Some_0;
    let d0 = spec_dist(grid, pos, c0 as int);
    assert(spec_consider(grid, pos, None, l + 1 + vel_x, py) == Some(c0));
    lemma_consider_keeps(grid, pos, c0, r - 1 + vel_x, py);
    if vel_x > 0 {
        lemma_consider_keeps(grid, pos, c0, r + vel_x, b - 1 + vel_y);
        lemma_consider_keeps(grid, pos, c0, r + vel_x, t + 1 + vel_y);
    } else if vel_x < 0 {
        lemma_consider_keeps(grid, pos, c0, l + vel_x, b - 1 + vel_y);
        lemma_consider_keeps(grid, pos, c0, l + vel_x, t + 1 + vel_y);
    }
}

/// Tie-break determinism, horizontal travel with no vertical component: the
/// probe at the bottom corner of the leading edge comes first in scan order,
/// so its solid tile is kept against an equidistant (or farther) candidate
/// from the top-corner probe.
pub proof fn lemma_tie_break_horizontal(grid: TileGrid, vel_x: int, pos: Position)
    requires
        grid.wf(),
        vel_x != 0,
        ({
            let px = (if vel_x > 0 {
                pos.spec_right()
            } else {
                pos.spec_left()
            }) + vel_x;
            let c = grid.spec_cell_of(px, pos.spec_bottom() - 1);
            c is Some && grid.tiles@[c->Some_0 as int].tile_type.spec_is_solid()
        }),
        ({
            let px = (if vel_x > 0 {
                pos.spec_right()
            } else {
                pos.spec_left()
            }) + vel_x;
            let c0 = grid.spec_cell_of(px, pos.spec_bottom() - 1)->Some_0;
            probe_no_closer(grid, pos, px, pos.spec_top() + 1, spec_dist(grid, pos, c0 as int))
        }),
    ensures
        ({
            let px = (if vel_x > 0 {
                pos.spec_right()
            } else {
                pos.spec_left()
            }) + vel_x;
            spec_find_nearest(grid, vel_x, 0, pos) == Some(
                grid.spec_cell_of(px, pos.spec_bottom() - 1)->Some_0,
            )
        }),
{
    let l = pos.spec_left();
    let r = pos.spec_right();
    let t = pos.spec_top();
    let b = pos.spec_bottom();
    let px = (if vel_x > 0 {
        r
    } else {
        l
    }) + vel_x;
    let c0 = grid.spec_cell_of(px, b - 1)->Some_0;
    assert(spec_consider(grid, pos, None, px, b - 1) == Some(c0));
    lemma_consider_keeps(grid, pos, c0, px, t + 1);
}

/// Helper: whichever input direction selects the dig target, the target is a
/// valid, solid cell.
pub proof fn lemma_dig_target_solid(grid: TileGrid, pos: Position, input: PlayerInput)
    requires
        grid.wf(),
    ensures
        ({
            let r = spec_dig_target(grid, pos, input);
            r is Some ==> r->Some_0 < grid.tiles@.len()
                && grid.tiles@[r->Some_0 as int].tile_type.spec_is_solid()
        }),
{
    lemma_nearest_solid(grid, 0, 1, pos);
    if input.left {
        lemma_nearest_solid(grid, -1, 0, pos);
    } else if input.right {
        lemma_nearest_solid(grid, 1, 0, pos);
    }
}

/// Sideways digging is gated on ground contact: without a solid tile found
/// directly below the box there is no dig target at all, so an airborne box
/// beside a wall cannot dig into it — the attempt changes no tile, pays
/// nothing, and leaves the cooldown deadline untouched.
pub proof fn lemma_dig_requires_ground(
    grid: TileGrid,
    pos: Position,
    input: PlayerInput,
    now: int,
    next_dig_time: int,
    cooldown: int,
)
    requires
        spec_find_nearest(grid, 0, 1, pos) is None,
    ensures
        spec_dig_target(grid, pos, input) is None,
        spec_try_dig(grid, pos, input, now, next_dig_time, cooldown) == (
            grid.tiles@,
            next_dig_time,
            0int,
        ),
{
}

/// Dig monotonicity, per attempt: a successful dig (cooldown expired, target
/// found) strictly decreases the target tile's hit points by exactly one,
/// flips its kind to `Air` exactly when they reach zero, and touches no
/// other tile. Attempts spaced one full cooldown apart therefore decrement
/// the same tile once each until it becomes `Air`.
pub proof fn lemma_dig_decrements(
    grid: TileGrid,
    pos: Position,
    input: PlayerInput,
    now: int,
    next_dig_time: int,
    cooldown: int,
)
    requires
        grid.wf(),
        now >= next_dig_time,
        spec_dig_target(grid, pos, input) is Some,
    ensures
        ({
            let c = spec_dig_target(grid, pos, input)->Some_0 as int;
            let s = spec_try_dig(grid, pos, input, now, next_dig_time, cooldown);
            let before = grid.tiles@[c];
            &&& 0 <= c < grid.tiles@.len()
            &&& before.tile_type.spec_is_solid()
            &&& before.current_hp >= 1
            &&& s.0[c].current_hp == before.current_hp - 1
            &&& s.0[c].tile_type == (if before.current_hp == 1 {
                TileType::Air
            } else {
                before.tile_type
            })
            &&& s.1 == now + cooldown
            &&& forall|i: int|
                0 <= i < grid.tiles@.len() && i != c ==> s.0[i] == grid.tiles@[i]
        }),
{
    lemma_dig_target_solid(grid, pos, input);
}

/// Destruction is permanent: a passable (`Air`) tile is never selected as a
/// dig target, so a tick leaves it exactly as it is.
pub proof fn lemma_air_stays_air(
    state: PlayerState,
    grid: TileGrid,
    input: PlayerInput,
    now: int,
    c: int,
)
    requires
        grid.wf(),
        0 <= c < grid.tiles@.len(),
        !grid.tiles@[c].tile_type.spec_is_solid(),
    ensures
        spec_tick(state, grid, input, now).1[c] == grid.tiles@[c],
{
    let next_pos = spec_next_position(grid, state.position, input);
    lemma_dig_target_solid(grid, next_pos, input);
}

/// Cooldown gating, blocking half: an attempt before `next_dig_time` is a
/// complete no-op — no tile changes, no reward, and the cooldown deadline is left
/// where it was.
pub proof fn lemma_dig_on_cooldown(
    grid: TileGrid,
    pos: Position,
    input: PlayerInput,
    now: int,
    next_dig_time: int,
    cooldown: int,
)
    requires
        now < next_dig_time,
    ensures
        spec_try_dig(grid, pos, input, now, next_dig_time, cooldown) == (
            grid.tiles@,
            next_dig_time,
            0int,
        ),
{
}

/// Cooldown gating, two-attempt scenario: a successful attempt at time `t`
/// re-arms the cooldown deadline to `t + cooldown`, so a second attempt at `t + eps` with
/// `eps < cooldown` changes nothing — whatever grid, position and input that
/// second attempt sees. Two attempts within one cooldown window thus cost at
/// most one hit point.
pub proof fn lemma_cooldown_gating(
    grid: TileGrid,
    grid_after: TileGrid,
    pos: Position,
    pos_after: Position,
    input: PlayerInput,
    input_after: PlayerInput,
    t: int,
    eps: int,
    next_dig_time: int,
    cooldown: int,
)
    requires
        grid.wf(),
        t >= next_dig_time,
        spec_dig_target(grid, pos, input) is Some,
        0 <= eps < cooldown,
    ensures
        spec_try_dig(grid, pos, input, t, next_dig_time, cooldown).1 == t + cooldown,
        ({
            let rearmed = spec_try_dig(grid, pos, input, t, next_dig_time, cooldown).1;
            spec_try_dig(grid_after, pos_after, input_after, t + eps, rearmed, cooldown) == (
                grid_after.tiles@,
                rearmed,
                0int,
            )
        }),
{
}

/// Idempotent rest: a box whose bottom edge sits exactly on a tile boundary,
/// with solid tiles under both of its lower probe corners and no key held,
/// ticks to exactly the same position: gravity is clamped to zero net fall.
/// Money, the dig deadline and the whole grid are untouched, and when the camera
/// already agrees with the position the entire state is reproduced.
pub proof fn lemma_idempotent_rest(
    state: PlayerState,
    grid: TileGrid,
    input: PlayerInput,
    now: int,
)
    requires
        grid.wf(),
        input == (PlayerInput { left: false, right: false, down: false, up: false }),
        0 <= state.position.spec_bottom(),
        state.position.spec_bottom() % (grid.tile_size as int) == 0,
        crate::player::GRAVITY < grid.tile_size,
        ({
            let py = state.position.spec_bottom() + crate::player::GRAVITY;
            let c = grid.spec_cell_of(state.position.spec_left() + 1, py);
            c is Some && grid.tiles@[c->Some_0 as int].tile_type.spec_is_solid()
        }),
        ({
            let py = state.position.spec_bottom() + crate::player::GRAVITY;
            let c = grid.spec_cell_of(state.position.spec_right() - 1, py);
            c is Some && grid.tiles@[c->Some_0 as int].tile_type.spec_is_solid()
        }),
    ensures
        ({
            let s = spec_tick(state, grid, input, now);
            &&& s.0.position == state.position
            &&& s.0.money == state.money
            &&& s.0.next_dig_time_ms == state.next_dig_time_ms
            &&& s.0.dig_cooldown_ms == state.dig_cooldown_ms
            &&& s.1 == grid.tiles@
            &&& state.camera_offset == crate::player::spec_camera_offset(
                state.position.y as int,
            ) ==> s.0 == state
        }),
{
    let pos = state.position;
    let l = pos.spec_left();
    let r = pos.spec_right();
    let b = pos.spec_bottom();
    let s = grid.tile_size as int;
    let g = crate::player::GRAVITY as int;
    let py = b + g;
    let q = b / s;

    vstd::arithmetic::div_mod::lemma_div_pos_is_pos(b, s);
    vstd::arithmetic::div_mod::lemma_fundamental_div_mod(b, s);
    assert(b == q * s) by (nonlinear_arith)
        requires
            b == s * q + b % s,
            b % s == 0,
    ;
    crate::grid::lemma_flat_index(q, g, s);
    assert(py / s == q);

    let c0 = grid.spec_cell_of(l + 1, py)->Some_0;
    let c1 = grid.spec_cell_of(r - 1, py)->Some_0;
    grid.lemma_cell_of_in_grid(l + 1, py);
    grid.lemma_cell_of_in_grid(r - 1, py);
    assert(grid.spec_tile_top(c0 as int) == q * s);
    assert(grid.spec_tile_top(c1 as int) == q * s);

    let f = spec_find_nearest(grid, 0, g, pos);
    assert(f == Some(c0) || f == Some(c1));
    assert(spec_resolve_axis(grid, 0, g, pos).2 == 0);

    let next_pos = spec_next_position(grid, pos, input);
    assert(next_pos == pos);
}

/// Reward mapping: the hit that destroys a `Gold` tile pays exactly
/// `GOLD_REWARD`; earlier hits on it pay nothing, and destroying any other
/// kind — in particular `Ground` — never pays.
pub proof fn lemma_reward_mapping(
    grid: TileGrid,
    pos: Position,
    input: PlayerInput,
    now: int,
    next_dig_time: int,
    cooldown: int,
)
    requires
        grid.wf(),
        now >= next_dig_time,
        spec_dig_target(grid, pos, input) is Some,
    ensures
        ({
            let c = spec_dig_target(grid, pos, input)->Some_0 as int;
            let s = spec_try_dig(grid, pos, input, now, next_dig_time, cooldown);
            let before = grid.tiles@[c];
            &&& before.tile_type == TileType::Gold && before.current_hp == 1 ==> s.2
                == GOLD_REWARD as int
            &&& before.current_hp > 1 ==> s.2 == 0
            &&& before.tile_type != TileType::Gold ==> s.2 == 0
        }),
{
}

} // verus!
