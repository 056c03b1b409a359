//! Digging, cooldown and reward scenarios.

use tile_digger::grid::TileGrid;
use tile_digger::player::try_dig;
use tile_digger::player::update_player_state;
use tile_digger::player::PlayerInput;
use tile_digger::player::PlayerState;
use tile_digger::Position;
use tile_digger::TileType;

fn reference_grid() -> TileGrid {
    TileGrid::new(20, 100, 40, 5, 10)
}

fn dig_down() -> PlayerInput {
    PlayerInput { left: false, right: false, down: true, up: false }
}

/// Cell directly below a player resting at (100, 170): row 5, column 2.
const BELOW: usize = 5 * 20 + 2;

#[test]
fn dig_decrements_until_air_then_stays_air() {
    let mut grid = reference_grid();
    let pos = Position { x: 100, y: 170 };
    let input = dig_down();
    let mut next_dig: u64 = 0;
    for hit in 1..=10i32 {
        let now = 1000 * hit as u64;
        let (nd, reward) = try_dig(&mut grid, &pos, &input, now, next_dig, 1000);
        next_dig = nd;
        assert_eq!(reward, 0); // Ground never pays.
        let t = grid.tile_at(BELOW);
        assert_eq!(t.current_hp, 10 - hit);
        if hit < 10 {
            assert_eq!(t.tile_type, TileType::Ground);
        } else {
            assert_eq!(t.tile_type, TileType::Air);
        }
    }
    // Destroyed: the tile stays air; later digs hit the tile below it.
    let (_, reward) = try_dig(&mut grid, &pos, &input, 20_000, next_dig, 1000);
    assert_eq!(reward, 0);
    assert_eq!(grid.tile_at(BELOW).tile_type, TileType::Air);
    assert_eq!(grid.tile_at(BELOW).current_hp, 0);
}

#[test]
fn cooldown_blocks_second_attempt_within_window() {
    let mut grid = reference_grid();
    let pos = Position { x: 100, y: 170 };
    let input = dig_down();
    // Attempt at t = 100 succeeds and re-arms the cooldown deadline to t + 1000.
    let (next_dig, _) = try_dig(&mut grid, &pos, &input, 100, 0, 1000);
    assert_eq!(next_dig, 1100);
    assert_eq!(grid.tile_at(BELOW).current_hp, 9);
    // Attempt at t + 999 changes nothing.
    let (nd2, r2) = try_dig(&mut grid, &pos, &input, 1099, next_dig, 1000);
    assert_eq!(nd2, 1100);
    assert_eq!(r2, 0);
    assert_eq!(grid.tile_at(BELOW).current_hp, 9);
    // Attempt at exactly t + 1000 decrements again.
    let (nd3, _) = try_dig(&mut grid, &pos, &input, 1100, nd2, 1000);
    assert_eq!(nd3, 2100);
    assert_eq!(grid.tile_at(BELOW).current_hp, 8);
}

#[test]
fn gold_pays_five_exactly_on_destroying_hit() {
    let mut grid = reference_grid();
    grid.set_tile(BELOW, TileType::Gold, 3);
    let pos = Position { x: 100, y: 170 };
    let input = dig_down();
    let (nd1, r1) = try_dig(&mut grid, &pos, &input, 0, 0, 1000);
    assert_eq!(r1, 0);
    let (nd2, r2) = try_dig(&mut grid, &pos, &input, nd1, nd1, 1000);
    assert_eq!(r2, 0);
    let (_, r3) = try_dig(&mut grid, &pos, &input, nd2, nd2, 1000);
    assert_eq!(r3, 5);
    assert_eq!(grid.tile_at(BELOW).tile_type, TileType::Air);
}

#[test]
fn money_accumulates_through_ticks() {
    let mut grid = reference_grid();
    grid.set_tile(BELOW, TileType::Gold, 2);
    let mut state = PlayerState::new();
    state.position = Position { x: 100, y: 170 };
    let input = dig_down();
    state = update_player_state(state, &mut grid, &input, 0);
    assert_eq!(state.money, 0);
    assert_eq!(state.next_dig_time_ms, 1000);
    state = update_player_state(state, &mut grid, &input, 1000);
    assert_eq!(state.money, 5);
    assert_eq!(state.next_dig_time_ms, 2000);
    // The gold is gone; no further pay.
    state = update_player_state(state, &mut grid, &input, 3000);
    assert_eq!(state.money, 5);
}

#[test]
fn no_dig_without_direction_key() {
    let mut grid = reference_grid();
    let pos = Position { x: 100, y: 170 };
    let input = PlayerInput::new();
    let (nd, reward) = try_dig(&mut grid, &pos, &input, 5000, 0, 1000);
    // No target: the cooldown deadline is left untouched and nothing changes.
    assert_eq!(nd, 0);
    assert_eq!(reward, 0);
    assert_eq!(grid.tile_at(BELOW).current_hp, 10);
}

#[test]
fn no_sideways_dig_while_airborne() {
    // All-air world with one wall tile at row 0, column 4 (x 160..200).
    let mut grid = TileGrid::new(20, 100, 40, 100, 10);
    grid.set_tile(4, TileType::Ground, 10);
    // Box at (130, 5): right edge flush with the wall, nothing solid below.
    let pos = Position { x: 130, y: 5 };
    let input = PlayerInput { left: false, right: true, down: false, up: false };
    let (nd, reward) = try_dig(&mut grid, &pos, &input, 5000, 0, 1000);
    // Airborne: no dig — the wall keeps its hit points, no pay, and the
    // cooldown deadline stays where it was.
    assert_eq!(nd, 0);
    assert_eq!(reward, 0);
    assert_eq!(grid.tile_at(4).current_hp, 10);
}

#[test]
fn down_takes_priority_over_sideways_dig() {
    let mut grid = reference_grid();
    // A wall to the right at the resting row.
    grid.set_tile(4 * 20 + 4, TileType::Ground, 10);
    // Box flush against the wall: right edge at 160.
    let pos = Position { x: 130, y: 170 };
    let input = PlayerInput { left: false, right: true, down: true, up: false };
    let (_, _) = try_dig(&mut grid, &pos, &input, 0, 0, 1000);
    // The tile below lost a hit point, the wall did not.
    assert_eq!(grid.tile_at(5 * 20 + 3).current_hp, 9);
    assert_eq!(grid.tile_at(4 * 20 + 4).current_hp, 10);
}

#[test]
fn digs_sideways_into_wall() {
    let mut grid = reference_grid();
    grid.set_tile(4 * 20 + 4, TileType::Ground, 10);
    let pos = Position { x: 130, y: 170 };
    let input = PlayerInput { left: false, right: true, down: false, up: false };
    let (nd, _) = try_dig(&mut grid, &pos, &input, 0, 0, 1000);
    assert_eq!(nd, 1000);
    assert_eq!(grid.tile_at(4 * 20 + 4).current_hp, 9);
    // Nothing below was touched.
    assert_eq!(grid.tile_at(5 * 20 + 3).current_hp, 10);
}
