//! End-to-end scenarios for the per-tick simulation.

use tile_digger::grid::TileGrid;
use tile_digger::player::ground_contact;
use tile_digger::player::update_player_state;
use tile_digger::player::PlayerInput;
use tile_digger::player::PlayerState;
use tile_digger::Position;
use tile_digger::TileType;

fn reference_grid() -> TileGrid {
    // 20 columns, 100 rows, 40-unit tiles, first 5 rows above ground.
    TileGrid::new(20, 100, 40, 5, 10)
}

fn no_input() -> PlayerInput {
    PlayerInput::new()
}

#[test]
fn new_player_state_defaults() {
    let s = PlayerState::new();
    assert_eq!(s.position, Position { x: 100, y: 0 });
    assert_eq!(s.camera_offset, 0);
    assert_eq!(s.money, 0);
    assert_eq!(s.dig_cooldown_ms, 1000);
    assert_eq!(s.next_dig_time_ms, 0);
}

#[test]
fn falls_by_gravity_then_rests_on_surface() {
    // Player box at (100, 0), 30x30; solid ground starts at row 5 (y = 200).
    // The box falls 3 units per tick until its bottom reaches 200 (y = 170)
    // and then stays there forever with ground contact.
    let mut grid = reference_grid();
    let mut state = PlayerState::new();
    let input = no_input();

    for tick in 1..=100u64 {
        state = update_player_state(state, &mut grid, &input, 0);
        let expected_y = std::cmp::min(3 * tick as i64, 170);
        assert_eq!(state.position.x, 100);
        assert_eq!(state.position.y, expected_y);
        assert_eq!(state.camera_offset, 0);
        assert_eq!(state.money, 0);
        // Ground contact holds as soon as the next fall would be blocked:
        // from y = 168 (bottom edge 198, within one gravity step of the
        // surface at 200) onward, and in particular at rest.
        let on_ground = ground_contact(&state.position, &grid, &input);
        assert_eq!(on_ground, expected_y >= 168);
    }
}

#[test]
fn rest_is_idempotent() {
    // Starting exactly on the surface, a tick with no input changes nothing.
    let mut grid = reference_grid();
    let mut state = PlayerState::new();
    state.position = Position { x: 100, y: 170 };
    let input = no_input();
    for _ in 0..10 {
        let before = state;
        state = update_player_state(state, &mut grid, &input, 0);
        assert_eq!(state, before);
    }
}

#[test]
fn left_takes_priority_over_right() {
    let mut grid = reference_grid();
    let mut state = PlayerState::new();
    state.position = Position { x: 100, y: 170 };
    let input = PlayerInput { left: true, right: true, down: false, up: false };
    state = update_player_state(state, &mut grid, &input, 0);
    assert_eq!(state.position, Position { x: 99, y: 170 });
}

#[test]
fn walks_right_when_only_right_held() {
    let mut grid = reference_grid();
    let mut state = PlayerState::new();
    state.position = Position { x: 100, y: 170 };
    let input = PlayerInput { left: false, right: true, down: false, up: false };
    state = update_player_state(state, &mut grid, &input, 0);
    assert_eq!(state.position, Position { x: 101, y: 170 });
}

#[test]
fn rises_while_up_held() {
    let mut grid = reference_grid();
    let mut state = PlayerState::new();
    state.position = Position { x: 100, y: 170 };
    let input = PlayerInput { left: false, right: false, down: false, up: true };
    state = update_player_state(state, &mut grid, &input, 0);
    assert_eq!(state.position, Position { x: 100, y: 167 });
}

#[test]
fn jump_is_clamped_by_ceiling() {
    // An all-air grid with one solid tile directly above the player: moving
    // up stops exactly at that tile's bottom edge.
    let mut grid = TileGrid::new(20, 100, 40, 100, 10);
    // Tile at row 1, column 2: spans x 80..120, y 40..80.
    grid.set_tile(1 * 20 + 2, TileType::Ground, 10);
    let mut state = PlayerState::new();
    // Box at (100, 81): top edge 1 unit below the tile's bottom edge.
    state.position = Position { x: 100, y: 81 };
    let input = PlayerInput { left: false, right: false, down: false, up: true };
    state = update_player_state(state, &mut grid, &input, 0);
    assert_eq!(state.position, Position { x: 100, y: 80 });
}

#[test]
fn walking_into_wall_is_clamped_to_contact() {
    // Solid column directly right of the player while standing on ground.
    let mut grid = reference_grid();
    // Wall at row 4 (y 160..200), column 4 (x 160..200).
    grid.set_tile(4 * 20 + 4, TileType::Ground, 10);
    let mut state = PlayerState::new();
    // Box at x 129: right edge 159, one unit left of the wall.
    state.position = Position { x: 129, y: 170 };
    let input = PlayerInput { left: false, right: true, down: false, up: false };
    state = update_player_state(state, &mut grid, &input, 0);
    // Clamped to touch: right edge 160, so x = 130.
    assert_eq!(state.position, Position { x: 130, y: 170 });
    // Another tick cannot push further in.
    state = update_player_state(state, &mut grid, &input, 2000);
    assert_eq!(state.position.x, 130);
}

#[test]
fn camera_follows_below_window() {
    let mut grid = TileGrid::new(20, 100, 40, 100, 10);
    let mut state = PlayerState::new();
    state.position = Position { x: 100, y: 500 };
    let input = no_input();
    state = update_player_state(state, &mut grid, &input, 0);
    // Falls to 503; camera = 503 - 400.
    assert_eq!(state.position.y, 503);
    assert_eq!(state.camera_offset, 103);
}

#[test]
fn camera_never_scrolls_above_surface_band() {
    let mut grid = reference_grid();
    let mut state = PlayerState::new();
    state.position = Position { x: 100, y: 100 };
    let input = no_input();
    state = update_player_state(state, &mut grid, &input, 0);
    assert_eq!(state.camera_offset, 0);
}

#[test]
fn no_ground_contact_in_free_fall() {
    let mut grid = reference_grid();
    let state = PlayerState::new();
    assert!(!ground_contact(&state.position, &grid, &no_input()));
}
