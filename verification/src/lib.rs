//! Movement, collision and digging core of a side-scrolling tile-digging game.
//!
//! A player-controlled axis-aligned box moves through a fixed grid of tiles,
//! is blocked by solid tiles (`Ground`, `Gold`), and can damage the tile
//! directly in its path to earn currency. The crate covers the axis-separated
//! collision resolver, the direction-dependent selection of the blocking or
//! diggable tile, and the per-tick state transition from raw input to the next
//! player state. Rendering, input polling and the fixed-timestep driver are
//! outside collaborators and live in the surrounding application.

pub mod collision;
pub mod geometry;
pub mod grid;
pub mod laws;
pub mod player;
pub mod tile;

pub use geometry::Position;
pub use player::PlayerInput;
pub use player::PlayerState;
pub use grid::TileGrid;
pub use tile::Tile;
pub use tile::TileType;
