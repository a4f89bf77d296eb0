//! A turn-based tile-grid world: entities on a bounded map, pushable blocks,
//! ceilings that hide what lies beneath them, branching dialogue, a small
//! combat menu and a camera that follows the avatar.

pub mod game;
pub mod game_object;
pub mod laws;
pub mod paint;
pub mod render;
pub mod vector2;
pub mod world;
pub mod world_map;
