//! Simulation core of a 2D isometric action game: bullet flight and hit
//! detection, character and zombie animation state machines, cooldown-gated
//! animation cadence, input aggregation, and painter's-algorithm frame
//! composition. All world coordinates are fixed-point integers.

pub mod bounds;
pub mod bullet;
pub mod character;
pub mod clock;
pub mod compose;
pub mod controls;
pub mod orientation;
pub mod position;
pub mod system;
pub mod terrain;
pub mod terrain_object;
pub mod views;
pub mod zombie;
