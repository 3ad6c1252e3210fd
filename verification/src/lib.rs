//! Verified game logic of a hexagonal slime world: hexagon grid planning,
//! texture atlas lookups, mesh axis conversion, camera controls and the
//! slime movement and animation state machines.

pub mod atlas;
pub mod hex;
pub mod input;
pub mod mesh;
mod random;
pub mod slime;
pub mod world;
