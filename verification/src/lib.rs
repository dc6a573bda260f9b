//! Voxel building game logic: voxel models and their meshes, the pre-built structures, ray
//! picking, the building grid and the editor's input state machine.

pub mod color;
pub mod coords;
pub mod game;
pub mod render;
pub mod voxel;
