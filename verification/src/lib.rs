//! Decisions behind a first-person fly camera: which way the arrow keys ask
//! the camera to move, and the fixed parameters of the scene it flies through.
//! The engine-facing systems turn these integers into vectors and rotations.

pub mod keys;
pub mod movement;
pub mod scene;
