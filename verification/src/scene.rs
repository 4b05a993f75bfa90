//! The fixed parameters of the scene: where the level comes from, how the
//! sun stands, where the camera starts and how fast it turns. Angles are in
//! whole degrees and positions in whole world units.

use vstd::prelude::*;

verus! {

/// Asset path of the level's geometry, with the label of the scene in it.
pub const LEVEL_SCENE: &'static str = "arena.glb#Scene0";

/// Rotation of the sunlight about the x axis, in degrees.
pub const SUN_PITCH_DEGREES: i16 = -45;

/// Rotation of the sunlight about the y axis, in degrees.
pub const SUN_YAW_DEGREES: i16 = 35;

/// Illuminance of the sunlight, in lux.
pub const SUN_ILLUMINANCE: u16 = 50000;

/// Whether the sunlight casts shadows.
pub const SUN_SHADOWS: bool = true;

/// Where the camera starts, as x, y and z.
pub const CAMERA_START: (i16, i16, i16) = (10, 10, 20);

/// The point that the camera faces when it starts.
pub const CAMERA_TARGET: (i16, i16, i16) = (0, 0, 0);

/// Whether the mouse cursor is drawn while the camera is flown.
pub const CURSOR_VISIBLE: bool = false;

/// Whether the mouse cursor is kept inside the window.
pub const CURSOR_CONFINED: bool = true;

/// Degrees the camera turns per second for each unit of mouse motion.
pub const LOOK_SENSITIVITY: u8 = 5;

} // verus!
