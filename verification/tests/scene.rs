use flycam::scene::{
    CAMERA_START, CAMERA_TARGET, CURSOR_CONFINED, CURSOR_VISIBLE, LEVEL_SCENE, LOOK_SENSITIVITY,
    SUN_ILLUMINANCE, SUN_PITCH_DEGREES, SUN_SHADOWS, SUN_YAW_DEGREES,
};

#[test]
fn level_is_the_first_scene_of_the_arena() {
    assert_eq!(LEVEL_SCENE, "arena.glb#Scene0");
}

#[test]
fn sun_stands_at_its_fixed_angles() {
    assert_eq!(SUN_PITCH_DEGREES, -45);
    assert_eq!(SUN_YAW_DEGREES, 35);
    assert_eq!(SUN_ILLUMINANCE, 50000);
    assert!(SUN_SHADOWS);
}

#[test]
fn camera_starts_above_the_level_and_faces_its_centre() {
    assert_eq!(CAMERA_START, (10, 10, 20));
    assert_eq!(CAMERA_TARGET, (0, 0, 0));
}

#[test]
fn cursor_is_hidden_and_confined() {
    assert!(!CURSOR_VISIBLE);
    assert!(CURSOR_CONFINED);
}

#[test]
fn look_sensitivity_is_five() {
    assert_eq!(LOOK_SENSITIVITY, 5);
}
