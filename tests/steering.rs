use creative_bevy::{steering_torque, CameraBasis, Dir3, Fixed3, MoveKeys};

fn keys(forward: bool, backward: bool, left: bool, right: bool) -> MoveKeys {
    MoveKeys { forward, backward, left, right }
}

fn basis() -> CameraBasis {
    CameraBasis { forward: Dir3::new(0, 0, -1_000_000), left: Dir3::new(-1_000_000, 0, 0) }
}

#[test]
fn no_camera_no_torque() {
    assert_eq!(steering_torque(keys(true, false, false, false), None), None);
}

#[test]
fn forward_turns_about_left_axis() {
    assert_eq!(steering_torque(keys(true, false, false, false), Some(basis())), Some(Fixed3::new(-1_000_000, 0, 0)));
    assert_eq!(steering_torque(keys(false, true, false, false), Some(basis())), Some(Fixed3::new(1_000_000, 0, 0)));
}

#[test]
fn sideways_turns_about_forward_axis() {
    assert_eq!(steering_torque(keys(false, false, false, true), Some(basis())), Some(Fixed3::new(0, 0, -1_000_000)));
    assert_eq!(steering_torque(keys(false, false, true, false), Some(basis())), Some(Fixed3::new(0, 0, 1_000_000)));
}

#[test]
fn held_keys_add_up_and_opposites_cancel() {
    assert_eq!(steering_torque(keys(true, false, false, true), Some(basis())), Some(Fixed3::new(-1_000_000, 0, -1_000_000)));
    assert_eq!(steering_torque(keys(true, true, true, true), Some(basis())), Some(Fixed3::zero()));
    assert_eq!(steering_torque(keys(false, false, false, false), Some(basis())), Some(Fixed3::zero()));
}
