use creative_bevy::{
    activate_fly_camera, activate_third_person_camera, follow_position, orbit_angles, the_ball,
    CameraMode, Dir3, Fixed3, MouseMotion, ThirdPersonCamera, DEFAULT_DISTANCE,
    DEFAULT_SENSITIVITY, PITCH_LIMIT,
};

#[test]
fn captured_motion_turns_camera() {
    let motions = vec![MouseMotion { dx: 10, dy: -3 }, MouseMotion { dx: -4, dy: 1 }];
    let r = orbit_angles(100, 0, true, 2000, 1280, 720, &motions);
    // 2000 * 720 = 1_440_000 nanoradians per pixel
    assert_eq!(r.yaw, 100 - 1_440_000 * 6);
    assert_eq!(r.pitch, 1_440_000 * 2);
}

#[test]
fn free_cursor_drops_motion() {
    let motions = vec![MouseMotion { dx: 500, dy: 500 }];
    let r = orbit_angles(7, -9, false, 2000, 800, 600, &motions);
    assert_eq!(r.yaw, 7);
    assert_eq!(r.pitch, -9);
}

#[test]
fn pitch_stays_clamped_under_huge_motion() {
    let motions: Vec<MouseMotion> = (0..1000).map(|_| MouseMotion { dx: i16::MAX, dy: i16::MIN }).collect();
    let r = orbit_angles(0, 0, true, u16::MAX, u16::MAX, u16::MAX, &motions);
    assert_eq!(r.pitch, PITCH_LIMIT);
    assert_eq!(r.yaw, -(65535i128 * 65535 * 32767 * 1000));
    let motions = vec![MouseMotion { dx: 0, dy: i16::MAX }];
    let r = orbit_angles(0, 0, true, u16::MAX, u16::MAX, u16::MAX, &motions);
    assert_eq!(r.pitch, -PITCH_LIMIT);
    let r = orbit_angles(0, i64::MAX, false, 1, 1, 1, &Vec::new());
    assert_eq!(r.pitch, PITCH_LIMIT);
}

#[test]
fn camera_sits_behind_target() {
    let target = Fixed3::new(1_000_000, 2_000_000, -3_000_000);
    let back = Dir3::new(0, 600_000, 800_000);
    let p = follow_position(target, back, 4_000_000).unwrap();
    assert_eq!(p, Fixed3::new(1_000_000, 4_400_000, 200_000));
    let p = follow_position(Fixed3::new(0, 0, 0), Dir3::new(-1, 1, -999_999), 1_000_001).unwrap();
    assert_eq!(p, Fixed3::new(-1, 1, -999_999));
    assert_eq!(follow_position(Fixed3::new(i64::MAX, 0, 0), Dir3::new(1_000_000, 0, 0), 1), None);
}

#[test]
fn orbit_fly_orbit_restores_default_camera() {
    let ball = 42;
    let mut cams = vec![CameraMode::Orbit(ThirdPersonCamera::following(ball))];
    let original = cams.clone();
    activate_fly_camera(&mut cams);
    assert_eq!(cams, vec![CameraMode::FreeFly]);
    assert!(activate_third_person_camera(&mut cams, &vec![ball]));
    assert_eq!(cams, original);
    match cams[0] {
        CameraMode::Orbit(c) => {
            assert_eq!(c.follow_entity, 42);
            assert_eq!(c.distance, DEFAULT_DISTANCE);
            assert_eq!(c.sensitivity, DEFAULT_SENSITIVITY);
        }
        CameraMode::FreeFly => panic!("camera should orbit"),
    }
}

#[test]
fn orbit_switch_needs_exactly_one_ball() {
    let mut cams = vec![CameraMode::FreeFly];
    assert!(!activate_third_person_camera(&mut cams, &vec![]));
    assert!(!activate_third_person_camera(&mut cams, &vec![1, 2]));
    assert_eq!(cams, vec![CameraMode::FreeFly]);
    assert_eq!(the_ball(&vec![9]), Some(9));
    assert_eq!(the_ball(&vec![]), None);
}

#[test]
fn orbit_switch_leaves_orbiting_cameras() {
    let custom = ThirdPersonCamera { follow_entity: 5, distance: 1, sensitivity: 3 };
    let mut cams = vec![CameraMode::Orbit(custom), CameraMode::FreeFly];
    assert!(activate_third_person_camera(&mut cams, &vec![8]));
    assert_eq!(cams, vec![CameraMode::Orbit(custom), CameraMode::Orbit(ThirdPersonCamera::following(8))]);
}
