use orbit_pick::camera::{
    OrbitCamera, PoseUpdate, DEFAULT_DISTANCE, DEFAULT_PITCH, MAX_DISTANCE, MAX_PITCH,
    MIN_DISTANCE, MIN_PITCH,
};
use orbit_pick::input::{classify, CameraManipulation, InputSnapshot, Motion};

const SECOND: u32 = 1_000_000;

fn still_input() -> InputSnapshot {
    InputSnapshot {
        motion: Motion { x: 0, y: 0 },
        scroll_y: 0,
        alt: false,
        shift: false,
        left_button: false,
        middle_button: false,
        right_button: false,
    }
}

fn in_range(c: &OrbitCamera) -> bool {
    MIN_PITCH <= c.cam_pitch
        && c.cam_pitch <= MAX_PITCH
        && MIN_DISTANCE <= c.cam_distance
        && c.cam_distance <= MAX_DISTANCE
}

#[test]
fn default_camera_starts_at_twenty_units_and_thirty_degrees() {
    let c = OrbitCamera::default();
    assert_eq!(c.cam_distance, 20_000_000);
    assert_eq!(c.cam_pitch, 523_599);
    assert_eq!(c.cam_yaw, 0);
    assert_eq!(c.cam_entity, None);
    assert_eq!(c.light_entity, None);
    assert_eq!(c.camera_manipulation, None);
}

#[test]
fn classify_alt_middle_is_pan() {
    let mut i = still_input();
    i.alt = true;
    i.shift = true;
    i.middle_button = true;
    i.scroll_y = 4;
    i.motion = Motion { x: 3, y: -2 };
    assert_eq!(classify(&i), Some(CameraManipulation::Pan(Motion { x: 3, y: -2 })));
}

#[test]
fn classify_shift_middle_is_rotate() {
    let mut i = still_input();
    i.shift = true;
    i.middle_button = true;
    i.motion = Motion { x: 1, y: 1 };
    assert_eq!(classify(&i), Some(CameraManipulation::Rotate(Motion { x: 1, y: 1 })));
}

#[test]
fn classify_middle_alone_is_orbit() {
    let mut i = still_input();
    i.middle_button = true;
    i.scroll_y = 9;
    i.motion = Motion { x: -7, y: 8 };
    assert_eq!(classify(&i), Some(CameraManipulation::Orbit(Motion { x: -7, y: 8 })));
}

#[test]
fn classify_scroll_without_middle_is_zoom() {
    let mut i = still_input();
    i.alt = true;
    i.left_button = true;
    i.right_button = true;
    i.scroll_y = -250_000;
    assert_eq!(classify(&i), Some(CameraManipulation::Zoom(-250_000)));
}

#[test]
fn classify_nothing_held_is_none() {
    let mut i = still_input();
    i.alt = true;
    i.shift = true;
    i.motion = Motion { x: 50, y: 50 };
    assert_eq!(classify(&i), None);
}

#[test]
fn zoom_past_the_near_limit_clamps_to_five() {
    let mut c = OrbitCamera::default();
    let mut i = still_input();
    i.scroll_y = 1_000_000;
    c.process_user_input(&i, SECOND);
    assert_eq!(c.cam_distance, 5_000_000);
    assert_eq!(c.cam_pitch, DEFAULT_PITCH);
    assert_eq!(c.cam_yaw, 0);
    assert_eq!(c.camera_manipulation, Some(CameraManipulation::Zoom(1_000_000)));
}

#[test]
fn zoom_out_clamps_to_thirty() {
    let mut c = OrbitCamera::default();
    c.update(Some(CameraManipulation::Zoom(-1_000_000)), SECOND);
    assert_eq!(c.cam_distance, 30_000_000);
}

#[test]
fn zoom_small_step_is_scroll_times_time_times_fifty() {
    let mut c = OrbitCamera::default();
    // 0.1 scroll steps over 16 ms at 50 units per step-second: 0.08 units.
    c.update(Some(CameraManipulation::Zoom(100_000)), 16_000);
    assert_eq!(c.cam_distance, 19_920_000);
}

#[test]
fn orbit_by_pi_turns_yaw_by_pi_exactly() {
    let mut c = OrbitCamera::default();
    let mut i = still_input();
    i.middle_button = true;
    i.motion = Motion { x: 3_141_593, y: 0 };
    c.process_user_input(&i, SECOND);
    assert_eq!(c.cam_yaw, 3_141_593);
    assert_eq!(c.cam_pitch, DEFAULT_PITCH);
    assert_eq!(c.cam_distance, DEFAULT_DISTANCE);
}

#[test]
fn orbit_vertical_motion_lowers_pitch() {
    let mut c = OrbitCamera::default();
    // 0.1 pixels over half a second: pitch falls by 0.05 radians.
    c.update(Some(CameraManipulation::Orbit(Motion { x: 0, y: 100_000 })), 500_000);
    assert_eq!(c.cam_pitch, 473_599);
    assert_eq!(c.cam_yaw, 0);
}

#[test]
fn orbit_rounds_toward_zero() {
    let mut c = OrbitCamera::default();
    c.update(Some(CameraManipulation::Orbit(Motion { x: -3, y: 0 })), 500_000);
    assert_eq!(c.cam_yaw, -1);
    c.update(Some(CameraManipulation::Orbit(Motion { x: 3, y: 0 })), 500_000);
    assert_eq!(c.cam_yaw, 0);
}

#[test]
fn yaw_saturates_at_the_integer_limit() {
    let mut c = OrbitCamera::default();
    c.cam_yaw = i64::MAX - 10;
    c.update(Some(CameraManipulation::Orbit(Motion { x: i64::MAX, y: 0 })), u32::MAX);
    assert_eq!(c.cam_yaw, i64::MAX);
}

#[test]
fn orbit_sequences_keep_pitch_and_distance_in_range() {
    let mut c = OrbitCamera::default();
    let moves = [
        Motion { x: i64::MAX, y: i64::MAX },
        Motion { x: i64::MIN, y: i64::MIN },
        Motion { x: 12_345, y: -987_654 },
        Motion { x: 0, y: 40_000_000 },
        Motion { x: -1, y: -40_000_000 },
    ];
    for (n, m) in moves.iter().enumerate() {
        c.update(Some(CameraManipulation::Orbit(*m)), (n as u32 + 1) * 700_000);
        assert!(in_range(&c));
    }
    c.update(Some(CameraManipulation::Zoom(i64::MIN)), u32::MAX);
    assert!(in_range(&c));
}

#[test]
fn still_frames_leave_the_pose_unchanged() {
    let start = OrbitCamera { cam_yaw: -42, ..OrbitCamera::default() };
    let still = [
        None,
        Some(CameraManipulation::Orbit(Motion { x: 0, y: 0 })),
        Some(CameraManipulation::Zoom(0)),
        Some(CameraManipulation::Pan(Motion { x: 0, y: 0 })),
        Some(CameraManipulation::Rotate(Motion { x: 0, y: 0 })),
    ];
    for m in still.iter() {
        let mut c = start;
        c.update(*m, SECOND);
        assert_eq!(c, start);
    }
}

#[test]
fn pan_and_rotate_move_nothing() {
    let start = OrbitCamera::default();
    let mut c = start;
    c.update(Some(CameraManipulation::Pan(Motion { x: 900, y: -900 })), SECOND);
    assert_eq!(c, start);
    c.update(Some(CameraManipulation::Rotate(Motion { x: 900, y: -900 })), SECOND);
    assert_eq!(c, start);
}

#[test]
fn driving_pitch_to_a_pole_stops_at_the_clamp() {
    let mut c = OrbitCamera::default();
    for _ in 0..50 {
        c.update(Some(CameraManipulation::Orbit(Motion { x: 0, y: 1_000_000 })), 100_000);
        assert!(c.cam_pitch > 0);
    }
    assert_eq!(c.cam_pitch, MIN_PITCH);
    for _ in 0..50 {
        c.update(Some(CameraManipulation::Orbit(Motion { x: 0, y: -1_000_000 })), 100_000);
        assert!(c.cam_pitch < 3_141_593);
    }
    assert_eq!(c.cam_pitch, MAX_PITCH);
}

#[test]
fn clamp_pose_brings_outside_values_back() {
    let mut c = OrbitCamera { cam_pitch: -5, cam_distance: 1_000_000_000, ..OrbitCamera::default() };
    c.clamp_pose();
    assert_eq!(c.cam_pitch, MIN_PITCH);
    assert_eq!(c.cam_distance, MAX_DISTANCE);
    let mut c = OrbitCamera { cam_pitch: 4_000_000, cam_distance: 0, ..OrbitCamera::default() };
    c.clamp_pose();
    assert_eq!(c.cam_pitch, MAX_PITCH);
    assert_eq!(c.cam_distance, MIN_DISTANCE);
}

#[test]
fn update_camera_places_light_only_with_a_camera() {
    let mut c = OrbitCamera {
        cam_entity: Some(7),
        light_entity: Some(9),
        cam_yaw: 100,
        cam_pitch: 0,
        ..OrbitCamera::default()
    };
    let p = c.update_camera();
    assert_eq!(
        p,
        PoseUpdate {
            yaw: 100,
            pitch: MIN_PITCH,
            distance: DEFAULT_DISTANCE,
            camera: Some(7),
            light: Some(9),
        }
    );
    let mut c = OrbitCamera { light_entity: Some(9), ..OrbitCamera::default() };
    let p = c.update_camera();
    assert_eq!(p.camera, None);
    assert_eq!(p.light, None);
}
