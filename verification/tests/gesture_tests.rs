use mobile_demo::gesture::{
    Camera, GestureState, Pos2, RotationGesture, TouchEvent, TouchPhase, WindowSize,
};

fn win_1000() -> WindowSize {
    // 1000 x 1000 pixels at the fixed-point scale of 1000.
    WindowSize { width: 1_000_000, height: 1_000_000 }
}

fn touch(phase: TouchPhase, x: i64, y: i64) -> TouchEvent {
    TouchEvent { phase, position: Pos2 { x, y }, id: 0 }
}

#[test]
fn initial_camera_pose() {
    let cam = Camera::initial();
    assert_eq!(cam, Camera { x: -2000, y: 2500, z: 5000, roll: 0 });
}

#[test]
fn fresh_state_has_no_baseline() {
    let state = GestureState::new();
    assert_eq!(state.last_position, None);
}

#[test]
fn drag_moves_half_window_by_half_scale() {
    // Window 1000x1000, K = 5.0, touches (100,100) Started then (200,100)
    // Moved: dx = (200-100)/1000 * 5.0 = 0.5, dz = 0.
    let mut cam = Camera::initial();
    let mut state = GestureState::new();
    let touches = vec![
        touch(TouchPhase::Started, 100_000, 100_000),
        touch(TouchPhase::Moved, 200_000, 100_000),
    ];
    mobile_demo::gesture::gesture_tick(
        Some(win_1000()),
        &mut cam,
        &mut state,
        &touches,
        &vec![],
    );
    assert_eq!(cam.x, -2000 + 500);
    assert_eq!(cam.y, 2500);
    assert_eq!(cam.z, 5000);
    assert_eq!(state.last_position, Some(Pos2 { x: 200_000, y: 100_000 }));
}

#[test]
fn started_then_moved_at_same_position_is_zero_displacement() {
    // A stale baseline from an earlier tick must not leak past a Started.
    let mut cam = Camera::initial();
    let mut state = GestureState { last_position: Some(Pos2 { x: 900_000, y: 900_000 }) };
    let touches = vec![
        touch(TouchPhase::Started, 300_000, 400_000),
        touch(TouchPhase::Moved, 300_000, 400_000),
    ];
    mobile_demo::gesture::gesture_tick(
        Some(win_1000()),
        &mut cam,
        &mut state,
        &touches,
        &vec![],
    );
    assert_eq!((cam.x, cam.y, cam.z), (-2000, 2500, 5000));
    assert_eq!(state.last_position, Some(Pos2 { x: 300_000, y: 400_000 }));
}

#[test]
fn bare_started_event_moves_nothing() {
    let mut cam = Camera::initial();
    let mut state = GestureState::new();
    let touches = vec![touch(TouchPhase::Started, 123_000, 456_000)];
    mobile_demo::gesture::gesture_tick(
        Some(win_1000()),
        &mut cam,
        &mut state,
        &touches,
        &vec![],
    );
    assert_eq!((cam.x, cam.y, cam.z), (-2000, 2500, 5000));
    assert_eq!(state.last_position, Some(Pos2 { x: 123_000, y: 456_000 }));
}

#[test]
fn displacements_accumulate_in_order() {
    // Two drags of 100 px each along x, one of 200 px along y.
    let mut cam = Camera::initial();
    let mut state = GestureState::new();
    let touches = vec![
        touch(TouchPhase::Started, 0, 0),
        touch(TouchPhase::Moved, 100_000, 0),
        touch(TouchPhase::Moved, 200_000, 0),
        touch(TouchPhase::Moved, 200_000, 200_000),
    ];
    mobile_demo::gesture::gesture_tick(
        Some(win_1000()),
        &mut cam,
        &mut state,
        &touches,
        &vec![],
    );
    assert_eq!(cam.x, -2000 + 500 + 500);
    assert_eq!(cam.z, 5000 + 1000);
    assert_eq!(cam.y, 2500);
}

#[test]
fn started_mid_sequence_resets_the_baseline() {
    // The jump from (200,0) to (500,500) must not move the camera.
    let mut cam = Camera::initial();
    let mut state = GestureState::new();
    let touches = vec![
        touch(TouchPhase::Started, 0, 0),
        touch(TouchPhase::Moved, 100_000, 0),
        touch(TouchPhase::Started, 500_000, 500_000),
        touch(TouchPhase::Moved, 600_000, 500_000),
    ];
    mobile_demo::gesture::gesture_tick(
        Some(win_1000()),
        &mut cam,
        &mut state,
        &touches,
        &vec![],
    );
    assert_eq!(cam.x, -2000 + 500 + 500);
    assert_eq!(cam.z, 5000);
}

#[test]
fn ended_event_still_updates_and_moves() {
    // The phase only matters for Started: an Ended event with a baseline
    // still drags the camera and becomes the new baseline.
    let mut cam = Camera::initial();
    let mut state = GestureState::new();
    let touches = vec![
        touch(TouchPhase::Started, 0, 0),
        touch(TouchPhase::Ended, 100_000, 0),
    ];
    mobile_demo::gesture::gesture_tick(
        Some(win_1000()),
        &mut cam,
        &mut state,
        &touches,
        &vec![],
    );
    assert_eq!(cam.x, -2000 + 500);
    assert_eq!(state.last_position, Some(Pos2 { x: 100_000, y: 0 }));
}

#[test]
fn drag_truncates_toward_zero() {
    // 100.1 px over a 1000 px window: 0.5005 world units, truncated to 500
    // fixed-point steps; the same drag leftward truncates to -500.
    let mut cam = Camera { x: 0, y: 0, z: 0, roll: 0 };
    let mut state = GestureState::new();
    let touches = vec![
        touch(TouchPhase::Started, 0, 0),
        touch(TouchPhase::Moved, 100_100, 0),
    ];
    mobile_demo::gesture::gesture_tick(
        Some(win_1000()),
        &mut cam,
        &mut state,
        &touches,
        &vec![],
    );
    assert_eq!(cam.x, 500);

    let mut cam2 = Camera { x: 0, y: 0, z: 0, roll: 0 };
    let mut state2 = GestureState::new();
    let touches2 = vec![
        touch(TouchPhase::Started, 100_100, 0),
        touch(TouchPhase::Moved, 0, 0),
    ];
    mobile_demo::gesture::gesture_tick(
        Some(win_1000()),
        &mut cam2,
        &mut state2,
        &touches2,
        &vec![],
    );
    assert_eq!(cam2.x, -500);
}

#[test]
fn drag_resets_roll() {
    // Moving the camera re-aims it at the origin, which zeroes the roll.
    let mut cam = Camera { x: 0, y: 0, z: 0, roll: 7000 };
    let mut state = GestureState { last_position: Some(Pos2 { x: 0, y: 0 }) };
    let touches = vec![touch(TouchPhase::Moved, 100_000, 0)];
    mobile_demo::gesture::gesture_tick(
        Some(win_1000()),
        &mut cam,
        &mut state,
        &touches,
        &vec![],
    );
    assert_eq!(cam.roll, 0);
    assert_eq!(cam.x, 500);
}

#[test]
fn rotation_is_damped_by_ten() {
    // An angle delta of 30 rotates by 3; two such events rotate by 6.
    let mut cam = Camera::initial();
    let mut state = GestureState::new();
    let rotations = vec![RotationGesture { angle_delta: 30_000 }];
    mobile_demo::gesture::gesture_tick(
        Some(win_1000()),
        &mut cam,
        &mut state,
        &vec![],
        &rotations,
    );
    assert_eq!(cam.roll, 3000);

    let mut cam2 = Camera::initial();
    let mut state2 = GestureState::new();
    let rotations2 = vec![
        RotationGesture { angle_delta: 30_000 },
        RotationGesture { angle_delta: 30_000 },
    ];
    mobile_demo::gesture::gesture_tick(
        Some(win_1000()),
        &mut cam2,
        &mut state2,
        &vec![],
        &rotations2,
    );
    assert_eq!(cam2.roll, 6000);
}

#[test]
fn rotation_truncates_toward_zero() {
    let mut cam = Camera { x: 0, y: 0, z: 0, roll: 0 };
    let mut state = GestureState::new();
    let rotations = vec![
        RotationGesture { angle_delta: 35 },
        RotationGesture { angle_delta: -35 },
    ];
    mobile_demo::gesture::gesture_tick(
        Some(win_1000()),
        &mut cam,
        &mut state,
        &vec![],
        &rotations,
    );
    // 35/10 truncates to 3, -35/10 to -3: they cancel.
    assert_eq!(cam.roll, 0);
}

#[test]
fn rotation_applies_after_translation() {
    // The touch pass re-aims the camera (roll 0) before the rotations run.
    let mut cam = Camera { x: 0, y: 0, z: 0, roll: 9000 };
    let mut state = GestureState { last_position: Some(Pos2 { x: 0, y: 0 }) };
    let touches = vec![touch(TouchPhase::Moved, 100_000, 0)];
    let rotations = vec![RotationGesture { angle_delta: 30_000 }];
    mobile_demo::gesture::gesture_tick(
        Some(win_1000()),
        &mut cam,
        &mut state,
        &touches,
        &rotations,
    );
    assert_eq!(cam.roll, 3000);
}

#[test]
fn drag_onto_the_look_target_is_skipped() {
    // A drag that would land the camera exactly on the world origin has no
    // defined re-aim direction: the transform stays as it was, but the
    // baseline still advances, so the next drag works from the new position.
    let mut cam = Camera { x: 500, y: 0, z: 0, roll: 7000 };
    let mut state = GestureState::new();
    let touches = vec![
        touch(TouchPhase::Started, 600_000, 0),
        touch(TouchPhase::Moved, 500_000, 0),
        touch(TouchPhase::Moved, 700_000, 0),
    ];
    mobile_demo::gesture::gesture_tick(
        Some(win_1000()),
        &mut cam,
        &mut state,
        &touches,
        &vec![],
    );
    // Second event: target (0,0,0), skipped, roll kept. Third event: drags
    // +1.0 world units from the unchanged position.
    assert_eq!((cam.x, cam.y, cam.z), (500 + 1000, 0, 0));
    assert_eq!(cam.roll, 0);
    assert_eq!(state.last_position, Some(Pos2 { x: 700_000, y: 0 }));
}

#[test]
fn no_window_means_no_change() {
    let mut cam = Camera::initial();
    let mut state = GestureState { last_position: Some(Pos2 { x: 1000, y: 1000 }) };
    let touches = vec![
        touch(TouchPhase::Moved, 100_000, 0),
        touch(TouchPhase::Moved, 200_000, 0),
    ];
    let rotations = vec![RotationGesture { angle_delta: 30_000 }];
    mobile_demo::gesture::gesture_tick(None, &mut cam, &mut state, &touches, &rotations);
    assert_eq!(cam, Camera::initial());
    assert_eq!(state.last_position, Some(Pos2 { x: 1000, y: 1000 }));
}

#[test]
fn empty_tick_changes_nothing() {
    let mut cam = Camera::initial();
    let mut state = GestureState::new();
    mobile_demo::gesture::gesture_tick(
        Some(win_1000()),
        &mut cam,
        &mut state,
        &vec![],
        &vec![],
    );
    assert_eq!(cam, Camera::initial());
    assert_eq!(state.last_position, None);
}
