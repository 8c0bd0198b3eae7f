use astrid::camera::{
    pan_camera, CameraController, Vec2, MAX_ZOOM, MIN_ZOOM, ZOOM_ONE,
};

fn world_under_cursor(centered: i64, zoom: u64, cam: i64) -> i64 {
    centered * zoom as i64 + cam
}

#[test]
fn zoom_anchors_viewport_center_cursor() {
    let mut ctrl = CameraController::new();
    // Cursor at the center of an 800x600 viewport, one scroll line up.
    let cursor = Some(Vec2 { x: 400, y: 300 });
    let before = world_under_cursor(0, ctrl.state.zoom, ctrl.state.x);
    ctrl.zoom(10_000, cursor, 800, 600);
    assert_eq!(ctrl.state.zoom, 8_000);
    let after = world_under_cursor(0, ctrl.state.zoom, ctrl.state.x);
    // The world point under the cursor did not move at all.
    assert_eq!(before, after);
    assert_eq!((ctrl.state.x, ctrl.state.y), (0, 0));
}

#[test]
fn zoom_anchors_off_center_cursor_exactly() {
    let mut ctrl = CameraController::new();
    // Centered coordinates of screen (600, 200) in 800x600: (200, 100).
    let cursor = Some(Vec2 { x: 600, y: 200 });
    let before_x = world_under_cursor(200, ctrl.state.zoom, ctrl.state.x);
    let before_y = world_under_cursor(100, ctrl.state.zoom, ctrl.state.y);
    ctrl.zoom(10_000, cursor, 800, 600);
    assert_eq!(ctrl.state.zoom, 8_000);
    let after_x = world_under_cursor(200, ctrl.state.zoom, ctrl.state.x);
    let after_y = world_under_cursor(100, ctrl.state.zoom, ctrl.state.y);
    assert_eq!(before_x, after_x);
    assert_eq!(before_y, after_y);
    // The camera shifted by centered * (old - new) on each axis.
    assert_eq!(ctrl.state.x, 200 * 2_000);
    assert_eq!(ctrl.state.y, 100 * 2_000);
}

#[test]
fn zoom_scale_never_leaves_range() {
    let mut ctrl = CameraController::new();
    let cursor = Some(Vec2 { x: 123, y: 456 });
    // One enormous scroll pins the scale at the bottom of the range.
    ctrl.zoom(i64::MAX, cursor, 800, 600);
    assert_eq!(ctrl.state.zoom, MIN_ZOOM);
    // An enormous scroll the other way pins it at the top.
    ctrl.zoom(i64::MIN, cursor, 800, 600);
    assert_eq!(ctrl.state.zoom, MAX_ZOOM);
    // Repeated scrolls in either direction stay inside the range.
    for _ in 0..60 {
        ctrl.zoom(25_000, cursor, 800, 600);
        assert!(MIN_ZOOM <= ctrl.state.zoom && ctrl.state.zoom <= MAX_ZOOM);
    }
    assert_eq!(ctrl.state.zoom, MIN_ZOOM);
    for _ in 0..60 {
        ctrl.zoom(-25_000, cursor, 800, 600);
        assert!(MIN_ZOOM <= ctrl.state.zoom && ctrl.state.zoom <= MAX_ZOOM);
    }
    assert_eq!(ctrl.state.zoom, MAX_ZOOM);
}

#[test]
fn zoom_is_a_noop_without_cursor_or_scroll() {
    let mut ctrl = CameraController::new();
    ctrl.zoom(10_000, None, 800, 600);
    assert_eq!(ctrl.state.zoom, ZOOM_ONE);
    assert_eq!((ctrl.state.x, ctrl.state.y), (0, 0));
    ctrl.zoom(0, Some(Vec2 { x: 10, y: 10 }), 800, 600);
    assert_eq!(ctrl.state.zoom, ZOOM_ONE);
    assert_eq!((ctrl.state.x, ctrl.state.y), (0, 0));
}

#[test]
fn pan_formula_matches_flip_convention() {
    // Session at cursor (100, 100) with camera at the origin; the cursor
    // moves to (150, 100) at zoom 2.0: the camera lands at
    // (0, 0) - (50, 0) * 2.0, i.e. -100.0 world units in x.
    let cam = pan_camera(
        Vec2 { x: 100, y: 100 },
        Vec2 { x: 0, y: 0 },
        Vec2 { x: 150, y: 100 },
        20_000,
    );
    assert_eq!(cam.x, -1_000_000);
    assert_eq!(cam.y, 0);
    // A downward cursor move pans the camera up: the vertical axis flips.
    let cam = pan_camera(
        Vec2 { x: 100, y: 100 },
        Vec2 { x: 0, y: 0 },
        Vec2 { x: 100, y: 160 },
        20_000,
    );
    assert_eq!(cam.x, 0);
    assert_eq!(cam.y, 1_200_000);
}

#[test]
fn pan_gesture_moves_camera_from_fixed_start() {
    let mut ctrl = CameraController::new();
    ctrl.pan_start(true, Some(Vec2 { x: 100, y: 100 }));
    assert!(ctrl.pan.is_some());
    ctrl.pan_update(Some(Vec2 { x: 150, y: 100 }));
    assert_eq!(ctrl.state.x, -50 * ZOOM_ONE as i64);
    assert_eq!(ctrl.state.y, 0);
    // Updates measure from the session's start, not the previous frame.
    ctrl.pan_update(Some(Vec2 { x: 120, y: 90 }));
    assert_eq!(ctrl.state.x, -20 * ZOOM_ONE as i64);
    assert_eq!(ctrl.state.y, -10 * ZOOM_ONE as i64);
}

#[test]
fn release_removes_session_and_updates_stop() {
    let mut ctrl = CameraController::new();
    ctrl.pan_start(true, Some(Vec2 { x: 100, y: 100 }));
    ctrl.pan_update(Some(Vec2 { x: 150, y: 100 }));
    let parked = (ctrl.state.x, ctrl.state.y);
    ctrl.pan_end(true);
    assert!(ctrl.pan.is_none());
    // A subsequent update is a no-op: the gesture is over.
    ctrl.pan_update(Some(Vec2 { x: 900, y: 900 }));
    assert_eq!((ctrl.state.x, ctrl.state.y), parked);
}

#[test]
fn no_session_before_press_or_after_release() {
    let mut ctrl = CameraController::new();
    assert!(ctrl.pan.is_none());
    // Ticks without a press never create a session.
    for k in 0..5i64 {
        ctrl.tick(10_000, Some(Vec2 { x: k, y: k }), 800, 600, false, false);
        assert!(ctrl.pan.is_none());
    }
    // A press opens one; it survives press-free ticks; a release ends it.
    ctrl.tick(0, Some(Vec2 { x: 5, y: 5 }), 800, 600, true, false);
    assert!(ctrl.pan.is_some());
    ctrl.tick(0, Some(Vec2 { x: 9, y: 5 }), 800, 600, false, false);
    assert!(ctrl.pan.is_some());
    ctrl.tick(0, Some(Vec2 { x: 9, y: 5 }), 800, 600, false, true);
    assert!(ctrl.pan.is_none());
    // Press and release in one tick: the release still wins.
    ctrl.tick(0, Some(Vec2 { x: 2, y: 2 }), 800, 600, true, true);
    assert!(ctrl.pan.is_none());
}

#[test]
fn press_without_cursor_opens_no_session() {
    let mut ctrl = CameraController::new();
    ctrl.pan_start(true, None);
    assert!(ctrl.pan.is_none());
    ctrl.tick(0, None, 800, 600, true, false);
    assert!(ctrl.pan.is_none());
}

#[test]
fn fresh_controller_accepts_ticks() {
    let ctrl = CameraController::new();
    assert!(ctrl.accepts_tick());
    assert_eq!(ctrl.state.zoom, ZOOM_ONE);
    assert_eq!((ctrl.state.x, ctrl.state.y), (0, 0));
    assert!(ctrl.pan.is_none());
}
