//! The cursor-anchored camera controller: one 2D camera position and one
//! zoom scale, driven each tick by scroll input and a pointer-drag pan
//! gesture.
//!
//! All quantities are fixed-point integers. Zoom scales and camera
//! coordinates carry `ZOOM_ONE` steps per world unit, so a zoom of
//! `ZOOM_ONE` is `1.0` world units per screen pixel; cursor and viewport
//! coordinates are whole screen pixels. A screen pixel times a zoom scale
//! is then directly a fixed-point world length, and the cursor-anchoring
//! identity holds exactly, with no rounding anywhere in the position
//! arithmetic.

use vstd::prelude::*;
use vstd::arithmetic::div_mod::lemma_div_is_ordered;

verus! {

/// Fixed-point representation of the zoom scale `1.0`.
pub const ZOOM_ONE: u64 = 10_000;

/// `ZOOM_ONE * ZOOM_ONE`, the unit of the zoom update's intermediate
/// product.
pub const ZOOM_ONE_SQUARED: u64 = 100_000_000;

/// Smallest zoom scale: `0.01` world units per pixel (fully zoomed in).
pub const MIN_ZOOM: u64 = 100;

/// Largest zoom scale: `1.5` world units per pixel (fully zoomed out).
pub const MAX_ZOOM: u64 = 15_000;

/// Zoom sensitivity `0.2`: one scroll line rescales by `1 - 0.2` or
/// `1 + 0.2`.
pub const ZOOM_SENSITIVITY: u64 = 2_000;

/// Scroll input beyond this magnitude (a thousand full lines in
/// fixed-point) is already pinned to the nearest zoom bound, so the
/// controller saturates it before multiplying.
pub const SCROLL_SATURATION: i64 = 10_000_000;

/// Largest cursor or viewport coordinate the controller accepts, in
/// pixels.
pub const COORD_LIMIT: i64 = 1_000_000_000;

/// Largest camera coordinate at which a tick is accepted.
pub const POS_LIMIT: i64 = 1_000_000_000_000_000;

/// Camera coordinates stay below this margin between the steps of one
/// tick; every intermediate sum then fits the machine word.
pub const POS_MARGIN: i64 = 1_100_000_000_000_000;

/// Largest zoom scale the bare pan formula accepts (`100.0`).
pub const ZOOM_CAP: u64 = 1_000_000;

/// A pair of fixed-point coordinates: a cursor position in screen pixels,
/// or a camera position in fixed-point world units.
#[derive(Clone, Copy, PartialEq, Eq, Structural, Debug)]
pub struct Vec2 {
    pub x: i64,
    pub y: i64,
}

impl View for Vec2 {
    type V = (int, int);

    open spec fn view(&self) -> (int, int) {
        (self.x as int, self.y as int)
    }
}

/// Mathematical model of a [`CameraState`].
pub ghost struct CameraView {
    pub x: int,
    pub y: int,
    pub zoom: int,
}

/// Mathematical model of a [`PanSession`].
pub ghost struct PanView {
    pub cursor_x: int,
    pub cursor_y: int,
    pub cam_x: int,
    pub cam_y: int,
}

/// Mathematical model of a [`CameraController`].
pub ghost struct ControllerView {
    pub cam: CameraView,
    pub pan: Option<PanView>,
}

/// Mathematical model of one tick's input: the tick's aggregated scroll
/// delta, the pointer position if known, the viewport size, and the
/// edge-triggered press/release state of the pan button.
pub ghost struct InputView {
    pub scroll: int,
    pub cursor: Option<(int, int)>,
    pub viewport_w: int,
    pub viewport_h: int,
    pub pressed: bool,
    pub released: bool,
}

/// The camera's state: world-space position the view is centered on and
/// the zoom scale (world units per screen pixel, `ZOOM_ONE` = `1.0`).
#[derive(Clone, Copy, PartialEq, Eq, Structural, Debug)]
pub struct CameraState {
    pub x: i64,
    pub y: i64,
    pub zoom: u64,
}

impl View for CameraState {
    type V = CameraView;

    open spec fn view(&self) -> CameraView {
        CameraView { x: self.x as int, y: self.y as int, zoom: self.zoom as int }
    }
}

/// A pan gesture in progress: the cursor and camera positions captured
/// when the button went down. Updates move the camera relative to these
/// fixed start points, so per-frame rounding cannot accumulate.
#[derive(Clone, Copy, PartialEq, Eq, Structural, Debug)]
pub struct PanSession {
    pub start_cursor: Vec2,
    pub start_camera: Vec2,
}

impl View for PanSession {
    type V = PanView;

    open spec fn view(&self) -> PanView {
        PanView {
            cursor_x: self.start_cursor.x as int,
            cursor_y: self.start_cursor.y as int,
            cam_x: self.start_camera.x as int,
            cam_y: self.start_camera.y as int,
        }
    }
}

/// One camera plus its at-most-one pan session.
pub struct CameraController {
    pub state: CameraState,
    pub pan: Option<PanSession>,
}

impl View for CameraController {
    type V = ControllerView;

    open spec fn view(&self) -> ControllerView {
        ControllerView {
            cam: self.state@,
            pan: match self.pan {
                Some(p) => Some(p@),
                None => None,
            },
        }
    }
}

/// The cursor position a tick saw, as a mathematical value.
pub open spec fn cursor_view(c: Option<Vec2>) -> Option<(int, int)> {
    match c {
        Some(v) => Some((v.x as int, v.y as int)),
        None => None,
    }
}

/// One tick's input as a mathematical value.
pub open spec fn input_view(
    scroll: i64,
    cursor: Option<Vec2>,
    viewport_w: u64,
    viewport_h: u64,
    pressed: bool,
    released: bool,
) -> InputView {
    InputView {
        scroll: scroll as int,
        cursor: cursor_view(cursor),
        viewport_w: viewport_w as int,
        viewport_h: viewport_h as int,
        pressed,
        released,
    }
}

/// A zoom scale within the allowed range.
pub open spec fn zoom_in_range(zoom: int) -> bool {
    MIN_ZOOM <= zoom <= MAX_ZOOM
}

/// Both camera coordinates within `limit`.
pub open spec fn cam_within(cam: CameraView, limit: int) -> bool {
    -limit <= cam.x <= limit && -limit <= cam.y <= limit
}

/// A cursor position, if present, within the coordinate limit.
pub open spec fn cursor_ok(c: Option<(int, int)>) -> bool {
    match c {
        Some(p) => -COORD_LIMIT <= p.0 <= COORD_LIMIT && -COORD_LIMIT <= p.1 <= COORD_LIMIT,
        None => true,
    }
}

/// A pan session, if present, whose captured positions are within
/// `limit` and whose captured cursor is within the coordinate limit.
pub open spec fn pan_within(p: Option<PanView>, limit: int) -> bool {
    match p {
        Some(s) => -limit <= s.cam_x <= limit && -limit <= s.cam_y <= limit && -COORD_LIMIT
            <= s.cursor_x <= COORD_LIMIT && -COORD_LIMIT <= s.cursor_y <= COORD_LIMIT,
        None => true,
    }
}

/// A controller on which the next tick is accepted: zoom scale in range
/// and every stored coordinate within the tick's headroom.
pub open spec fn tick_ready(v: ControllerView) -> bool {
    zoom_in_range(v.cam.zoom) && cam_within(v.cam, POS_LIMIT as int) && pan_within(
        v.pan,
        POS_LIMIT as int,
    )
}

/// Clamps a zoom scale into `[MIN_ZOOM, MAX_ZOOM]`.
pub open spec fn clamp_zoom(z: int) -> int {
    if z < MIN_ZOOM {
        MIN_ZOOM as int
    } else if z > MAX_ZOOM {
        MAX_ZOOM as int
    } else {
        z
    }
}

/// The zoom scale after one tick's scroll input: the scale is rescaled by
/// `1 - scroll * sensitivity` (computed in `ZOOM_ONE_SQUARED` units, one
/// truncating division at the end) and clamped into range.
pub open spec fn next_zoom(zoom: int, scroll: int) -> int {
    let factor = ZOOM_ONE_SQUARED - scroll * ZOOM_SENSITIVITY;
    if factor <= 0 {
        MIN_ZOOM as int
    } else {
        clamp_zoom(zoom * factor / (ZOOM_ONE_SQUARED as int))
    }
}

/// A screen-space x coordinate shifted to viewport-centered coordinates.
pub open spec fn centered_x(cx: int, vw: int) -> int {
    cx - vw / 2
}

/// A screen-space y coordinate shifted to viewport-centered coordinates,
/// with the vertical axis flipped: screen-down becomes world-up.
pub open spec fn centered_y(cy: int, vh: int) -> int {
    vh / 2 - cy
}

/// The fixed-point world coordinate under a viewport-centered screen
/// coordinate `c`: `c * zoom + cam`.
pub open spec fn world_coord(c: int, zoom: int, cam: int) -> int {
    c * zoom + cam
}

/// One zoom step. No scroll or no known pointer position is a silent
/// no-op; otherwise the scale moves to [`next_zoom`], and when it
/// actually changed, the camera shifts so the world point under the
/// cursor stays fixed.
pub open spec fn zoom_spec(
    cam: CameraView,
    scroll: int,
    cursor: Option<(int, int)>,
    vw: int,
    vh: int,
) -> CameraView {
    match cursor {
        None => cam,
        Some(c) => {
            if scroll == 0 {
                cam
            } else {
                let nz = next_zoom(cam.zoom, scroll);
                if nz == cam.zoom {
                    cam
                } else {
                    CameraView {
                        x: cam.x + centered_x(c.0, vw) * (cam.zoom - nz),
                        y: cam.y + centered_y(c.1, vh) * (cam.zoom - nz),
                        zoom: nz,
                    }
                }
            }
        },
    }
}

/// One pan-start step: a press with a known pointer position opens a
/// session capturing the current cursor and camera; a press without one,
/// or no press, changes nothing.
pub open spec fn pan_start_spec(
    v: ControllerView,
    pressed: bool,
    cursor: Option<(int, int)>,
) -> ControllerView {
    if pressed {
        match cursor {
            Some(c) => ControllerView {
                pan: Some(
                    PanView { cursor_x: c.0, cursor_y: c.1, cam_x: v.cam.x, cam_y: v.cam.y },
                ),
                ..v
            },
            None => v,
        }
    } else {
        v
    }
}

/// One pan-update step: while a session exists and the pointer is known,
/// the camera moves to the session's start camera minus the cursor's
/// displacement (vertical axis flipped) scaled by the current zoom.
pub open spec fn pan_update_spec(v: ControllerView, cursor: Option<(int, int)>) -> ControllerView {
    match v.pan {
        Some(p) => match cursor {
            Some(c) => ControllerView {
                cam: CameraView {
                    x: p.cam_x - (c.0 - p.cursor_x) * v.cam.zoom,
                    y: p.cam_y + (c.1 - p.cursor_y) * v.cam.zoom,
                    zoom: v.cam.zoom,
                },
                ..v
            },
            None => v,
        },
        None => v,
    }
}

/// One pan-end step: a release destroys the session, whether or not the
/// pointer is known; no release changes nothing.
pub open spec fn pan_end_spec(v: ControllerView, released: bool) -> ControllerView {
    if released {
        ControllerView { pan: None, ..v }
    } else {
        v
    }
}

/// One full frame tick: zoom, pan-start, pan-update, pan-end, in the
/// host loop's fixed order.
pub open spec fn tick_spec(v: ControllerView, i: InputView) -> ControllerView {
    let v1 = ControllerView {
        cam: zoom_spec(v.cam, i.scroll, i.cursor, i.viewport_w, i.viewport_h),
        pan: v.pan,
    };
    let v2 = pan_start_spec(v1, i.pressed, i.cursor);
    let v3 = pan_update_spec(v2, i.cursor);
    pan_end_spec(v3, i.released)
}

/// The controller after a whole sequence of ticks, first input first.
pub open spec fn run_ticks(v: ControllerView, inputs: Seq<InputView>) -> ControllerView
    decreases inputs.len(),
{
    if inputs.len() == 0 {
        v
    } else {
        run_ticks(tick_spec(v, inputs[0]), inputs.drop_first())
    }
}

impl CameraController {
    /// A fresh camera: centered on the origin at zoom `1.0`, with no pan
    /// session.
    pub fn new() -> (c: CameraController)
        ensures
            c@.cam == (CameraView { x: 0, y: 0, zoom: ZOOM_ONE as int }),
            c@.pan is None,
            tick_ready(c@),
    {
        CameraController { state: CameraState { x: 0, y: 0, zoom: ZOOM_ONE }, pan: None }
    }

    /// Whether the next tick is accepted in this state.
    pub fn accepts_tick(&self) -> (r: bool)
        ensures
            r == tick_ready(self@),
    {
        let zoom_ok = MIN_ZOOM <= self.state.zoom && self.state.zoom <= MAX_ZOOM;
        let cam_ok = -POS_LIMIT <= self.state.x && self.state.x <= POS_LIMIT && -POS_LIMIT
            <= self.state.y && self.state.y <= POS_LIMIT;
        let pan_ok = match &self.pan {
            Some(p) => -POS_LIMIT <= p.start_camera.x && p.start_camera.x <= POS_LIMIT
                && -POS_LIMIT <= p.start_camera.y && p.start_camera.y <= POS_LIMIT && -COORD_LIMIT
                <= p.start_cursor.x && p.start_cursor.x <= COORD_LIMIT && -COORD_LIMIT
                <= p.start_cursor.y && p.start_cursor.y <= COORD_LIMIT,
            None => true,
        };
        zoom_ok && cam_ok && pan_ok
    }

    /// The zoom behavior for one tick: rescales toward the scroll input
    /// and shifts the camera so the world point under the cursor stays
    /// put. Absent pointer or zero scroll is a silent no-op.
    pub fn zoom(&mut self, scroll: i64, cursor: Option<Vec2>, viewport_w: u64, viewport_h: u64)
        requires
            zoom_in_range(old(self)@.cam.zoom),
            cam_within(old(self)@.cam, POS_MARGIN as int),
            cursor_ok(cursor_view(cursor)),
            viewport_w <= COORD_LIMIT,
            viewport_h <= COORD_LIMIT,
        ensures
            final(self)@.cam == zoom_spec(
                old(self)@.cam,
                scroll as int,
                cursor_view(cursor),
                viewport_w as int,
                viewport_h as int,
            ),
            final(self)@.pan == old(self)@.pan,
            zoom_in_range(final(self)@.cam.zoom),
    {
        proof {
            lemma_next_zoom_in_range(self@.cam.zoom, scroll as int);
        }
        if scroll == 0 {
            return;
        }
        let p = match cursor {
            None => {
                return;
            },
            Some(p) => p,
        };
        let sat: i64 = if scroll > SCROLL_SATURATION {
            SCROLL_SATURATION
        } else if scroll < -SCROLL_SATURATION {
            -SCROLL_SATURATION
        } else {
            scroll
        };
        let factor: i64 = (ZOOM_ONE_SQUARED as i64) - sat * (ZOOM_SENSITIVITY as i64);
        let new_zoom: u64 = if factor <= 0 {
            MIN_ZOOM
        } else {
            proof {
                assert(0 <= self.state.zoom as int * (factor as int) <= 400_000_000_000_000)
                    by (nonlinear_arith)
                    requires
                        0 <= self.state.zoom <= 15_000 && 0 < factor <= 20_100_000_000,
                ;
            }
            let prod: u64 = self.state.zoom * (factor as u64);
            let raw: u64 = prod / ZOOM_ONE_SQUARED;
            if raw < MIN_ZOOM {
                MIN_ZOOM
            } else if raw > MAX_ZOOM {
                MAX_ZOOM
            } else {
                raw
            }
        };
        proof {
            lemma_next_zoom_saturates(self@.cam.zoom, scroll as int, sat as int);
        }
        if new_zoom != self.state.zoom {
            let half_w: i64 = (viewport_w / 2) as i64;
            let half_h: i64 = (viewport_h / 2) as i64;
            let cx: i64 = p.x - half_w;
            let cy: i64 = half_h - p.y;
            let diff: i64 = (self.state.zoom as i64) - (new_zoom as i64);
            proof {
                assert(-25_000_000_000_000 <= cx as int * diff <= 25_000_000_000_000)
                    by (nonlinear_arith)
                    requires
                        -1_500_000_000 <= cx <= 1_500_000_000 && -15_000 <= diff <= 15_000,
                ;
                assert(-25_000_000_000_000 <= cy as int * diff <= 25_000_000_000_000)
                    by (nonlinear_arith)
                    requires
                        -1_500_000_000 <= cy <= 1_500_000_000 && -15_000 <= diff <= 15_000,
                ;
            }
            self.state.x = self.state.x + cx * diff;
            self.state.y = self.state.y + cy * diff;
            self.state.zoom = new_zoom;
        }
    }

    /// The pan-start behavior for one tick: on a press with a known
    /// pointer position, opens (or replaces) the pan session.
    pub fn pan_start(&mut self, pressed: bool, cursor: Option<Vec2>)
        ensures
            final(self)@ == pan_start_spec(old(self)@, pressed, cursor_view(cursor)),
    {
        if pressed {
            if let Some(c) = cursor {
                self.pan = Some(
                    PanSession {
                        start_cursor: c,
                        start_camera: Vec2 { x: self.state.x, y: self.state.y },
                    },
                );
            }
        }
    }

    /// The pan-update behavior for one tick: while a session exists and
    /// the pointer is known, repositions the camera from the session's
    /// fixed start points.
    pub fn pan_update(&mut self, cursor: Option<Vec2>)
        requires
            zoom_in_range(old(self)@.cam.zoom),
            pan_within(old(self)@.pan, POS_MARGIN as int),
            cursor_ok(cursor_view(cursor)),
        ensures
            final(self)@ == pan_update_spec(old(self)@, cursor_view(cursor)),
    {
        if let Some(session) = self.pan {
            if let Some(c) = cursor {
                let cam = pan_camera(
                    session.start_cursor,
                    session.start_camera,
                    c,
                    self.state.zoom,
                );
                self.state.x = cam.x;
                self.state.y = cam.y;
            }
        }
    }

    /// The pan-end behavior for one tick: a release destroys the session.
    pub fn pan_end(&mut self, released: bool)
        ensures
            final(self)@ == pan_end_spec(old(self)@, released),
    {
        if released {
            self.pan = None;
        }
    }

    /// One full frame tick: zoom, pan-start, pan-update and pan-end in
    /// the host loop's fixed order.
    pub fn tick(
        &mut self,
        scroll: i64,
        cursor: Option<Vec2>,
        viewport_w: u64,
        viewport_h: u64,
        pressed: bool,
        released: bool,
    )
        requires
            tick_ready(old(self)@),
            cursor_ok(cursor_view(cursor)),
            viewport_w <= COORD_LIMIT,
            viewport_h <= COORD_LIMIT,
        ensures
            final(self)@ == tick_spec(
                old(self)@,
                input_view(scroll, cursor, viewport_w, viewport_h, pressed, released),
            ),
            zoom_in_range(final(self)@.cam.zoom),
    {
        proof {
            lemma_zoom_spec_bounded(
                self@.cam,
                scroll as int,
                cursor_view(cursor),
                viewport_w as int,
                viewport_h as int,
            );
        }
        self.zoom(scroll, cursor, viewport_w, viewport_h);
        self.pan_start(pressed, cursor);
        self.pan_update(cursor);
        self.pan_end(released);
    }
}

/// The pan formula by itself: the camera that a pan gesture puts under
/// the cursor's displacement. `cam = start_camera - flip(current -
/// start_cursor) * zoom`, where `flip` negates the vertical component.
pub fn pan_camera(start_cursor: Vec2, start_camera: Vec2, current_cursor: Vec2, zoom: u64) -> (cam:
    Vec2)
    requires
        -COORD_LIMIT <= start_cursor.x <= COORD_LIMIT,
        -COORD_LIMIT <= start_cursor.y <= COORD_LIMIT,
        -COORD_LIMIT <= current_cursor.x <= COORD_LIMIT,
        -COORD_LIMIT <= current_cursor.y <= COORD_LIMIT,
        -POS_MARGIN <= start_camera.x <= POS_MARGIN,
        -POS_MARGIN <= start_camera.y <= POS_MARGIN,
        zoom <= ZOOM_CAP,
    ensures
        cam.x == start_camera.x - (current_cursor.x - start_cursor.x) * zoom,
        cam.y == start_camera.y + (current_cursor.y - start_cursor.y) * zoom,
{
    let dx: i64 = current_cursor.x - start_cursor.x;
    let dy: i64 = current_cursor.y - start_cursor.y;
    proof {
        assert(-2_000_000_000_000_000 <= dx as int * zoom <= 2_000_000_000_000_000)
            by (nonlinear_arith)
            requires
                -2_000_000_000 <= dx <= 2_000_000_000 && 0 <= zoom <= 1_000_000,
        ;
        assert(-2_000_000_000_000_000 <= dy as int * zoom <= 2_000_000_000_000_000)
            by (nonlinear_arith)
            requires
                -2_000_000_000 <= dy <= 2_000_000_000 && 0 <= zoom <= 1_000_000,
        ;
    }
    let scaled_x: i64 = dx * (zoom as i64);
    let scaled_y: i64 = dy * (zoom as i64);
    Vec2 { x: start_camera.x - scaled_x, y: start_camera.y + scaled_y }
}

/// The zoom scale after any scroll input lies within
/// `[MIN_ZOOM, MAX_ZOOM]`.
pub proof fn lemma_next_zoom_in_range(zoom: int, scroll: int)
    ensures
        zoom_in_range(next_zoom(zoom, scroll)),
{
}

/// Saturating the scroll input does not change the zoom step: beyond the
/// saturation point the scale is pinned at the nearest bound either way.
proof fn lemma_next_zoom_saturates(zoom: int, scroll: int, sat: int)
    requires
        zoom_in_range(zoom),
        sat == (if scroll > SCROLL_SATURATION {
            SCROLL_SATURATION as int
        } else if scroll < -SCROLL_SATURATION {
            -(SCROLL_SATURATION as int)
        } else {
            scroll
        }),
    ensures
        next_zoom(zoom, sat) == next_zoom(zoom, scroll),
{
    if scroll > SCROLL_SATURATION {
        assert(scroll * ZOOM_SENSITIVITY >= SCROLL_SATURATION as int * ZOOM_SENSITIVITY)
            by (nonlinear_arith)
            requires
                scroll >= SCROLL_SATURATION as int && ZOOM_SENSITIVITY as int > 0,
        ;
    } else if scroll < -SCROLL_SATURATION {
        let factor = ZOOM_ONE_SQUARED - scroll * ZOOM_SENSITIVITY;
        let factor_sat = ZOOM_ONE_SQUARED - sat * ZOOM_SENSITIVITY;
        assert(scroll * ZOOM_SENSITIVITY <= (-(SCROLL_SATURATION as int)) * ZOOM_SENSITIVITY)
            by (nonlinear_arith)
            requires
                scroll <= -(SCROLL_SATURATION as int) && ZOOM_SENSITIVITY as int > 0,
        ;
        lemma_big_factor_pins_max(zoom, factor);
        lemma_big_factor_pins_max(zoom, factor_sat);
    }
}

/// With the scale at least `MIN_ZOOM`, any rescaling factor of at least
/// two hundred units pins the next scale at `MAX_ZOOM`.
proof fn lemma_big_factor_pins_max(zoom: int, factor: int)
    requires
        zoom_in_range(zoom),
        factor >= 20_000_000_000,
    ensures
        clamp_zoom(zoom * factor / (ZOOM_ONE_SQUARED as int)) == MAX_ZOOM,
{
    assert(zoom * factor >= 2_000_000_000_000) by (nonlinear_arith)
        requires
            zoom >= 100 && factor >= 20_000_000_000,
    ;
    lemma_div_is_ordered(2_000_000_000_000, zoom * factor, ZOOM_ONE_SQUARED as int);
    assert(2_000_000_000_000int / (ZOOM_ONE_SQUARED as int) == 20_000);
}

/// One zoom step on a camera within the tick's position limit stays
/// within the tick's position margin, and its scale stays in range.
pub proof fn lemma_zoom_spec_bounded(
    cam: CameraView,
    scroll: int,
    cursor: Option<(int, int)>,
    vw: int,
    vh: int,
)
    requires
        zoom_in_range(cam.zoom),
        cam_within(cam, POS_LIMIT as int),
        cursor_ok(cursor),
        0 <= vw <= COORD_LIMIT,
        0 <= vh <= COORD_LIMIT,
    ensures
        cam_within(zoom_spec(cam, scroll, cursor, vw, vh), POS_MARGIN as int),
        zoom_in_range(zoom_spec(cam, scroll, cursor, vw, vh).zoom),
{
    lemma_next_zoom_in_range(cam.zoom, scroll);
    match cursor {
        None => {},
        Some(c) => {
            if scroll != 0 {
                let nz = next_zoom(cam.zoom, scroll);
                if nz != cam.zoom {
                    let sx = centered_x(c.0, vw);
                    let sy = centered_y(c.1, vh);
                    assert(0 <= vw / 2 <= COORD_LIMIT);
                    assert(-25_000_000_000_000 <= sx * (cam.zoom - nz) <= 25_000_000_000_000)
                        by (nonlinear_arith)
                        requires
                            -1_500_000_000 <= sx <= 1_500_000_000 && -15_000 <= cam.zoom - nz
                                <= 15_000,
                    ;
                    assert(-25_000_000_000_000 <= sy * (cam.zoom - nz) <= 25_000_000_000_000)
                        by (nonlinear_arith)
                        requires
                            -1_500_000_000 <= sy <= 1_500_000_000 && -15_000 <= cam.zoom - nz
                                <= 15_000,
                    ;
                }
            }
        },
    }
}

/// Cursor anchoring: whatever a tick's scroll input does to the scale,
/// the world point under the cursor is the same before and after the
/// zoom step, exactly.
pub proof fn lemma_zoom_anchors_cursor(
    cam: CameraView,
    scroll: int,
    cx: int,
    cy: int,
    vw: int,
    vh: int,
)
    ensures
        world_coord(
            centered_x(cx, vw),
            zoom_spec(cam, scroll, Some((cx, cy)), vw, vh).zoom,
            zoom_spec(cam, scroll, Some((cx, cy)), vw, vh).x,
        ) == world_coord(centered_x(cx, vw), cam.zoom, cam.x),
        world_coord(
            centered_y(cy, vh),
            zoom_spec(cam, scroll, Some((cx, cy)), vw, vh).zoom,
            zoom_spec(cam, scroll, Some((cx, cy)), vw, vh).y,
        ) == world_coord(centered_y(cy, vh), cam.zoom, cam.y),
{
    let nz = next_zoom(cam.zoom, scroll);
    let sx = centered_x(cx, vw);
    let sy = centered_y(cy, vh);
    assert(sx * nz + (cam.x + sx * (cam.zoom - nz)) == sx * cam.zoom + cam.x) by (nonlinear_arith);
    assert(sy * nz + (cam.y + sy * (cam.zoom - nz)) == sy * cam.zoom + cam.y) by (nonlinear_arith);
}

/// The zoom scale never leaves `[MIN_ZOOM, MAX_ZOOM]`, however large or
/// repeated the scroll input: any sequence of ticks preserves the range.
pub proof fn lemma_ticks_keep_zoom_in_range(v: ControllerView, inputs: Seq<InputView>)
    requires
        zoom_in_range(v.cam.zoom),
    ensures
        zoom_in_range(run_ticks(v, inputs).cam.zoom),
    decreases inputs.len(),
{
    if inputs.len() > 0 {
        lemma_tick_keeps_zoom_in_range(v, inputs[0]);
        lemma_ticks_keep_zoom_in_range(tick_spec(v, inputs[0]), inputs.drop_first());
    }
}

/// One tick preserves the zoom range: the zoom step clamps, and the pan
/// steps never touch the scale.
pub proof fn lemma_tick_keeps_zoom_in_range(v: ControllerView, i: InputView)
    requires
        zoom_in_range(v.cam.zoom),
    ensures
        zoom_in_range(tick_spec(v, i).cam.zoom),
{
    lemma_next_zoom_in_range(v.cam.zoom, i.scroll);
}

/// No pan session without a press: a controller with no session keeps
/// none through any sequence of ticks in which the button never goes
/// down.
pub proof fn lemma_no_session_without_press(v: ControllerView, inputs: Seq<InputView>)
    requires
        v.pan is None,
        forall|k: int| 0 <= k < inputs.len() ==> !(#[trigger] inputs[k]).pressed,
    ensures
        run_ticks(v, inputs).pan is None,
    decreases inputs.len(),
{
    if inputs.len() > 0 {
        assert(!inputs[0].pressed);
        lemma_no_session_without_press(tick_spec(v, inputs[0]), inputs.drop_first());
    }
}

/// No pan session survives a release: after any tick whose input has the
/// button going up, no session exists, whatever else the tick did.
pub proof fn lemma_release_ends_session(v: ControllerView, i: InputView)
    requires
        i.released,
    ensures
        tick_spec(v, i).pan is None,
{
}

} // verus!
