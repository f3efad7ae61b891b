//! Gesture interpreter: turns one tick's touch events and rotation-gesture
//! events into an update of the camera transform.
//!
//! Per touch event, in arrival order: a `Started` phase clears the
//! last-position memory; if the memory holds a previous position, the camera
//! translates along x/z by the screen delta normalized to the window size and
//! scaled by [`crate::fixed::DRAG_SCALE`], and is re-aimed at the world
//! origin (which zeroes its roll); the event's position then becomes the new
//! memory, whatever the phase. Afterwards, per rotation gesture, the camera
//! rolls about its forward axis by the gesture's angle delta divided by
//! [`crate::fixed::ROTATION_DAMPING`].
//!
//! With no primary window this tick, the whole pass is a no-op. A drag that
//! would land the camera exactly on its look target is skipped as
//! degenerate: see [`touch_step`].

use vstd::prelude::*;
use crate::fixed::{
    div_trunc, div_trunc_i128, lemma_div_trunc_bound, DRAG_SCALE, MAX_CAMERA, MAX_COORD, MAX_STEP,
    ROTATION_DAMPING,
};
use vstd::arithmetic::div_mod::lemma_div_of0;

verus! {

/// Lifecycle stage of a single touch contact.
#[derive(Clone, Copy, Debug, PartialEq, Eq, Structural)]
pub enum TouchPhase {
    Started,
    Moved,
    Ended,
    Canceled,
}

/// A 2D screen position in fixed-point pixels, origin top-left.
#[derive(Clone, Copy, Debug, PartialEq, Eq, Structural)]
pub struct Pos2 {
    pub x: i64,
    pub y: i64,
}

/// One touch event, as the platform input layer reports it.
#[derive(Clone, Copy, Debug, PartialEq, Eq, Structural)]
pub struct TouchEvent {
    pub phase: TouchPhase,
    pub position: Pos2,
    /// Identifier of the touch contact; carried through, never inspected.
    pub id: u64,
}

/// A two-finger rotation gesture: the signed angle turned since the last
/// sample, in fixed-point angle units.
#[derive(Clone, Copy, Debug, PartialEq, Eq, Structural)]
pub struct RotationGesture {
    pub angle_delta: i64,
}

/// The primary window's dimensions in fixed-point pixels.
#[derive(Clone, Copy, Debug, PartialEq, Eq, Structural)]
pub struct WindowSize {
    pub width: i64,
    pub height: i64,
}

/// The camera transform as this component sees it: a translation in
/// fixed-point world units, and a roll about the forward axis, measured from
/// the pose that looks at the world origin with world-up as up.
#[derive(Clone, Copy, Debug, PartialEq, Eq, Structural)]
pub struct Camera {
    pub x: i128,
    pub y: i128,
    pub z: i128,
    pub roll: i128,
}

/// The mathematical value of a [`Camera`].
pub struct CameraModel {
    pub x: int,
    pub y: int,
    pub z: int,
    pub roll: int,
}

impl View for Camera {
    type V = CameraModel;

    open spec fn view(&self) -> CameraModel {
        CameraModel { x: self.x as int, y: self.y as int, z: self.z as int, roll: self.roll as int }
    }
}

/// The gesture interpreter's memory across ticks: the last touch position
/// seen since the most recent `Started` phase, if any.
#[derive(Clone, Copy, Debug)]
pub struct GestureState {
    pub last_position: Option<Pos2>,
}

impl Pos2 {
    pub open spec fn wf(self) -> bool {
        &&& -MAX_COORD <= self.x <= MAX_COORD
        &&& -MAX_COORD <= self.y <= MAX_COORD
    }
}

impl TouchEvent {
    pub open spec fn wf(self) -> bool {
        self.position.wf()
    }
}

impl RotationGesture {
    pub open spec fn wf(self) -> bool {
        -MAX_COORD <= self.angle_delta <= MAX_COORD
    }
}

impl WindowSize {
    pub open spec fn wf(self) -> bool {
        &&& 1 <= self.width <= MAX_COORD
        &&& 1 <= self.height <= MAX_COORD
    }
}

impl CameraModel {
    pub open spec fn in_bounds(self) -> bool {
        &&& -(MAX_CAMERA as int) <= self.x <= MAX_CAMERA as int
        &&& -(MAX_CAMERA as int) <= self.y <= MAX_CAMERA as int
        &&& -(MAX_CAMERA as int) <= self.z <= MAX_CAMERA as int
        &&& -(MAX_CAMERA as int) <= self.roll <= MAX_CAMERA as int
    }
}

impl GestureState {
    pub open spec fn wf(self) -> bool {
        self.last_position matches Some(p) ==> p.wf()
    }

    /// A fresh interpreter: no touch seen yet.
    pub fn new() -> (state: GestureState)
        ensures
            state.last_position is None,
            state.wf(),
    {
        GestureState { last_position: None }
    }
}

impl Camera {
    /// The demo camera's starting pose: at (-2, 2.5, 5) in world units,
    /// looking at the origin.
    pub fn initial() -> (camera: Camera)
        ensures
            camera@ == (CameraModel { x: -2000, y: 2500, z: 5000, roll: 0 }),
            camera@.in_bounds(),
    {
        Camera { x: -2000, y: 2500, z: 5000, roll: 0 }
    }
}

/// The world-space displacement a screen delta of `diff` causes along one
/// axis, for a window dimension of `span`: `diff / span` scaled by
/// `DRAG_SCALE`, truncated toward zero.
pub open spec fn drag_delta(diff: int, span: int) -> int
    recommends
        1 <= span,
{
    div_trunc(diff * DRAG_SCALE, span)
}

/// One touch event's effect on the camera and the last-position memory.
///
/// A drag whose target translation is exactly the look target (the world
/// origin) is skipped: re-aiming from there has no defined direction, so the
/// transform is left unchanged. The memory is updated whatever happens.
pub open spec fn touch_step(
    cam: CameraModel,
    last: Option<Pos2>,
    ev: TouchEvent,
    win: WindowSize,
) -> (CameraModel, Option<Pos2>) {
    let base = if ev.phase is Started {
        Option::<Pos2>::None
    } else {
        last
    };
    let moved = match base {
        Some(p) => {
            let target = CameraModel {
                x: cam.x + drag_delta(ev.position.x - p.x, win.width as int),
                y: cam.y,
                z: cam.z + drag_delta(ev.position.y - p.y, win.height as int),
                roll: 0,
            };
            if target.x == 0 && target.y == 0 && target.z == 0 {
                cam
            } else {
                target
            }
        },
        None => cam,
    };
    (moved, Some(ev.position))
}

/// The camera and last-position memory after one tick's touch events, in
/// arrival order.
pub open spec fn touch_fold(
    cam: CameraModel,
    last: Option<Pos2>,
    events: Seq<TouchEvent>,
    win: WindowSize,
) -> (CameraModel, Option<Pos2>)
    decreases events.len(),
{
    if events.len() == 0 {
        (cam, last)
    } else {
        let prev = touch_fold(cam, last, events.drop_last(), win);
        touch_step(prev.0, prev.1, events.last(), win)
    }
}

/// One rotation gesture's effect on the camera's roll.
pub open spec fn rot_step(roll: int, gesture: RotationGesture) -> int {
    roll + div_trunc(gesture.angle_delta as int, ROTATION_DAMPING as int)
}

/// The camera's roll after one tick's rotation gestures, in arrival order.
pub open spec fn rot_fold(roll: int, gestures: Seq<RotationGesture>) -> int
    decreases gestures.len(),
{
    if gestures.len() == 0 {
        roll
    } else {
        rot_step(rot_fold(roll, gestures.drop_last()), gestures.last())
    }
}

/// The world-space displacement for a drag from screen coordinate `prev` to
/// `curr` across a window dimension of `span`.
fn drag_component(curr: i64, prev: i64, span: i64) -> (d: i128)
    requires
        1 <= span <= MAX_COORD,
        -MAX_COORD <= curr <= MAX_COORD,
        -MAX_COORD <= prev <= MAX_COORD,
    ensures
        d == drag_delta(curr - prev, span as int),
        -MAX_STEP <= d <= MAX_STEP,
{
    let diff: i128 = curr as i128 - prev as i128;
    proof {
        assert(-10_000_000_000_000 <= diff * (DRAG_SCALE as i128) <= 10_000_000_000_000)
            by (nonlinear_arith)
            requires
                -2_000_000_000 <= diff <= 2_000_000_000,
                DRAG_SCALE as i128 == 5000,
        ;
    }
    let num: i128 = diff * (DRAG_SCALE as i128);
    proof {
        lemma_div_trunc_bound(num as int, span as int);
    }
    div_trunc_i128(num, span as i128)
}

/// A rotation gesture's angle delta after damping.
fn damped_angle(delta: i64) -> (d: i128)
    requires
        -MAX_COORD <= delta <= MAX_COORD,
    ensures
        d == div_trunc(delta as int, ROTATION_DAMPING as int),
        -MAX_STEP <= d <= MAX_STEP,
{
    proof {
        lemma_div_trunc_bound(delta as int, ROTATION_DAMPING as int);
    }
    div_trunc_i128(delta as i128, ROTATION_DAMPING as i128)
}

/// The touch pass: drains the tick's touch events in arrival order,
/// translating the camera and updating the last-position memory.
fn process_touches(
    camera: &mut Camera,
    state: &mut GestureState,
    touches: &Vec<TouchEvent>,
    win: &WindowSize,
)
    requires
        old(camera)@.in_bounds(),
        old(state).wf(),
        win.wf(),
        forall|i: int| 0 <= i < touches@.len() ==> touches@[i].wf(),
    ensures
        final(camera)@ == touch_fold(old(camera)@, old(state).last_position, touches@, *win).0,
        final(state).last_position == touch_fold(
            old(camera)@,
            old(state).last_position,
            touches@,
            *win,
        ).1,
        final(state).wf(),
        final(camera)@.roll == old(camera)@.roll || final(camera)@.roll == 0,
{
    let mut i: usize = 0;
    while i < touches.len()
        invariant
            i <= touches.len(),
            win.wf(),
            forall|j: int| 0 <= j < touches@.len() ==> touches@[j].wf(),
            state.wf(),
            camera@ == touch_fold(
                old(camera)@,
                old(state).last_position,
                touches@.take(i as int),
                *win,
            ).0,
            state.last_position == touch_fold(
                old(camera)@,
                old(state).last_position,
                touches@.take(i as int),
                *win,
            ).1,
            camera@.roll == old(camera)@.roll || camera@.roll == 0,
            -(MAX_CAMERA as int) <= old(camera)@.x <= MAX_CAMERA as int,
            -(MAX_CAMERA as int) <= old(camera)@.y <= MAX_CAMERA as int,
            -(MAX_CAMERA as int) <= old(camera)@.z <= MAX_CAMERA as int,
            -(MAX_CAMERA as int) <= old(camera)@.roll <= MAX_CAMERA as int,
            camera@.y == old(camera)@.y,
            -(MAX_CAMERA as int) - (i as int) * (MAX_STEP as int) <= camera@.x,
            camera@.x <= MAX_CAMERA as int + (i as int) * (MAX_STEP as int),
            -(MAX_CAMERA as int) - (i as int) * (MAX_STEP as int) <= camera@.z,
            camera@.z <= MAX_CAMERA as int + (i as int) * (MAX_STEP as int),
        decreases touches.len() - i,
    {
        let ev = touches[i];
        if ev.phase == TouchPhase::Started {
            state.last_position = None;
        }
        match state.last_position {
            Some(p) => {
                let dx = drag_component(ev.position.x, p.x, win.width);
                let dz = drag_component(ev.position.y, p.y, win.height);
                let nx = camera.x + dx;
                let nz = camera.z + dz;
                if nx == 0 && camera.y == 0 && nz == 0 {
                    // The camera would sit on its look target and the
                    // re-aim would have no defined direction: fail safe and
                    // leave the transform unchanged.
                } else {
                    camera.x = nx;
                    camera.z = nz;
                    camera.roll = 0;
                }
            },
            None => {},
        }
        state.last_position = Some(ev.position);
        proof {
            assert(touches@.take(i as int + 1).drop_last() =~= touches@.take(i as int));
            assert(touches@.take(i as int + 1).last() == touches@[i as int]);
        }
        i = i + 1;
    }
    proof {
        assert(touches@.take(touches@.len() as int) =~= touches@);
    }
}

/// The rotation pass: rolls the camera about its forward axis by each
/// gesture's damped angle, in arrival order.
fn process_rotations(camera: &mut Camera, rotations: &Vec<RotationGesture>)
    requires
        -(MAX_CAMERA as int) <= old(camera)@.roll <= MAX_CAMERA as int,
        forall|i: int| 0 <= i < rotations@.len() ==> rotations@[i].wf(),
    ensures
        final(camera)@.roll == rot_fold(old(camera)@.roll, rotations@),
        final(camera)@.x == old(camera)@.x,
        final(camera)@.y == old(camera)@.y,
        final(camera)@.z == old(camera)@.z,
{
    let mut i: usize = 0;
    while i < rotations.len()
        invariant
            i <= rotations.len(),
            forall|j: int| 0 <= j < rotations@.len() ==> rotations@[j].wf(),
            camera@.roll == rot_fold(old(camera)@.roll, rotations@.take(i as int)),
            camera@.x == old(camera)@.x,
            camera@.y == old(camera)@.y,
            camera@.z == old(camera)@.z,
            -(MAX_CAMERA as int) <= old(camera)@.roll <= MAX_CAMERA as int,
            -(MAX_CAMERA as int) - (i as int) * (MAX_STEP as int) <= camera@.roll,
            camera@.roll <= MAX_CAMERA as int + (i as int) * (MAX_STEP as int),
        decreases rotations.len() - i,
    {
        let da = damped_angle(rotations[i].angle_delta);
        camera.roll = camera.roll + da;
        proof {
            assert(rotations@.take(i as int + 1).drop_last() =~= rotations@.take(i as int));
            assert(rotations@.take(i as int + 1).last() == rotations@[i as int]);
        }
        i = i + 1;
    }
    proof {
        assert(rotations@.take(rotations@.len() as int) =~= rotations@);
    }
}

/// One tick of the gesture interpreter.
///
/// With no primary window this tick, nothing changes. Otherwise the touch
/// pass runs to completion, then the rotation pass reads the camera it left
/// behind (so a rotation applies to the post-translation forward axis).
pub fn gesture_tick(
    window: Option<WindowSize>,
    camera: &mut Camera,
    state: &mut GestureState,
    touches: &Vec<TouchEvent>,
    rotations: &Vec<RotationGesture>,
)
    requires
        old(camera)@.in_bounds(),
        old(state).wf(),
        (window matches Some(w) ==> w.wf()),
        forall|i: int| 0 <= i < touches@.len() ==> touches@[i].wf(),
        forall|i: int| 0 <= i < rotations@.len() ==> rotations@[i].wf(),
    ensures
        window is None ==> *final(camera) == *old(camera) && final(state).last_position == old(
            state,
        ).last_position,
        (window matches Some(w) ==> ({
            let folded = touch_fold(old(camera)@, old(state).last_position, touches@, w);
            &&& final(camera)@.x == folded.0.x
            &&& final(camera)@.y == folded.0.y
            &&& final(camera)@.z == folded.0.z
            &&& final(camera)@.roll == rot_fold(folded.0.roll, rotations@)
            &&& final(state).last_position == folded.1
        })),
        final(state).wf(),
{
    let win = match window {
        Some(w) => w,
        None => {
            return;
        },
    };
    process_touches(camera, state, touches, &win);
    process_rotations(camera, rotations);
}

/// The sum of the world-space x displacements of consecutive touch
/// positions, the drag path's total x movement.
pub open spec fn path_delta_x(events: Seq<TouchEvent>, win: WindowSize) -> int
    decreases events.len(),
{
    if events.len() <= 1 {
        0
    } else {
        path_delta_x(events.drop_last(), win) + drag_delta(
            events.last().position.x - events[events.len() - 2].position.x,
            win.width as int,
        )
    }
}

/// The sum of the world-space z displacements of consecutive touch
/// positions, the drag path's total z movement.
pub open spec fn path_delta_z(events: Seq<TouchEvent>, win: WindowSize) -> int
    decreases events.len(),
{
    if events.len() <= 1 {
        0
    } else {
        path_delta_z(events.drop_last(), win) + drag_delta(
            events.last().position.y - events[events.len() - 2].position.y,
            win.height as int,
        )
    }
}

/// Law: starting from cleared memory, a touch sequence with no `Started`
/// phase after its first event moves the camera by exactly the sum of the
/// per-step normalized deltas, applied in arrival order; y never moves, and
/// the memory ends at the last event's position.
///
/// The one proviso is that no step of the drag may land exactly on the look
/// target (the world origin): such a step is skipped as degenerate, and the
/// sum would overshoot it.
pub proof fn lemma_drag_accumulates(cam: CameraModel, events: Seq<TouchEvent>, win: WindowSize)
    requires
        events.len() >= 1,
        forall|i: int| 1 <= i < events.len() ==> !(events[i].phase is Started),
        forall|i: int|
            2 <= i <= events.len() ==> !(cam.x + path_delta_x(events.take(i), win) == 0 && cam.y
                == 0 && cam.z + path_delta_z(events.take(i), win) == 0),
    ensures
        ({
            let folded = touch_fold(cam, Option::<Pos2>::None, events, win);
            &&& folded.0.x == cam.x + path_delta_x(events, win)
            &&& folded.0.y == cam.y
            &&& folded.0.z == cam.z + path_delta_z(events, win)
            &&& folded.1 == Some(events.last().position)
        }),
    decreases events.len(),
{
    if events.len() == 1 {
        assert(events.drop_last() =~= Seq::<TouchEvent>::empty());
        assert(touch_fold(cam, Option::<Pos2>::None, Seq::<TouchEvent>::empty(), win) == (
        cam,
        Option::<Pos2>::None,
        ));
    } else {
        let prefix = events.drop_last();
        assert forall|i: int| 1 <= i < prefix.len() implies !(prefix[i].phase is Started) by {
            assert(prefix[i] == events[i]);
        }
        assert forall|i: int|
            2 <= i <= prefix.len() implies !(cam.x + path_delta_x(prefix.take(i), win) == 0
            && cam.y == 0 && cam.z + path_delta_z(prefix.take(i), win) == 0) by {
            assert(prefix.take(i) =~= events.take(i));
        }
        lemma_drag_accumulates(cam, prefix, win);
        assert(events.take(events.len() as int) =~= events);
        assert(!(cam.x + path_delta_x(events.take(events.len() as int), win) == 0 && cam.y == 0
            && cam.z + path_delta_z(events.take(events.len() as int), win) == 0));
        assert(!(events[events.len() - 1].phase is Started));
        assert(events.last() == events[events.len() - 1]);
        assert(prefix.last() == events[events.len() - 2]);
        let folded_prefix = touch_fold(cam, Option::<Pos2>::None, prefix, win);
        assert(touch_fold(cam, Option::<Pos2>::None, events, win) == touch_step(
            folded_prefix.0,
            folded_prefix.1,
            events.last(),
            win,
        ));
    }
}

/// Law: a `Started` event followed by a `Moved` event at the same position
/// produces zero displacement, whatever memory was left from before: the
/// `Started` resets the baseline, so no stale delta applies.
pub proof fn lemma_reset_then_same_position(
    cam: CameraModel,
    last: Option<Pos2>,
    press: TouchEvent,
    move_ev: TouchEvent,
    win: WindowSize,
)
    requires
        win.wf(),
        press.phase is Started,
        move_ev.phase is Moved,
        move_ev.position == press.position,
    ensures
        ({
            let folded = touch_fold(cam, last, seq![press, move_ev], win);
            &&& folded.0.x == cam.x
            &&& folded.0.y == cam.y
            &&& folded.0.z == cam.z
            &&& folded.1 == Some(move_ev.position)
        }),
{
    let events = seq![press, move_ev];
    let one = seq![press];
    assert(events.drop_last() =~= one);
    assert(one.drop_last() =~= Seq::<TouchEvent>::empty());
    assert(touch_fold(cam, last, Seq::<TouchEvent>::empty(), win) == (cam, last));
    let folded_one = touch_fold(cam, last, one, win);
    assert(folded_one == touch_step(cam, last, press, win));
    assert(folded_one.1 == Some(press.position));
    assert(touch_fold(cam, last, events, win) == touch_step(
        folded_one.0,
        folded_one.1,
        move_ev,
        win,
    ));
    lemma_div_of0(win.width as int);
    lemma_div_of0(win.height as int);
    assert(drag_delta(0, win.width as int) == 0);
    assert(drag_delta(0, win.height as int) == 0);
}

} // verus!
