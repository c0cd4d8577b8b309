//! The per-tick synchronization step and the whole-tick pipeline.
//!
//! Once per simulation tick, after input processing, the current state
//! decides which way position flows: in `Static` the window's actual
//! inner position is written into the physics body, in `Bouncing` the
//! body's simulated center is commanded to the window, and in `Dragging`
//! neither side drives the other.
//!
//! The window position is the top-left corner of a Y-down frame while the
//! body transform is a center in the Y-up frame, so the half-size offset
//! between them is `(width / 2, -height / 2)`: the vertical component
//! carries the opposite sign because the outer size is measured downward.
//! In subunits that offset is exactly `(width, -height)`.

use vstd::prelude::*;

use crate::convert::{flip_y, pixels_of_subunits, subunits_of_pixels, CoordConverter};
use crate::geometry::{
    LogicalPoint, LogicalSize, PhysicsPoint, PhysicsVec, BODY_BOUND, MAX_POSITION,
};
use crate::state::{
    body_type_for, spec_body_type, spec_cursor_missing, spec_impulse, spec_next_state, transition,
    BodyType, InputEvent, WindowState,
};

verus! {

/// What the synchronization step tells the rest of the system to do this
/// tick: write a transform into the physics body, command the operating
/// system to move the window, or leave both alone mid-drag.
#[derive(Clone, Copy, Debug, PartialEq, Eq, Structural)]
pub enum SyncCommand {
    DriveBody(PhysicsPoint),
    MoveWindow(LogicalPoint),
    Hold,
}

/// Half the window's outer size as the physics-frame offset from the
/// window's top-left corner to the body's center: `(width / 2,
/// -height / 2)` in pixels, which the subunit representation carries
/// exactly as `(width, -height)`.
pub open spec fn spec_half_size_offset(c: CoordConverter, outer: LogicalSize) -> PhysicsVec {
    PhysicsVec { x: outer.width, y: (-outer.height) as i64 }
}

/// The body center that keeps the body glued to a window whose inner
/// top-left corner sits at `inner`: the converted corner plus the
/// half-size offset.
pub open spec fn spec_body_center_for_window(
    c: CoordConverter,
    outer: LogicalSize,
    inner: LogicalPoint,
) -> PhysicsPoint {
    PhysicsPoint {
        x: (subunits_of_pixels(inner.x as int) + spec_half_size_offset(c, outer).x) as i64,
        y: (subunits_of_pixels(flip_y(c.monitor_height as int, inner.y as int))
            + spec_half_size_offset(c, outer).y) as i64,
    }
}

/// The window top-left position owed to a body whose simulated center is
/// `center`: the center minus the half-size offset, converted back to the
/// window manager's frame.
pub open spec fn spec_window_position_for_body(
    c: CoordConverter,
    outer: LogicalSize,
    center: PhysicsPoint,
) -> LogicalPoint {
    LogicalPoint {
        x: pixels_of_subunits(center.x - spec_half_size_offset(c, outer).x) as i64,
        y: flip_y(
            c.monitor_height as int,
            pixels_of_subunits(center.y - spec_half_size_offset(c, outer).y),
        ) as i64,
    }
}

/// The synchronization decision for one tick: who drives whom, and to
/// where.
pub open spec fn spec_sync(
    c: CoordConverter,
    s: WindowState,
    outer: LogicalSize,
    inner: LogicalPoint,
    center: PhysicsPoint,
) -> SyncCommand {
    match s {
        WindowState::Static => SyncCommand::DriveBody(spec_body_center_for_window(c, outer, inner)),
        WindowState::Bouncing => SyncCommand::MoveWindow(
            spec_window_position_for_body(c, outer, center),
        ),
        WindowState::Dragging(_) => SyncCommand::Hold,
    }
}

/// Runs the synchronization step for one tick.
///
/// `outer` is the window's current outer size, `inner` the window's
/// actual inner top-left position as the window manager reports it, and
/// `center` the physics body's simulated center. In `Static` the window
/// is authoritative and the body is commanded to it; in `Bouncing` the
/// body is authoritative and the window is commanded to it; in `Dragging`
/// nothing moves.
pub fn synchronize(
    c: &CoordConverter,
    s: &WindowState,
    outer: LogicalSize,
    inner: LogicalPoint,
    center: PhysicsPoint,
) -> (r: SyncCommand)
    requires
        c.wf(),
        outer.in_range(),
        inner.within(MAX_POSITION),
        center.within(BODY_BOUND),
    ensures
        r == spec_sync(*c, *s, outer, inner, center),
        *s is Static ==> r == SyncCommand::DriveBody(spec_body_center_for_window(*c, outer, inner)),
        *s is Bouncing ==> r == SyncCommand::MoveWindow(
            spec_window_position_for_body(*c, outer, center),
        ),
        *s is Dragging ==> r == SyncCommand::Hold,
{
    match s {
        WindowState::Static => {
            let corner = c.to_physics_point(inner);
            SyncCommand::DriveBody(
                PhysicsPoint { x: corner.x + outer.width, y: corner.y - outer.height },
            )
        },
        WindowState::Bouncing => {
            let top_left = PhysicsPoint { x: center.x - outer.width, y: center.y + outer.height };
            SyncCommand::MoveWindow(c.to_logical_window_position(top_left))
        },
        WindowState::Dragging(_) => SyncCommand::Hold,
    }
}

/// Everything one tick decides, in pipeline order: the state after the
/// tick's input, the body-type switch owed if the state changed, the
/// launch impulse if a drag just ended, whether a gesture edge went
/// unreported, and the synchronization command under the new state.
#[derive(Clone, Copy, Debug, PartialEq, Eq, Structural)]
pub struct TickOutcome {
    pub state: WindowState,
    pub body_type: Option<BodyType>,
    pub impulse: Option<PhysicsVec>,
    pub cursor_missing: bool,
    pub sync: SyncCommand,
}

/// Runs one full tick of the core pipeline: the state machine on this
/// tick's input event, then the body-type switch (emitted only on an
/// actual state change, never by polling), then the synchronization step
/// under the resulting state.
pub fn tick(
    c: &CoordConverter,
    s: WindowState,
    event: Option<InputEvent>,
    outer: LogicalSize,
    inner: LogicalPoint,
    center: PhysicsPoint,
) -> (r: TickOutcome)
    requires
        c.wf(),
        s.wf(),
        event matches Some(e) ==> e.wf(),
        outer.in_range(),
        inner.within(MAX_POSITION),
        center.within(BODY_BOUND),
    ensures
        r.state == match event {
            Some(e) => spec_next_state(*c, s, e),
            None => s,
        },
        r.state.wf(),
        r.body_type == if r.state != s {
            Some(spec_body_type(r.state))
        } else {
            Option::<BodyType>::None
        },
        r.impulse == match event {
            Some(e) => spec_impulse(*c, s, e),
            None => Option::<PhysicsVec>::None,
        },
        r.cursor_missing == match event {
            Some(e) => spec_cursor_missing(s, e),
            None => false,
        },
        r.sync == spec_sync(*c, r.state, outer, inner, center),
{
    let (state, impulse, cursor_missing) = match event {
        Some(e) => {
            let t = transition(c, s, e);
            (t.state, t.impulse, t.cursor_missing)
        },
        None => (s, None, false),
    };
    let body_type = if state != s {
        Some(body_type_for(&state))
    } else {
        None
    };
    let sync = synchronize(c, &state, outer, inner, center);
    TickOutcome { state, body_type, impulse, cursor_missing, sync }
}

/// The two synchronization directions are mutual inverses: the body
/// center that `Static` mode writes for a window sitting at `inner` is
/// commanded back to exactly `inner` when `Bouncing` mode later reads
/// that same center — so handing authority from the window to the body
/// never jumps the window.
pub proof fn lemma_sync_directions_inverse(
    c: CoordConverter,
    outer: LogicalSize,
    inner: LogicalPoint,
)
    requires
        c.wf(),
        outer.in_range(),
        inner.within(MAX_POSITION),
    ensures
        spec_window_position_for_body(c, outer, spec_body_center_for_window(c, outer, inner))
            == inner,
{
}

} // verus!
