//! The window-interaction state machine.
//!
//! Exactly one of three modes holds at any time: `Static` (the window's
//! position is authoritative and the physics body follows it
//! kinematically), `Dragging` (mid-gesture, neither drives the other), or
//! `Bouncing` (the dynamic simulation is authoritative and the window
//! follows the body). Transitions are edge-triggered by discrete input
//! events, never by polling; the physics body type is switched only when
//! a transition actually changes the state.

use vstd::prelude::*;

use crate::convert::{flip_y, CoordConverter};
use crate::geometry::{LogicalPoint, PhysicsVec, CONVERT_BOUND, MAX_POSITION};
use crate::impulse::{launch_impulse, spec_launch_impulse};

verus! {

/// The interaction mode of the managed window. `Dragging` carries the
/// pointer position captured at gesture start, already flipped into the
/// Y-up logical frame.
#[derive(Clone, Copy, Debug, PartialEq, Eq, Structural)]
pub enum WindowState {
    Bouncing,
    Dragging(LogicalPoint),
    Static,
}

impl WindowState {
    /// A state the machine can actually reach: a stored drag origin is a
    /// reported pointer position after one flip, so it stays within the
    /// converter's accepted range.
    pub open spec fn wf(self) -> bool {
        match self {
            WindowState::Dragging(origin) => origin.within(CONVERT_BOUND),
            _ => true,
        }
    }
}

impl Default for WindowState {
    /// The initial state: the window rests wherever the window manager
    /// put it.
    fn default() -> (r: Self)
        ensures
            r == WindowState::Static,
    {
        WindowState::Static
    }
}

/// A discrete input event, one per edge: the toggle key going down, or a
/// pointer button going down or up together with the cursor position at
/// that instant, when the window system could report one.
#[derive(Clone, Copy, Debug, PartialEq, Eq, Structural)]
pub enum InputEvent {
    SpacePressed,
    PointerPressed(Option<LogicalPoint>),
    PointerReleased(Option<LogicalPoint>),
}

impl InputEvent {
    /// Any cursor position carried by the event is one the window system
    /// can actually report.
    pub open spec fn wf(self) -> bool {
        match self {
            InputEvent::PointerPressed(Some(p)) => p.within(MAX_POSITION),
            InputEvent::PointerReleased(Some(p)) => p.within(MAX_POSITION),
            _ => true,
        }
    }
}

/// The physics-engine body type the window body must have in a given
/// state: position-driven while the window leads, dynamic while the
/// simulation leads.
#[derive(Clone, Copy, Debug, PartialEq, Eq, Structural)]
pub enum BodyType {
    Dynamic,
    KinematicPositionBased,
}

/// The background color that indicates the current state: purely
/// observational, no behavioral effect.
#[derive(Clone, Copy, Debug, PartialEq, Eq, Structural)]
pub enum BackgroundColor {
    DarkBlue,
    DarkGray,
    Gray,
}

/// The state after `event` arrives in state `s`.
///
/// The toggle key sends `Static` and `Dragging` to `Bouncing` and
/// `Bouncing` back to `Static`. A pointer press with a reported cursor
/// starts a drag whose origin is the flipped cursor; without one, nothing
/// changes. A pointer release ends a drag in `Bouncing` whether or not
/// the cursor could be read, and is ignored outside a drag.
pub open spec fn spec_next_state(c: CoordConverter, s: WindowState, event: InputEvent) -> WindowState {
    match event {
        InputEvent::SpacePressed => match s {
            WindowState::Bouncing => WindowState::Static,
            _ => WindowState::Bouncing,
        },
        InputEvent::PointerPressed(cursor) => match cursor {
            Some(p) => WindowState::Dragging(c.spec_flip(p)),
            None => s,
        },
        InputEvent::PointerReleased(_) => match s {
            WindowState::Dragging(_) => WindowState::Bouncing,
            _ => s,
        },
    }
}

/// The impulse the transition applies: one is launched exactly when a
/// pointer release ends a drag and the cursor position at release is
/// available.
pub open spec fn spec_impulse(c: CoordConverter, s: WindowState, event: InputEvent) -> Option<
    PhysicsVec,
> {
    match (s, event) {
        (WindowState::Dragging(origin), InputEvent::PointerReleased(Some(current))) => Some(
            spec_launch_impulse(c, origin, current),
        ),
        _ => None,
    }
}

/// Whether the event is a gesture edge whose cursor position the window
/// system failed to report: the only non-fatal failure, reported as a
/// diagnostic while the gesture aborts (on press) or launches with no
/// impulse (on release).
pub open spec fn spec_cursor_missing(s: WindowState, event: InputEvent) -> bool {
    match event {
        InputEvent::PointerPressed(cursor) => cursor is None,
        InputEvent::PointerReleased(cursor) => s is Dragging && cursor is None,
        _ => false,
    }
}

/// Everything one transition decides: the next state, the impulse to
/// apply if a drag just launched the window, and whether a gesture edge
/// went unreported.
#[derive(Clone, Copy, Debug, PartialEq, Eq, Structural)]
pub struct Transition {
    pub state: WindowState,
    pub impulse: Option<PhysicsVec>,
    pub cursor_missing: bool,
}

/// Runs one step of the state machine on a single input event.
pub fn transition(c: &CoordConverter, s: WindowState, event: InputEvent) -> (r: Transition)
    requires
        c.wf(),
        s.wf(),
        event.wf(),
    ensures
        r.state == spec_next_state(*c, s, event),
        r.impulse == spec_impulse(*c, s, event),
        r.cursor_missing == spec_cursor_missing(s, event),
        r.state.wf(),
{
    match event {
        InputEvent::SpacePressed => Transition {
            state: match s {
                WindowState::Bouncing => WindowState::Static,
                _ => WindowState::Bouncing,
            },
            impulse: None,
            cursor_missing: false,
        },
        InputEvent::PointerPressed(cursor) => match cursor {
            Some(p) => Transition {
                state: WindowState::Dragging(c.flip(p)),
                impulse: None,
                cursor_missing: false,
            },
            None => Transition { state: s, impulse: None, cursor_missing: true },
        },
        InputEvent::PointerReleased(cursor) => match s {
            WindowState::Dragging(origin) => match cursor {
                Some(current) => Transition {
                    state: WindowState::Bouncing,
                    impulse: Some(launch_impulse(c, origin, current)),
                    cursor_missing: false,
                },
                None => Transition {
                    state: WindowState::Bouncing,
                    impulse: None,
                    cursor_missing: true,
                },
            },
            _ => Transition { state: s, impulse: None, cursor_missing: false },
        },
    }
}

/// The body type owed to a state: dynamic exactly while bouncing.
pub open spec fn spec_body_type(s: WindowState) -> BodyType {
    match s {
        WindowState::Bouncing => BodyType::Dynamic,
        _ => BodyType::KinematicPositionBased,
    }
}

/// The physics body type the window body must carry in state `s`.
pub fn body_type_for(s: &WindowState) -> (r: BodyType)
    ensures
        r == spec_body_type(*s),
        r == BodyType::Dynamic <==> *s is Bouncing,
{
    match s {
        WindowState::Bouncing => BodyType::Dynamic,
        _ => BodyType::KinematicPositionBased,
    }
}

/// The background color owed to a state.
pub open spec fn spec_background(s: WindowState) -> BackgroundColor {
    match s {
        WindowState::Bouncing => BackgroundColor::DarkBlue,
        WindowState::Dragging(_) => BackgroundColor::DarkGray,
        WindowState::Static => BackgroundColor::Gray,
    }
}

/// The background color that indicates state `s`.
pub fn background_for(s: &WindowState) -> (r: BackgroundColor)
    ensures
        r == spec_background(*s),
{
    match s {
        WindowState::Bouncing => BackgroundColor::DarkBlue,
        WindowState::Dragging(_) => BackgroundColor::DarkGray,
        WindowState::Static => BackgroundColor::Gray,
    }
}

/// Pressing the toggle key twice returns to where it started: from
/// `Static` one press yields `Bouncing`, a second yields `Static` again,
/// and symmetrically from `Bouncing`.
pub proof fn lemma_space_press_two_cycle(c: CoordConverter, s: WindowState)
    requires
        s is Static || s is Bouncing,
    ensures
        spec_next_state(c, spec_next_state(c, s, InputEvent::SpacePressed), InputEvent::SpacePressed)
            == s,
        s is Static ==> spec_next_state(c, s, InputEvent::SpacePressed) is Bouncing,
        s is Bouncing ==> spec_next_state(c, s, InputEvent::SpacePressed) is Static,
{
}

/// A pointer press that carries a cursor position starts a drag whose
/// origin is the cursor flipped across the monitor height.
pub proof fn lemma_press_starts_drag(c: CoordConverter, s: WindowState, p: LogicalPoint)
    ensures
        spec_next_state(c, s, InputEvent::PointerPressed(Some(p))) == WindowState::Dragging(
            LogicalPoint { x: p.x, y: flip_y(c.monitor_height as int, p.y as int) as i64 },
        ),
{
}

} // verus!
