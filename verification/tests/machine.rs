//! The interaction state machine and the launch impulse on concrete
//! event sequences.

use window_velocity::convert::CoordConverter;
use window_velocity::geometry::{LogicalPoint, PhysicsVec};
use window_velocity::impulse::launch_impulse;
use window_velocity::state::{
    background_for, body_type_for, transition, BackgroundColor, BodyType, InputEvent, WindowState,
};

fn converter() -> CoordConverter {
    CoordConverter::new(400, 750)
}

#[test]
fn initial_state_is_static() {
    assert_eq!(WindowState::default(), WindowState::Static);
}

#[test]
fn space_toggles_static_and_bouncing() {
    let c = converter();
    let once = transition(&c, WindowState::Static, InputEvent::SpacePressed);
    assert_eq!(once.state, WindowState::Bouncing);
    assert_eq!(once.impulse, None);
    let twice = transition(&c, once.state, InputEvent::SpacePressed);
    assert_eq!(twice.state, WindowState::Static);
}

#[test]
fn space_during_drag_releases_into_bouncing() {
    let c = converter();
    let dragging = WindowState::Dragging(LogicalPoint { x: 1, y: 2 });
    let t = transition(&c, dragging, InputEvent::SpacePressed);
    assert_eq!(t.state, WindowState::Bouncing);
    assert_eq!(t.impulse, None);
}

#[test]
fn press_with_cursor_starts_drag_at_flipped_origin() {
    let c = converter();
    let t = transition(
        &c,
        WindowState::Static,
        InputEvent::PointerPressed(Some(LogicalPoint { x: 100, y: 50 })),
    );
    assert_eq!(t.state, WindowState::Dragging(LogicalPoint { x: 100, y: 350 }));
    assert_eq!(t.impulse, None);
    assert!(!t.cursor_missing);
}

#[test]
fn press_without_cursor_changes_nothing_and_reports() {
    let c = converter();
    let t = transition(&c, WindowState::Static, InputEvent::PointerPressed(None));
    assert_eq!(t.state, WindowState::Static);
    assert_eq!(t.impulse, None);
    assert!(t.cursor_missing);
}

#[test]
fn release_with_cursor_launches_upward() {
    let c = converter();
    let t = transition(
        &c,
        WindowState::Dragging(LogicalPoint { x: 100, y: 350 }),
        InputEvent::PointerReleased(Some(LogicalPoint { x: 100, y: 250 })),
    );
    assert_eq!(t.state, WindowState::Bouncing);
    // Physics displacement is (0, 100) pixels = (0, 200) subunits; the
    // launch gain doubles it: no horizontal part, positive vertical part.
    assert_eq!(t.impulse, Some(PhysicsVec { x: 0, y: 400 }));
    assert!(!t.cursor_missing);
}

#[test]
fn release_without_cursor_still_bounces_with_no_impulse() {
    let c = converter();
    let t = transition(
        &c,
        WindowState::Dragging(LogicalPoint { x: 100, y: 350 }),
        InputEvent::PointerReleased(None),
    );
    assert_eq!(t.state, WindowState::Bouncing);
    assert_eq!(t.impulse, None);
    assert!(t.cursor_missing);
}

#[test]
fn release_outside_a_drag_is_ignored() {
    let c = converter();
    let t = transition(
        &c,
        WindowState::Bouncing,
        InputEvent::PointerReleased(Some(LogicalPoint { x: 5, y: 5 })),
    );
    assert_eq!(t.state, WindowState::Bouncing);
    assert_eq!(t.impulse, None);
    assert!(!t.cursor_missing);
}

#[test]
fn impulse_is_gain_times_physics_displacement() {
    let c = converter();
    let v = launch_impulse(
        &c,
        LogicalPoint { x: 10, y: 390 },
        LogicalPoint { x: 40, y: 350 },
    );
    // Origin converts to (20, 20), current to (80, 100): delta (60, 80),
    // impulse twice that.
    assert_eq!(v, PhysicsVec { x: 120, y: 160 });
}

#[test]
fn launch_points_the_way_the_drag_moved() {
    let c = converter();
    // The cursor ends lower in the physics frame than the origin: the
    // launch has no horizontal part and points downward.
    let v = launch_impulse(
        &c,
        LogicalPoint { x: 100, y: 100 },
        LogicalPoint { x: 100, y: 350 },
    );
    assert_eq!(v, PhysicsVec { x: 0, y: -1000 });
}

#[test]
fn body_type_is_dynamic_exactly_while_bouncing() {
    assert_eq!(body_type_for(&WindowState::Bouncing), BodyType::Dynamic);
    assert_eq!(
        body_type_for(&WindowState::Static),
        BodyType::KinematicPositionBased
    );
    assert_eq!(
        body_type_for(&WindowState::Dragging(LogicalPoint { x: 0, y: 0 })),
        BodyType::KinematicPositionBased
    );
}

#[test]
fn background_indicates_state() {
    assert_eq!(background_for(&WindowState::Bouncing), BackgroundColor::DarkBlue);
    assert_eq!(
        background_for(&WindowState::Dragging(LogicalPoint { x: 0, y: 0 })),
        BackgroundColor::DarkGray
    );
    assert_eq!(background_for(&WindowState::Static), BackgroundColor::Gray);
}
