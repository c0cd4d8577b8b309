//! The synchronization step, the whole-tick pipeline, the boundary
//! builder, and the decorative shapes, on concrete values.

use window_velocity::boundary::{body_half_extents, rebuild_boundary};
use window_velocity::convert::CoordConverter;
use window_velocity::geometry::{LogicalPoint, LogicalSize, PhysicsPoint, PhysicsVec};
use window_velocity::shapes::{
    decorative_shape, monitor_groups, random_decorative_shape, shape_groups, window_body_groups,
    window_walls_groups, CollisionGroups, ShapeKind, WINDOW_INNER,
};
use window_velocity::state::{BodyType, InputEvent, WindowState};
use window_velocity::sync::{synchronize, tick, SyncCommand};

fn converter() -> CoordConverter {
    CoordConverter::new(400, 750)
}

const OUTER: LogicalSize = LogicalSize { width: 600, height: 400 };

#[test]
fn static_window_drives_body_to_offset_center() {
    let c = converter();
    let r = synchronize(
        &c,
        &WindowState::Static,
        OUTER,
        LogicalPoint { x: 10, y: 20 },
        PhysicsPoint { x: 0, y: 0 },
    );
    // Inner corner (10, 20) converts to (20, 760) subunits; the half-size
    // offset is (600, -400) subunits, so the center lands at (620, 360).
    assert_eq!(r, SyncCommand::DriveBody(PhysicsPoint { x: 620, y: 360 }));
}

#[test]
fn bouncing_body_drives_window_back() {
    let c = converter();
    let r = synchronize(
        &c,
        &WindowState::Bouncing,
        OUTER,
        LogicalPoint { x: 10, y: 20 },
        PhysicsPoint { x: 620, y: 360 },
    );
    assert_eq!(r, SyncCommand::MoveWindow(LogicalPoint { x: 10, y: 20 }));
}

#[test]
fn dragging_synchronizes_nothing() {
    let c = converter();
    let r = synchronize(
        &c,
        &WindowState::Dragging(LogicalPoint { x: 100, y: 350 }),
        OUTER,
        LogicalPoint { x: 10, y: 20 },
        PhysicsPoint { x: 620, y: 360 },
    );
    assert_eq!(r, SyncCommand::Hold);
}

#[test]
fn tick_without_event_keeps_state_and_body_type() {
    let c = converter();
    let r = tick(
        &c,
        WindowState::Static,
        None,
        OUTER,
        LogicalPoint { x: 10, y: 20 },
        PhysicsPoint { x: 0, y: 0 },
    );
    assert_eq!(r.state, WindowState::Static);
    assert_eq!(r.body_type, None);
    assert_eq!(r.impulse, None);
    assert!(!r.cursor_missing);
    assert_eq!(r.sync, SyncCommand::DriveBody(PhysicsPoint { x: 620, y: 360 }));
}

#[test]
fn tick_switches_body_type_only_on_state_change() {
    let c = converter();
    let toggled = tick(
        &c,
        WindowState::Static,
        Some(InputEvent::SpacePressed),
        OUTER,
        LogicalPoint { x: 10, y: 20 },
        PhysicsPoint { x: 620, y: 360 },
    );
    assert_eq!(toggled.state, WindowState::Bouncing);
    assert_eq!(toggled.body_type, Some(BodyType::Dynamic));
    // The new state already rules the same tick: the body leads.
    assert_eq!(toggled.sync, SyncCommand::MoveWindow(LogicalPoint { x: 10, y: 20 }));

    let ignored = tick(
        &c,
        WindowState::Static,
        Some(InputEvent::PointerPressed(None)),
        OUTER,
        LogicalPoint { x: 10, y: 20 },
        PhysicsPoint { x: 620, y: 360 },
    );
    assert_eq!(ignored.state, WindowState::Static);
    assert_eq!(ignored.body_type, None);
    assert!(ignored.cursor_missing);
}

#[test]
fn tick_on_release_carries_the_impulse() {
    let c = converter();
    let r = tick(
        &c,
        WindowState::Dragging(LogicalPoint { x: 100, y: 350 }),
        Some(InputEvent::PointerReleased(Some(LogicalPoint { x: 100, y: 250 }))),
        OUTER,
        LogicalPoint { x: 10, y: 20 },
        PhysicsPoint { x: 620, y: 360 },
    );
    assert_eq!(r.state, WindowState::Bouncing);
    assert_eq!(r.body_type, Some(BodyType::Dynamic));
    assert_eq!(r.impulse, Some(PhysicsVec { x: 0, y: 400 }));
}

#[test]
fn resize_rebuilds_boundary_with_exact_half_extents() {
    let c = converter();
    let b = rebuild_boundary(&c, LogicalSize { width: 800, height: 600 });
    // Half-extents (800, 600) subunits are exactly (400, 300) pixels, that
    // is (800, 600) / (2 * 750) meters.
    assert_eq!(b.half_extents, PhysicsVec { x: 800, y: 600 });
    assert_eq!(b.wall_pos_x.offset, PhysicsVec { x: -800, y: 0 });
    assert_eq!(b.wall_neg_x.offset, PhysicsVec { x: 800, y: 0 });
    assert_eq!(b.wall_pos_y.offset, PhysicsVec { x: 0, y: -600 });
    assert_eq!(b.wall_neg_y.offset, PhysicsVec { x: 0, y: 600 });
    assert_eq!(body_half_extents(&c, OUTER), PhysicsVec { x: 600, y: 400 });
}

fn interact(a: CollisionGroups, b: CollisionGroups) -> bool {
    a.memberships & b.filter != 0 && b.memberships & a.filter != 0
}

#[test]
fn shapes_stay_out_of_the_window_body_group() {
    let shape = shape_groups();
    let body = window_body_groups();
    let walls = window_walls_groups();
    let monitor = monitor_groups();
    assert_eq!(shape.memberships & WINDOW_INNER, 0);
    assert!(!interact(shape, body));
    assert!(interact(shape, walls));
    assert!(!interact(shape, monitor));
    assert!(!interact(body, walls));
    assert!(interact(body, monitor));
}

#[test]
fn decorative_shapes_come_from_the_draws() {
    let c = converter();
    // With a 750 pixel-per-meter scale the smallest size is 16 subunits.
    let a = decorative_shape(&c, 0, 0, 0);
    assert_eq!(a.kind, ShapeKind::Circle);
    assert_eq!(a.size, 16);
    let b = decorative_shape(&c, 3, 4, 47);
    assert_eq!(b.kind, ShapeKind::Square);
    assert_eq!(b.size, 16 + 47);
    assert_eq!(b.groups, shape_groups());
    for pick in 0..200u64 {
        let s = decorative_shape(&c, pick, pick, pick);
        assert!(16 <= s.size && s.size < 64);
        assert_eq!(s.groups.memberships & WINDOW_INNER, 0);
    }
}

#[test]
fn random_shapes_keep_their_band_and_groups() {
    let c = converter();
    for _ in 0..50 {
        let s = random_decorative_shape(&c);
        assert!(16 <= s.size && s.size < 64);
        assert_eq!(s.groups, shape_groups());
    }
}
