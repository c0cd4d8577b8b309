//! Coordinate-conversion behavior on concrete values.

use window_velocity::convert::CoordConverter;
use window_velocity::geometry::{LogicalPoint, LogicalSize, PhysicsPoint, PhysicsVec};

fn converter() -> CoordConverter {
    CoordConverter::new(400, 750)
}

#[test]
fn flip_reflects_across_monitor_height() {
    let c = converter();
    let p = c.flip(LogicalPoint { x: 100, y: 50 });
    assert_eq!(p, LogicalPoint { x: 100, y: 350 });
}

#[test]
fn flip_twice_is_identity() {
    let c = converter();
    for y in [-25i64, 0, 50, 400, 1000] {
        let p = LogicalPoint { x: 7, y };
        assert_eq!(c.flip(c.flip(p)), p);
    }
}

#[test]
fn physics_point_flips_and_rescales() {
    let c = converter();
    // (100, 50) flips to (100, 350); one pixel is two subunits.
    let v = c.to_physics_point(LogicalPoint { x: 100, y: 50 });
    assert_eq!(v, PhysicsPoint { x: 200, y: 700 });
}

#[test]
fn window_position_round_trip_is_exact() {
    let c = converter();
    for (x, y) in [(0i64, 0i64), (100, 50), (-3, 417), (599, 399)] {
        let p = LogicalPoint { x, y };
        assert_eq!(c.to_logical_window_position(c.to_physics_point(p)), p);
    }
}

#[test]
fn size_round_trip_is_exact() {
    let c = converter();
    for (w, h) in [(0i64, 0i64), (600, 400), (1, 1), (1048576, 3)] {
        let s = LogicalSize { width: w, height: h };
        assert_eq!(c.to_logical_size(c.to_physics_vec(s)), s);
    }
}

#[test]
fn odd_subunit_counts_round_toward_lower_pixel() {
    let c = converter();
    let s = c.to_logical_size(PhysicsVec { x: 7, y: 9 });
    assert_eq!(s, LogicalSize { width: 3, height: 4 });
    // A negative coordinate also rounds downward, not toward zero.
    let p = c.to_logical_window_position(PhysicsPoint { x: -7, y: -9 });
    assert_eq!(p, LogicalPoint { x: -4, y: 400 - (-5) });
}

#[test]
fn from_pointer_flips_without_rescaling() {
    let c = converter();
    let p = c.from_pointer(LogicalPoint { x: 100, y: 50 });
    assert_eq!(p, LogicalPoint { x: 100, y: 350 });
}
