//! The launch impulse applied when a drag gesture ends.
//!
//! On release the stored drag origin and the current cursor position are
//! both taken through [`CoordConverter::to_physics_point`]; their
//! difference, scaled by the constant launch gain, is applied as an
//! instantaneous impulse at the body's center of mass. No torque is ever
//! applied: the window body's rotation is locked for its whole life.

use vstd::prelude::*;

use crate::convert::{flip_y, subunits_of_pixels, CoordConverter};
use crate::geometry::{LogicalPoint, PhysicsVec, CONVERT_BOUND};

verus! {

/// Dimensionless gain applied to the physics-frame drag displacement to
/// produce the launch impulse.
pub const LAUNCH_GAIN: i64 = 2;

/// The launch impulse for a drag that started at the stored origin and
/// ended with the cursor at `current`: the gain times the physics-frame
/// displacement between the two points.
pub open spec fn spec_launch_impulse(
    c: CoordConverter,
    origin: LogicalPoint,
    current: LogicalPoint,
) -> PhysicsVec {
    PhysicsVec {
        x: (LAUNCH_GAIN * (subunits_of_pixels(current.x as int) - subunits_of_pixels(
            origin.x as int,
        ))) as i64,
        y: (LAUNCH_GAIN * (subunits_of_pixels(flip_y(c.monitor_height as int, current.y as int))
            - subunits_of_pixels(flip_y(c.monitor_height as int, origin.y as int)))) as i64,
    }
}

/// Computes the launch impulse from the drag origin captured at gesture
/// start and the cursor position observed at release.
pub fn launch_impulse(c: &CoordConverter, origin: LogicalPoint, current: LogicalPoint) -> (r:
    PhysicsVec)
    requires
        c.wf(),
        origin.within(CONVERT_BOUND),
        current.within(CONVERT_BOUND),
    ensures
        r.x == LAUNCH_GAIN * (c.spec_to_physics_point(current).x - c.spec_to_physics_point(
            origin,
        ).x),
        r.y == LAUNCH_GAIN * (c.spec_to_physics_point(current).y - c.spec_to_physics_point(
            origin,
        ).y),
        r == spec_launch_impulse(*c, origin, current),
{
    let origin_phys = c.to_physics_point(origin);
    let current_phys = c.to_physics_point(current);
    PhysicsVec {
        x: LAUNCH_GAIN * (current_phys.x - origin_phys.x),
        y: LAUNCH_GAIN * (current_phys.y - origin_phys.y),
    }
}

/// The launch points the way the drag moved, in the physics frame: a
/// drag with no horizontal displacement launches with no horizontal
/// component, and each component of the impulse is positive exactly when
/// the cursor ended past the origin along that axis — a pointer that
/// rose in the physics frame launches the window upward.
pub proof fn lemma_launch_direction(c: CoordConverter, origin: LogicalPoint, current: LogicalPoint)
    requires
        c.wf(),
        origin.within(CONVERT_BOUND),
        current.within(CONVERT_BOUND),
    ensures
        origin.x == current.x ==> spec_launch_impulse(c, origin, current).x == 0,
        spec_launch_impulse(c, origin, current).x > 0 <==> c.spec_to_physics_point(current).x
            > c.spec_to_physics_point(origin).x,
        spec_launch_impulse(c, origin, current).y > 0 <==> c.spec_to_physics_point(current).y
            > c.spec_to_physics_point(origin).y,
{
}

} // verus!
