//! The boundary collider: four halfspace walls around a rectangle.
//!
//! The window's walls (and the monitor's bounds) are a compound of four
//! halfspace primitives, one per axis-aligned direction, each offset
//! outward from the center by the half-extent along its own normal. That
//! makes a hollow rectangular boundary — walls only, no interior volume —
//! so bodies move freely inside and collide only with the four planes.
//! The compound is rebuilt, as a whole replacement, every time a resize
//! is observed; the half-extents of the rebuilt boundary are exactly half
//! the rectangle's physics-frame size.

use vstd::prelude::*;

use crate::convert::{subunits_of_pixels, CoordConverter};
use crate::geometry::{LogicalSize, PhysicsPoint, PhysicsVec};

verus! {

/// An axis-aligned outward normal of one wall.
#[derive(Clone, Copy, Debug, PartialEq, Eq, Structural)]
pub enum WallNormal {
    PosX,
    NegX,
    PosY,
    NegY,
}

/// One halfspace wall: its normal and the offset of a point on its plane
/// from the compound's center, in subunits. The offset points against the
/// normal, half an extent inward-to-outward along that axis.
#[derive(Clone, Copy, Debug, PartialEq, Eq, Structural)]
pub struct Wall {
    pub normal: WallNormal,
    pub offset: PhysicsVec,
}

/// A hollow rectangular boundary: its half-extents and its four walls.
#[derive(Clone, Copy, Debug, PartialEq, Eq, Structural)]
pub struct Boundary {
    pub half_extents: PhysicsVec,
    pub wall_pos_x: Wall,
    pub wall_neg_x: Wall,
    pub wall_pos_y: Wall,
    pub wall_neg_y: Wall,
}

/// The half-extents of a rectangle of logical size `size`, in subunits:
/// `(width, height)` subunits is exactly `(width, height) / 2` pixels,
/// that is `(width, height) / (2 * physics_scale)` meters, with no
/// rounding.
pub open spec fn spec_half_extents(c: CoordConverter, size: LogicalSize) -> PhysicsVec {
    PhysicsVec { x: size.width, y: size.height }
}

/// The boundary owed to a rectangle of logical size `size`: each wall's
/// offset is the negated half-extent along its own normal, so each plane
/// sits half an extent out from the center.
pub open spec fn spec_boundary(c: CoordConverter, size: LogicalSize) -> Boundary {
    let h = spec_half_extents(c, size);
    Boundary {
        half_extents: h,
        wall_pos_x: Wall {
            normal: WallNormal::PosX,
            offset: PhysicsVec { x: (-h.x) as i64, y: 0 },
        },
        wall_neg_x: Wall { normal: WallNormal::NegX, offset: PhysicsVec { x: h.x, y: 0 } },
        wall_pos_y: Wall {
            normal: WallNormal::PosY,
            offset: PhysicsVec { x: 0, y: (-h.y) as i64 },
        },
        wall_neg_y: Wall { normal: WallNormal::NegY, offset: PhysicsVec { x: 0, y: h.y } },
    }
}

/// Builds (or rebuilds, on a resize event carrying the new size) the
/// boundary for a rectangle of logical size `size`.
pub fn rebuild_boundary(c: &CoordConverter, size: LogicalSize) -> (r: Boundary)
    requires
        c.wf(),
        size.in_range(),
    ensures
        r == spec_boundary(*c, size),
        r.half_extents.x == size.width,
        r.half_extents.y == size.height,
        r.wall_pos_x.offset == (PhysicsVec { x: (-size.width) as i64, y: 0 }),
        r.wall_neg_x.offset == (PhysicsVec { x: size.width, y: 0 }),
        r.wall_pos_y.offset == (PhysicsVec { x: 0, y: (-size.height) as i64 }),
        r.wall_neg_y.offset == (PhysicsVec { x: 0, y: size.height }),
{
    let h = PhysicsVec { x: size.width, y: size.height };
    Boundary {
        half_extents: h,
        wall_pos_x: Wall { normal: WallNormal::PosX, offset: PhysicsVec { x: -h.x, y: 0 } },
        wall_neg_x: Wall { normal: WallNormal::NegX, offset: PhysicsVec { x: h.x, y: 0 } },
        wall_pos_y: Wall { normal: WallNormal::PosY, offset: PhysicsVec { x: 0, y: -h.y } },
        wall_neg_y: Wall { normal: WallNormal::NegY, offset: PhysicsVec { x: 0, y: h.y } },
    }
}

/// The half-extents of the window body's own solid collider, the cuboid
/// the simulation integrates: exactly half the window's outer size in the
/// physics frame.
pub fn body_half_extents(c: &CoordConverter, outer: LogicalSize) -> (r: PhysicsVec)
    requires
        c.wf(),
        outer.in_range(),
    ensures
        r == spec_half_extents(*c, outer),
        r.x == outer.width,
        r.y == outer.height,
{
    PhysicsVec { x: outer.width, y: outer.height }
}

/// The center at which the monitor's own boundary compound is placed:
/// half the monitor's size away from the physics origin, which sits at
/// the monitor's bottom-left corner, so the four monitor walls enclose
/// exactly the monitor's rectangle.
pub fn monitor_center(c: &CoordConverter, monitor_size: LogicalSize) -> (r: PhysicsPoint)
    requires
        c.wf(),
        monitor_size.in_range(),
    ensures
        r.x == spec_half_extents(*c, monitor_size).x,
        r.y == spec_half_extents(*c, monitor_size).y,
        2 * r.x == subunits_of_pixels(monitor_size.width as int),
        2 * r.y == subunits_of_pixels(monitor_size.height as int),
{
    PhysicsPoint { x: monitor_size.width, y: monitor_size.height }
}

/// Rebuilding on a resize is exact: the rebuilt boundary's half-extents
/// are half the new physics-frame size with no rounding — doubling them
/// gives back exactly the converted size, so in meters they equal
/// `(width, height) / (2 * physics_scale)`.
pub proof fn lemma_half_extents_exact(c: CoordConverter, size: LogicalSize)
    requires
        size.in_range(),
    ensures
        2 * spec_boundary(c, size).half_extents.x == subunits_of_pixels(size.width as int),
        2 * spec_boundary(c, size).half_extents.y == subunits_of_pixels(size.height as int),
{
}

} // verus!
