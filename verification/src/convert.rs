//! Conversion between the window manager's logical frame (whole pixels,
//! Y-down from the monitor's top edge) and the physics frame (subunits,
//! Y-up from the monitor's bottom edge).
//!
//! The converter is an immutable per-session value built once at startup
//! from the primary monitor's reported height and the session's
//! pixels-per-meter scale. All translation is derived from those two
//! numbers. A physics count `n` denotes `n / (SUBUNITS_PER_PIXEL *
//! physics_scale)` meters, so dividing a pixel quantity by the scale is a
//! change of representation, not a lossy division, and the round-trip
//! laws below hold exactly.

use vstd::prelude::*;

use crate::geometry::{
    LogicalPoint, LogicalSize, PhysicsPoint, PhysicsVec, CONVERT_BOUND, MAX_SIZE, PHYS_BOUND,
    SUBUNITS_PER_PIXEL,
};

verus! {

/// Reflects a Y coordinate across the monitor height: translates between
/// Y-down-from-top and Y-up-from-bottom readings of the same point.
pub open spec fn flip_y(monitor_height: int, y: int) -> int {
    monitor_height - y
}

/// The subunit count of a length of `px` logical pixels.
pub open spec fn subunits_of_pixels(px: int) -> int {
    SUBUNITS_PER_PIXEL * px
}

/// The whole-pixel length of a subunit count, rounded toward the lower
/// pixel (Euclidean division, so the rounding direction does not depend
/// on the sign).
pub open spec fn pixels_of_subunits(n: int) -> int {
    n / (SUBUNITS_PER_PIXEL as int)
}

/// Immutable conversion parameters for one session: the primary monitor's
/// height in logical pixels and the pixels-per-meter physics scale.
#[derive(Clone, Copy, Debug, PartialEq, Eq, Structural)]
pub struct CoordConverter {
    pub monitor_height: i64,
    pub physics_scale: i64,
}

impl CoordConverter {
    /// A converter captured from a real monitor: both parameters positive
    /// and within the supported maximum.
    pub open spec fn wf(self) -> bool {
        &&& 1 <= self.monitor_height <= MAX_SIZE
        &&& 1 <= self.physics_scale <= MAX_SIZE
    }

    pub fn new(monitor_height: i64, physics_scale: i64) -> (r: Self)
        requires
            1 <= monitor_height <= MAX_SIZE,
            1 <= physics_scale <= MAX_SIZE,
        ensures
            r.monitor_height == monitor_height,
            r.physics_scale == physics_scale,
            r.wf(),
    {
        CoordConverter { monitor_height, physics_scale }
    }

    /// The point `p` with its vertical coordinate reflected across the
    /// monitor height.
    pub open spec fn spec_flip(self, p: LogicalPoint) -> LogicalPoint {
        LogicalPoint { x: p.x, y: (flip_y(self.monitor_height as int, p.y as int)) as i64 }
    }

    /// Reflects a point's vertical coordinate across the monitor height:
    /// window-manager coordinates grow downward from the top while physics
    /// coordinates grow upward from the bottom.
    pub fn flip(&self, p: LogicalPoint) -> (r: LogicalPoint)
        requires
            self.wf(),
            p.within(CONVERT_BOUND),
        ensures
            r.x == p.x,
            r.y == flip_y(self.monitor_height as int, p.y as int),
            r == self.spec_flip(p),
    {
        LogicalPoint { x: p.x, y: self.monitor_height - p.y }
    }

    /// The physics-frame position of the window-manager point `p`: flipped
    /// to Y-up, then reexpressed in subunits (which is the division by the
    /// physics scale, carried out exactly).
    pub open spec fn spec_to_physics_point(self, p: LogicalPoint) -> PhysicsPoint {
        PhysicsPoint {
            x: subunits_of_pixels(p.x as int) as i64,
            y: subunits_of_pixels(flip_y(self.monitor_height as int, p.y as int)) as i64,
        }
    }

    /// Converts a window-manager logical point into a physics-frame point:
    /// applies the flip, then divides by the physics scale.
    pub fn to_physics_point(&self, p: LogicalPoint) -> (r: PhysicsPoint)
        requires
            self.wf(),
            p.within(CONVERT_BOUND),
        ensures
            r.x == subunits_of_pixels(p.x as int),
            r.y == subunits_of_pixels(flip_y(self.monitor_height as int, p.y as int)),
            r == self.spec_to_physics_point(p),
    {
        PhysicsPoint {
            x: SUBUNITS_PER_PIXEL * p.x,
            y: SUBUNITS_PER_PIXEL * (self.monitor_height - p.y),
        }
    }

    /// The physics-frame extent of the logical size `s`.
    pub open spec fn spec_to_physics_vec(self, s: LogicalSize) -> PhysicsVec {
        PhysicsVec {
            x: subunits_of_pixels(s.width as int) as i64,
            y: subunits_of_pixels(s.height as int) as i64,
        }
    }

    /// Converts a logical size into a physics-frame extent: divides by the
    /// physics scale, with no flip, since sizes carry no orientation.
    pub fn to_physics_vec(&self, s: LogicalSize) -> (r: PhysicsVec)
        requires
            self.wf(),
            s.in_range(),
        ensures
            r.x == subunits_of_pixels(s.width as int),
            r.y == subunits_of_pixels(s.height as int),
            r == self.spec_to_physics_vec(s),
    {
        PhysicsVec { x: SUBUNITS_PER_PIXEL * s.width, y: SUBUNITS_PER_PIXEL * s.height }
    }

    /// The logical size of the physics extent `v`, in whole pixels.
    pub open spec fn spec_to_logical_size(self, v: PhysicsVec) -> LogicalSize {
        LogicalSize {
            width: pixels_of_subunits(v.x as int) as i64,
            height: pixels_of_subunits(v.y as int) as i64,
        }
    }

    /// Converts a physics-frame extent back into a logical size:
    /// multiplies by the physics scale. Exact inverse of
    /// [`Self::to_physics_vec`]; an odd subunit count rounds down to the
    /// whole pixel.
    pub fn to_logical_size(&self, v: PhysicsVec) -> (r: LogicalSize)
        requires
            self.wf(),
            v.within(PHYS_BOUND),
            0 <= v.x,
            0 <= v.y,
        ensures
            r.width == pixels_of_subunits(v.x as int),
            r.height == pixels_of_subunits(v.y as int),
            r == self.spec_to_logical_size(v),
    {
        LogicalSize { width: v.x / SUBUNITS_PER_PIXEL, height: v.y / SUBUNITS_PER_PIXEL }
    }

    /// The window-manager logical point of the physics position `v`.
    pub open spec fn spec_to_logical_window_position(self, v: PhysicsPoint) -> LogicalPoint {
        LogicalPoint {
            x: pixels_of_subunits(v.x as int) as i64,
            y: flip_y(self.monitor_height as int, pixels_of_subunits(v.y as int)) as i64,
        }
    }

    /// Converts a physics-frame position into a window-manager logical
    /// point: multiplies by the physics scale, then applies the flip.
    /// Exact inverse of [`Self::to_physics_point`]; an odd subunit count
    /// rounds toward the lower pixel.
    pub fn to_logical_window_position(&self, v: PhysicsPoint) -> (r: LogicalPoint)
        requires
            self.wf(),
            v.within(PHYS_BOUND),
        ensures
            r.x == pixels_of_subunits(v.x as int),
            r.y == flip_y(self.monitor_height as int, pixels_of_subunits(v.y as int)),
            r == self.spec_to_logical_window_position(v),
    {
        LogicalPoint {
            x: half_floor(v.x),
            y: self.monitor_height - half_floor(v.y),
        }
    }

    /// Converts a reported pointer position into the Y-up frame shared
    /// with physics points: the flip alone, since pointer coordinates are
    /// already logical pixels and not yet scaled.
    pub fn from_pointer(&self, p: LogicalPoint) -> (r: LogicalPoint)
        requires
            self.wf(),
            p.within(CONVERT_BOUND),
        ensures
            r.x == p.x,
            r.y == flip_y(self.monitor_height as int, p.y as int),
            r == self.spec_flip(p),
    {
        self.flip(p)
    }
}

/// Halves a subunit count, rounding toward the lower pixel whatever the
/// sign (Euclidean division by two).
fn half_floor(n: i64) -> (r: i64)
    requires
        -PHYS_BOUND <= n <= PHYS_BOUND,
    ensures
        r == n as int / 2,
{
    if n >= 0 {
        n / 2
    } else {
        -((-n + 1) / 2)
    }
}

/// The flip is its own inverse: reflecting a point's vertical coordinate
/// across the monitor height twice returns the original point, exactly —
/// for every representable point, within the monitor's bounds or not.
pub proof fn lemma_flip_involutive(c: CoordConverter, p: LogicalPoint)
    requires
        c.wf(),
        p.within(CONVERT_BOUND),
    ensures
        c.spec_flip(c.spec_flip(p)) == p,
        flip_y(c.monitor_height as int, flip_y(c.monitor_height as int, p.y as int)) == p.y,
{
}

/// Round trip through the physics frame is exact: converting a logical
/// point to a physics point and back returns the original point, with no
/// rounding at all — the subunit representation makes the scale division
/// lossless.
pub proof fn lemma_window_position_round_trip(c: CoordConverter, p: LogicalPoint)
    requires
        c.wf(),
        p.within(CONVERT_BOUND),
    ensures
        c.spec_to_logical_window_position(c.spec_to_physics_point(p)) == p,
{
}

/// Size round trip is exact: converting a logical size to a physics
/// extent and back returns the original size.
pub proof fn lemma_size_round_trip(c: CoordConverter, s: LogicalSize)
    requires
        c.wf(),
        s.in_range(),
    ensures
        c.spec_to_logical_size(c.spec_to_physics_vec(s)) == s,
{
}

} // verus!
