//! Plain geometric values in the two coordinate frames, and the ranges
//! that keep every derived computation inside an `i64`.
//!
//! Logical values are whole logical pixels in the window manager's frame.
//! Physics values are counts of subunits: one logical pixel is
//! [`SUBUNITS_PER_PIXEL`] subunits, so a stored count `n` denotes
//! `n / (SUBUNITS_PER_PIXEL * physics_scale)` meters. Keeping half pixels
//! representable makes halving an even size exact, which is what the
//! half-extent and round-trip laws rely on.

use vstd::prelude::*;

verus! {

/// Subunits per logical pixel in the fixed-point physics representation.
pub const SUBUNITS_PER_PIXEL: i64 = 2;

/// Largest supported monitor dimension, window size, or pixels-per-meter
/// scale, in logical pixels: far past real hardware, small enough that
/// every derived quantity fits an `i64` comfortably.
pub const MAX_SIZE: i64 = 0x10_0000;

/// Largest magnitude accepted for a position the window system reports
/// (a cursor or a window corner).
pub const MAX_POSITION: i64 = 0x100_0000_0000;

/// Largest magnitude of a logical coordinate the converter accepts: wide
/// enough to cover a reported position after one flip across the monitor
/// height.
pub const CONVERT_BOUND: i64 = 0x200_0000_0000;

/// Largest magnitude accepted for a body center reported by the physics
/// simulation, in subunits.
pub const BODY_BOUND: i64 = 0x1000_0000_0000;

/// Largest magnitude of a physics coordinate the converter accepts, in
/// subunits: wide enough to cover a body center shifted by a half-size
/// offset.
pub const PHYS_BOUND: i64 = 0x2000_0000_0000;

/// A point in the window manager's logical frame: whole pixels, Y growing
/// downward from the monitor's top edge (or, after a flip, upward from
/// the bottom edge).
#[derive(Clone, Copy, Debug, PartialEq, Eq, Structural)]
pub struct LogicalPoint {
    pub x: i64,
    pub y: i64,
}

/// A size in whole logical pixels.
#[derive(Clone, Copy, Debug, PartialEq, Eq, Structural)]
pub struct LogicalSize {
    pub width: i64,
    pub height: i64,
}

/// A position in the physics frame: subunit counts, Y growing upward from
/// the monitor's bottom edge.
#[derive(Clone, Copy, Debug, PartialEq, Eq, Structural)]
pub struct PhysicsPoint {
    pub x: i64,
    pub y: i64,
}

/// A displacement, size, or impulse in the physics frame, in subunits.
#[derive(Clone, Copy, Debug, PartialEq, Eq, Structural)]
pub struct PhysicsVec {
    pub x: i64,
    pub y: i64,
}

impl LogicalPoint {
    /// Both coordinates lie within `bound` in magnitude.
    pub open spec fn within(self, bound: i64) -> bool {
        -bound <= self.x <= bound && -bound <= self.y <= bound
    }
}

impl LogicalSize {
    /// A size the window system can actually report: nonnegative and no
    /// larger than the supported maximum.
    pub open spec fn in_range(self) -> bool {
        0 <= self.width <= MAX_SIZE && 0 <= self.height <= MAX_SIZE
    }
}

impl PhysicsPoint {
    /// Both coordinates lie within `bound` in magnitude.
    pub open spec fn within(self, bound: i64) -> bool {
        -bound <= self.x <= bound && -bound <= self.y <= bound
    }
}

impl PhysicsVec {
    /// Both coordinates lie within `bound` in magnitude.
    pub open spec fn within(self, bound: i64) -> bool {
        -bound <= self.x <= bound && -bound <= self.y <= bound
    }
}

} // verus!
