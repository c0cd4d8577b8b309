//! A desktop-window physics toy, verified: the operating-system window is
//! treated as a rigid body that the user can throw and bounce off the
//! monitor edges, while decorative shapes bounce inside the window.
//!
//! This library holds the logic that is worth stating precisely: the
//! conversions between the window manager's coordinate frame (Y-down,
//! origin at the monitor's top left) and the physics frame (Y-up, origin
//! at the monitor's bottom left, measured in meters), the three-state
//! interaction machine (static / dragging / bouncing), the per-tick
//! synchronization step that decides whether the window drives the body
//! or the body drives the window, the launch impulse computed from a drag
//! gesture, the boundary-collider geometry, and the collision-group
//! filter that keeps the decorative shapes out of the window body's way.
//!
//! All geometry is exact integer arithmetic. A physics coordinate is
//! stored as a count of subunits, where one logical pixel is two subunits:
//! a stored count `n` denotes `n / (2 * physics_scale)` meters. With that
//! fixed-point convention every conversion in this crate is exact, and the
//! round-trip laws hold with equality rather than up to rounding.
//!
//! The engine that hosts this logic (windowing, rendering, the physics
//! solver's integration step) is floating-point glue and lives outside the
//! library; it hands positions, sizes and input events in as plain values
//! and carries the returned commands out.

pub mod boundary;
pub mod convert;
pub mod geometry;
pub mod impulse;
pub mod shapes;
pub mod state;
pub mod sync;
