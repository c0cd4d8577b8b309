//! Collision-group filtering and the decorative shapes.
//!
//! Two groups partition the scene. The window body alone is a member of
//! the inner group; everything else — the window's walls, the monitor's
//! bounds, the decorative shapes — is a member of every group but that
//! one. A pair collides only when each side's memberships meet the
//! other's filter, so the shapes bounce off the window walls yet never
//! touch the window body, the body never snags on its own walls, and only
//! the body feels the monitor bounds.
//!
//! The decorative shapes are simple dynamic bodies with a random kind,
//! size and color, created once at startup, never destroyed, and never
//! part of the interaction state machine: a shape carries no state and no
//! transition reads one.

use vstd::prelude::*;

use crate::convert::CoordConverter;

verus! {

/// The group bit held by the window body alone.
pub const WINDOW_INNER: u32 = 1;

/// Every group bit.
pub const ALL_GROUPS: u32 = 0xffff_ffff;

/// A collision filter: the groups a collider belongs to and the groups it
/// is willing to collide with.
#[derive(Clone, Copy, Debug, PartialEq, Eq, Structural)]
pub struct CollisionGroups {
    pub memberships: u32,
    pub filter: u32,
}

/// Whether two colliders interact: each side's memberships must meet the
/// other's filter.
pub open spec fn can_interact(a: CollisionGroups, b: CollisionGroups) -> bool {
    a.memberships & b.filter != 0 && b.memberships & a.filter != 0
}

/// The window body's groups: the only member of the inner group, and it
/// collides only with that group's counterparts — the monitor bounds that
/// filter for it.
pub open spec fn spec_window_body_groups() -> CollisionGroups {
    CollisionGroups { memberships: ALL_GROUPS, filter: WINDOW_INNER }
}

/// The groups of the window's own walls: everything but the inner group,
/// filtering for everyone — so the walls stop the shapes but never the
/// window body they belong to.
pub open spec fn spec_window_walls_groups() -> CollisionGroups {
    CollisionGroups { memberships: ALL_GROUPS & !WINDOW_INNER, filter: ALL_GROUPS }
}

/// The monitor bounds' groups: they filter for the inner group alone, so
/// only the window body bounces off the monitor edges.
pub open spec fn spec_monitor_groups() -> CollisionGroups {
    CollisionGroups { memberships: ALL_GROUPS, filter: WINDOW_INNER }
}

/// A decorative shape's groups: everything but the inner group, filtering
/// for everyone.
pub open spec fn spec_shape_groups() -> CollisionGroups {
    CollisionGroups { memberships: ALL_GROUPS & !WINDOW_INNER, filter: ALL_GROUPS }
}

pub fn window_body_groups() -> (r: CollisionGroups)
    ensures
        r == spec_window_body_groups(),
{
    CollisionGroups { memberships: ALL_GROUPS, filter: WINDOW_INNER }
}

pub fn window_walls_groups() -> (r: CollisionGroups)
    ensures
        r == spec_window_walls_groups(),
{
    CollisionGroups { memberships: ALL_GROUPS & !WINDOW_INNER, filter: ALL_GROUPS }
}

pub fn monitor_groups() -> (r: CollisionGroups)
    ensures
        r == spec_monitor_groups(),
{
    CollisionGroups { memberships: ALL_GROUPS, filter: WINDOW_INNER }
}

pub fn shape_groups() -> (r: CollisionGroups)
    ensures
        r == spec_shape_groups(),
{
    CollisionGroups { memberships: ALL_GROUPS & !WINDOW_INNER, filter: ALL_GROUPS }
}

/// The decorative shapes are excluded from the window body's collision
/// group for good: a shape is never a member of the inner group, never
/// interacts with the window body, yet does interact with the window
/// walls that confine it — while the body itself ignores its own walls
/// and bounces off the monitor bounds instead. These are facts about the
/// group constants, so they hold on every tick of every session.
pub proof fn lemma_shape_collision_exclusion()
    ensures
        spec_shape_groups().memberships & WINDOW_INNER == 0,
        !can_interact(spec_shape_groups(), spec_window_body_groups()),
        can_interact(spec_shape_groups(), spec_window_walls_groups()),
        !can_interact(spec_shape_groups(), spec_monitor_groups()),
        !can_interact(spec_window_body_groups(), spec_window_walls_groups()),
        can_interact(spec_window_body_groups(), spec_monitor_groups()),
{
    assert((0xffff_ffffu32 & !1u32) & 1u32 == 0) by (bit_vector);
    assert((0xffff_ffffu32 & !1u32) & 0xffff_ffffu32 != 0) by (bit_vector);
    assert(0xffff_ffffu32 & 0xffff_ffffu32 != 0) by (bit_vector);
    assert(0xffff_ffffu32 & 1u32 != 0) by (bit_vector);
}

/// What a decorative shape's collider is.
#[derive(Clone, Copy, Debug, PartialEq, Eq, Structural)]
pub enum ShapeKind {
    Circle,
    Square,
}

/// The palette a decorative shape's fill is drawn from.
#[derive(Clone, Copy, Debug, PartialEq, Eq, Structural)]
pub enum ShapeColor {
    Red,
    Orange,
    Pink,
    Blue,
    Gold,
}

/// Everything the engine needs to spawn one decorative shape: its kind,
/// its size in subunits (the radius of a circle, the edge of a square),
/// its fill color, and its collision groups.
#[derive(Clone, Copy, Debug, PartialEq, Eq, Structural)]
pub struct ShapeDescriptor {
    pub kind: ShapeKind,
    pub size: i64,
    pub color: ShapeColor,
    pub groups: CollisionGroups,
}

/// The smallest decorative-shape size, in subunits: a hundredth of a
/// meter, and at least one subunit.
pub open spec fn spec_min_shape_size(c: CoordConverter) -> int {
    c.physics_scale as int / 50 + 1
}

/// Builds one decorative shape from three draws of randomness, handed in
/// as plain numbers: the kind by the draw's parity, the color by its
/// residue over the palette, and the size spread uniformly over
/// `[min, 4 * min)` where `min` is about a hundredth of a meter. Whatever
/// the draws, the shape's groups exclude it from the window body's
/// collision group.
pub fn decorative_shape(c: &CoordConverter, kind_pick: u64, color_pick: u64, size_pick: u64) -> (r:
    ShapeDescriptor)
    requires
        c.wf(),
    ensures
        r.kind == if kind_pick % 2 == 0 {
            ShapeKind::Circle
        } else {
            ShapeKind::Square
        },
        r.color == spec_color_of_pick(color_pick),
        r.size == spec_min_shape_size(*c) + size_pick as int % (3 * spec_min_shape_size(*c)),
        spec_min_shape_size(*c) <= r.size < 4 * spec_min_shape_size(*c),
        r.groups == spec_shape_groups(),
{
    let min: i64 = c.physics_scale / 50 + 1;
    let spread: u64 = (3 * min) as u64;
    let size: i64 = min + (size_pick % spread) as i64;
    let kind = if kind_pick % 2 == 0 {
        ShapeKind::Circle
    } else {
        ShapeKind::Square
    };
    let color = color_of_pick(color_pick);
    ShapeDescriptor { kind, size, color, groups: shape_groups() }
}

/// Relies on rand::random: a draw from the thread-local generator.
/// Nothing can be promised of a random value, so nothing is.
pub assume_specification<T>[ rand::random::<T> ]() -> (r: T)
    where
        rand::distributions::Standard: rand::distributions::Distribution<T>,
;

/// Builds one decorative shape from three fresh draws of the thread-local
/// generator, as at startup. The draws themselves promise nothing, so the
/// contract states what holds of every outcome: the size stays within its
/// band and the groups always exclude the shape from the window body's
/// collision group.
pub fn random_decorative_shape(c: &CoordConverter) -> (r: ShapeDescriptor)
    requires
        c.wf(),
    ensures
        spec_min_shape_size(*c) <= r.size < 4 * spec_min_shape_size(*c),
        r.groups == spec_shape_groups(),
{
    let kind_pick: u64 = rand::random();
    let color_pick: u64 = rand::random();
    let size_pick: u64 = rand::random();
    decorative_shape(c, kind_pick, color_pick, size_pick)
}

/// The palette entry a color draw selects, by its residue.
pub open spec fn spec_color_of_pick(color_pick: u64) -> ShapeColor {
    if color_pick % 5 == 0 {
        ShapeColor::Red
    } else if color_pick % 5 == 1 {
        ShapeColor::Orange
    } else if color_pick % 5 == 2 {
        ShapeColor::Pink
    } else if color_pick % 5 == 3 {
        ShapeColor::Blue
    } else {
        ShapeColor::Gold
    }
}

fn color_of_pick(color_pick: u64) -> (r: ShapeColor)
    ensures
        r == spec_color_of_pick(color_pick),
{
    let residue: u64 = color_pick % 5;
    if residue == 0 {
        ShapeColor::Red
    } else if residue == 1 {
        ShapeColor::Orange
    } else if residue == 2 {
        ShapeColor::Pink
    } else if residue == 3 {
        ShapeColor::Blue
    } else {
        ShapeColor::Gold
    }
}

} // verus!
