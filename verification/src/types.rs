//! Shared data types and world-geometry constants.

use vstd::prelude::*;

verus! {

/// Number of fixed-point subunits in one world unit of length.
pub const SUBUNITS: i64 = 60;

/// Width of the visible world, in subunits (1920 world units).
pub const WINDOW_WIDTH_SU: i64 = 1920 * SUBUNITS;

/// Height of the visible world, in subunits (1080 world units).
pub const WINDOW_HEIGHT_SU: i64 = 1080 * SUBUNITS;

/// Bound on coordinates accepted by the integrator and coordinate
/// conversions; far larger than any reachable game position, and small
/// enough that every intermediate sum fits comfortably in an `i64`.
pub const POS_LIMIT: i64 = 1_000_000_000_000;

/// Tags for the kinds of entity that take part in collision handling.
#[derive(Clone, Copy, PartialEq, Eq, Structural, Debug)]
pub enum ActorType {
    Player,
    Coin,
    Object,
}

/// A two-dimensional point or velocity in fixed-point subunits.
///
/// World space puts the origin at the centre of the screen with `y`
/// increasing upward; screen space puts the origin at the top-left corner
/// with `y` increasing downward.
#[derive(Clone, Copy, PartialEq, Eq, Structural, Debug)]
pub struct Vec2 {
    pub x: i64,
    pub y: i64,
}

/// Translates a point from world space (origin at the centre, `y` up) to
/// screen space (origin at the top-left, `y` down) for a screen of the given
/// size in subunits.
pub fn world_to_screen_coords(screen_width: i64, screen_height: i64, point: Vec2) -> (r: Vec2)
    requires
        0 <= screen_width <= POS_LIMIT,
        0 <= screen_height <= POS_LIMIT,
        -POS_LIMIT <= point.x <= POS_LIMIT,
        -POS_LIMIT <= point.y <= POS_LIMIT,
    ensures
        r.x == point.x + screen_width / 2,
        r.y == screen_height - (point.y + screen_height / 2),
{
    let x: i64 = point.x + screen_width / 2;
    let y: i64 = screen_height - (point.y + screen_height / 2);
    Vec2 { x, y }
}

/// Auxiliary data attachable to a collision-world shape: a label for the
/// shape and, for moving shapes, a velocity.
#[derive(Debug, Clone, PartialEq, Eq)]
pub struct CollisionObjectData {
    pub name: &'static str,
    pub velocity: Option<Vec2>,
}

impl CollisionObjectData {
    /// Attachment data with the given label and optional velocity.
    pub fn new(name: &'static str, velocity: Option<Vec2>) -> (d: CollisionObjectData)
        ensures
            d.name == name,
            d.velocity == velocity,
    {
        let init_velocity: Option<Vec2> = if let Some(v) = velocity {
            Some(v)
        } else {
            None
        };
        CollisionObjectData { name, velocity: init_velocity }
    }
}

} // verus!
