//! The data model: the per-body components (position, velocity, radius,
//! optional color), the body itself, and the run-wide configuration values
//! (room bounds and simulation mode).

use vstd::prelude::*;

verus! {

/// Greatest magnitude a coordinate, velocity component or radius may have.
/// Keeping every such quantity within this bound lets the squared-distance
/// overlap test and the velocity reflections be computed in `i64` without
/// overflow.
pub const COORD_LIMIT: i64 = 1_000_000_000;

/// A coordinate-like quantity is in the range the simulation works on.
pub open spec fn coord_ok(c: int) -> bool {
    -COORD_LIMIT <= c <= COORD_LIMIT
}

/// A body's location in room space. Mutated only by the integrator.
#[derive(Clone, Copy, PartialEq, Eq, Debug)]
pub struct Position {
    pub x: i64,
    pub y: i64,
}

/// A body's velocity in coordinate units per time unit. Mutated only by the
/// collision resolver, and only by sign flips.
#[derive(Clone, Copy, PartialEq, Eq, Debug)]
pub struct Velocity {
    pub x: i64,
    pub y: i64,
}

/// A body's radius, immutable after creation.
#[derive(Clone, Copy, PartialEq, Eq, Debug)]
pub struct Radius(pub i64);

/// A body's color; its presence marks a body that has recently collided
/// while collision-coloring is enabled.
#[derive(Clone, Copy, PartialEq, Eq, Debug)]
pub struct Color {
    pub r: i32,
    pub b: i32,
    pub g: i32,
}

/// The room: the square `[0, x] x [0, y]`, immutable for the run.
#[derive(Clone, Copy, PartialEq, Eq, Debug)]
pub struct WorldBounds {
    pub x: i64,
    pub y: i64,
}

/// The simulation mode, immutable for the run: whether collisions also
/// recolor the bodies involved.
#[derive(Clone, Copy, PartialEq, Eq, Debug)]
pub struct SimType {
    pub collisions: bool,
}

/// One simulated body. Every live body has a position, a velocity and a
/// radius; the color is optional, entity-scoped state.
#[derive(Clone, Copy, PartialEq, Eq, Debug)]
pub struct Body {
    pub position: Position,
    pub velocity: Velocity,
    pub radius: Radius,
    pub color: Option<Color>,
}

pub open spec fn position_ok(p: Position) -> bool {
    coord_ok(p.x as int) && coord_ok(p.y as int)
}

pub open spec fn velocity_ok(v: Velocity) -> bool {
    coord_ok(v.x as int) && coord_ok(v.y as int)
}

pub open spec fn radius_ok(r: Radius) -> bool {
    0 <= r.0 <= COORD_LIMIT
}

/// Every channel of a color is a byte value.
pub open spec fn color_in_range(c: Color) -> bool {
    &&& 0 <= c.r <= 255
    &&& 0 <= c.g <= 255
    &&& 0 <= c.b <= 255
}

/// A present color whose channels are all byte values.
pub open spec fn has_valid_color(c: Option<Color>) -> bool {
    match c {
        Some(col) => color_in_range(col),
        None => false,
    }
}

/// A body the simulation can work on without overflow.
pub open spec fn body_ok(b: Body) -> bool {
    position_ok(b.position) && velocity_ok(b.velocity) && radius_ok(b.radius)
}

} // verus!
