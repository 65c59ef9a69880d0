//! A fixed-step 2D particle-collision simulator: circular bodies move inside a
//! bounded square room, bounce off the walls and off each other, and, in one
//! simulation mode, are recolored when they collide.
//!
//! Coordinates, velocities and radii are fixed-point values: plain integers in
//! a caller-chosen unit (for example thousandths of a meter). Time instants
//! and deltas are integers in a caller-chosen unit as well, and one unit of
//! velocity moves a body one coordinate unit per time unit.

pub mod clock;
pub mod collision;
pub mod components;
pub mod integrator;
pub mod world;
