//! The simulation world and the pipeline composition: the body registry, the
//! run-wide configuration, and one tick running the three stages in their
//! fixed order Clock -> Integrator -> Resolver.
//!
//! The host drives the world by sampling a monotonic time source and calling
//! `tick` in a loop; the dependency chain of the stages is total, so one tick
//! is simply the three stages in order.

use vstd::prelude::*;
use crate::clock::Time;
use crate::clock::UpdateTime;
use crate::collision::BallCollisionCheck;
use crate::collision::involved;
use crate::collision::resolved_velocity_x;
use crate::collision::resolved_velocity_y;
use crate::components::Body;
use crate::components::Position;
use crate::components::Radius;
use crate::components::SimType;
use crate::components::Velocity;
use crate::components::WorldBounds;
use crate::components::body_ok;
use crate::components::coord_ok;
use crate::components::has_valid_color;
use crate::components::position_ok;
use crate::components::radius_ok;
use crate::components::velocity_ok;
use crate::integrator::ApplyVelocities;
use crate::integrator::integrated;

verus! {

/// The whole simulation state: the body registry (a body's handle is its
/// stable index in creation order), the room bounds, the simulation mode and
/// the clock.
pub struct World {
    pub bodies: Vec<Body>,
    pub bounds: WorldBounds,
    pub sim_type: SimType,
    pub time: Time,
}

impl World {
    /// The world is well formed: the clock is consistent and every body is
    /// within the simulation's coordinate range.
    pub open spec fn wf(self) -> bool {
        &&& self.time.wf()
        &&& forall|i: int| 0 <= i < self.bodies@.len() ==> body_ok(#[trigger] self.bodies@[i])
    }

    /// An empty world in a `width` by `height` room, with collision-coloring
    /// switched by `collisions`, and the clock started at instant `start`.
    pub fn new(width: i64, height: i64, collisions: bool, start: i64) -> (w: World)
        requires
            0 <= start,
        ensures
            w.bodies@.len() == 0,
            w.bounds == (WorldBounds { x: width, y: height }),
            w.sim_type == (SimType { collisions: collisions }),
            w.time == (Time { beginning: start, last: start, total: 0, delta: 0 }),
            w.wf(),
    {
        World {
            bodies: Vec::new(),
            bounds: WorldBounds { x: width, y: height },
            sim_type: SimType { collisions },
            time: Time::new(start),
        }
    }

    /// Creates one body with the three mandatory components and no color, and
    /// returns its handle: its stable index in creation order. Handles are
    /// never reused, since bodies are never destroyed.
    pub fn add_body(&mut self, position: Position, velocity: Velocity, radius: Radius) -> (handle:
        usize)
        requires
            old(self).wf(),
            position_ok(position),
            velocity_ok(velocity),
            radius_ok(radius),
        ensures
            final(self).bodies@ == old(self).bodies@.push(
                Body { position: position, velocity: velocity, radius: radius, color: None },
            ),
            handle == old(self).bodies@.len(),
            final(self).bounds == old(self).bounds,
            final(self).sim_type == old(self).sim_type,
            final(self).time == old(self).time,
            final(self).wf(),
    {
        let handle = self.bodies.len();
        self.bodies.push(Body { position, velocity, radius, color: None });
        handle
    }

    /// One full tick at instant `now`: the clock derives the delta, the
    /// integrator advances every position by velocity times that delta, and
    /// the resolver reflects velocities off overlapping bodies and walls and,
    /// in coloring mode, repaints the bodies involved in collisions.
    ///
    /// The caller keeps each displaced coordinate within the simulation's
    /// coordinate range; the time source is assumed monotonic.
    pub fn tick(&mut self, now: i64)
        requires
            old(self).wf(),
            old(self).time.last <= now,
            forall|i: int| 0 <= i < old(self).bodies@.len() ==> coord_ok(
                #[trigger] old(self).bodies@[i].position.x + old(self).bodies@[i].velocity.x * (now
                    - old(self).time.last),
            ) && coord_ok(
                old(self).bodies@[i].position.y + old(self).bodies@[i].velocity.y * (now - old(
                    self,
                ).time.last),
            ),
        ensures
            ({
                let d = now - old(self).time.last;
                let mid = integrated(old(self).bodies@, d);
                &&& final(self).bounds == old(self).bounds
                &&& final(self).sim_type == old(self).sim_type
                &&& final(self).time.beginning == old(self).time.beginning
                &&& final(self).time.last == now
                &&& final(self).time.delta == d
                &&& final(self).time.total == now - old(self).time.beginning
                &&& final(self).bodies@.len() == old(self).bodies@.len()
                &&& forall|i: int| 0 <= i < mid.len() ==> {
                    &&& (#[trigger] final(self).bodies@[i]).position == mid[i].position
                    &&& final(self).bodies@[i].radius == old(self).bodies@[i].radius
                    &&& final(self).bodies@[i].velocity.x == resolved_velocity_x(
                        mid,
                        i,
                        old(self).bounds,
                    )
                    &&& final(self).bodies@[i].velocity.y == resolved_velocity_y(
                        mid,
                        i,
                        old(self).bounds,
                    )
                }
                &&& (!old(self).sim_type.collisions ==> forall|i: int| 0 <= i < mid.len()
                    ==> (#[trigger] final(self).bodies@[i]).color == old(self).bodies@[i].color)
                &&& (old(self).sim_type.collisions ==> forall|i: int| 0 <= i < mid.len() ==> {
                    &&& (involved(mid, i) ==> has_valid_color(
                        (#[trigger] final(self).bodies@[i]).color,
                    ))
                    &&& (!involved(mid, i) ==> final(self).bodies@[i].color == old(
                        self,
                    ).bodies@[i].color)
                })
                &&& final(self).wf()
            }),
    {
        let ghost s0 = old(self).bodies@;
        let ghost d: int = now - old(self).time.last;

        let clock = UpdateTime;
        clock.run(&mut self.time, now);

        let integrator = ApplyVelocities;
        integrator.run(&mut self.bodies, &self.time);

        proof {
            let mid = integrated(s0, d);
            assert forall|i: int| 0 <= i < mid.len() implies self.bodies@[i] == mid[i] by {
                assert(coord_ok(s0[i].position.x + s0[i].velocity.x * d));
                assert(coord_ok(s0[i].position.y + s0[i].velocity.y * d));
            }
            assert(self.bodies@ =~= mid);
            assert forall|i: int| 0 <= i < self.bodies@.len() implies body_ok(
                #[trigger] self.bodies@[i],
            ) by {
                assert(body_ok(s0[i]));
            }
        }

        let resolver = BallCollisionCheck;
        resolver.run(&mut self.bodies, &self.bounds, &self.sim_type);

        proof {
            let mid = integrated(s0, d);
            assert forall|i: int| 0 <= i < self.bodies@.len() implies body_ok(
                #[trigger] self.bodies@[i],
            ) by {
                assert(body_ok(s0[i]));
                assert(self.bodies@[i].velocity.x == resolved_velocity_x(mid, i, self.bounds));
                assert(self.bodies@[i].velocity.y == resolved_velocity_y(mid, i, self.bounds));
            }
        }
    }
}

} // verus!

