//! The integrator: advances every body's position by its velocity times the
//! delta of the most recent clock tick.

use vstd::prelude::*;
use crate::clock::Time;
use crate::components::Body;
use crate::components::Position;
use crate::components::coord_ok;
use crate::components::position_ok;

verus! {

/// How one integrator pass changes one body: the position advances by
/// velocity times delta, everything else is kept.
pub open spec fn moved_body(pre: Body, post: Body, d: int) -> bool {
    &&& post.position.x == pre.position.x + pre.velocity.x * d
    &&& post.position.y == pre.position.y + pre.velocity.y * d
    &&& post.velocity == pre.velocity
    &&& post.radius == pre.radius
    &&& post.color == pre.color
}

/// The integrator stage. It mutates positions only; velocities, radii and
/// colors are untouched, and bodies do not interact.
pub struct ApplyVelocities;

impl ApplyVelocities {
    /// One integrator pass: for every body, `position += velocity * delta`,
    /// with the delta read from the most recent clock tick.
    ///
    /// The caller must keep each displaced coordinate within the simulation's
    /// coordinate range, which also rules out overflow.
    #[verifier::loop_isolation(false)]
    pub fn run(&self, bodies: &mut Vec<Body>, time: &Time)
        requires
            0 <= time.delta,
            forall|i: int| 0 <= i < old(bodies)@.len() ==> position_ok(#[trigger] old(bodies)@[i].position),
            forall|i: int| 0 <= i < old(bodies)@.len() ==> coord_ok(#[trigger] old(bodies)@[i].position.x + old(bodies)@[i].velocity.x * time.delta)
                && coord_ok(old(bodies)@[i].position.y + old(bodies)@[i].velocity.y * time.delta),
        ensures
            final(bodies)@.len() == old(bodies)@.len(),
            forall|i: int| 0 <= i < old(bodies)@.len() ==> moved_body(
                old(bodies)@[i],
                #[trigger] final(bodies)@[i],
                time.delta as int,
            ),
    {
        let n = bodies.len();
        let mut i: usize = 0;
        while i < n
            invariant
                i <= n,
                bodies@.len() == old(bodies)@.len(),
                forall|k: int| i <= k < n ==> bodies@[k] == old(bodies)@[k],
                forall|k: int| 0 <= k < i ==> moved_body(
                    old(bodies)@[k],
                    #[trigger] bodies@[k],
                    time.delta as int,
                ),
            decreases n - i,
        {
            let b = bodies[i];
            let nx = b.position.x + b.velocity.x * time.delta;
            let ny = b.position.y + b.velocity.y * time.delta;
            let moved = Body {
                position: Position { x: nx, y: ny },
                velocity: b.velocity,
                radius: b.radius,
                color: b.color,
            };
            bodies.set(i, moved);
            i = i + 1;
        }
    }
}

/// The bodies as one integrator pass with delta `d` leaves them: every
/// position advanced by velocity times `d`, everything else kept.
pub open spec fn integrated(s: Seq<Body>, d: int) -> Seq<Body> {
    Seq::new(
        s.len(),
        |i: int|
            Body {
                position: Position {
                    x: (s[i].position.x + s[i].velocity.x * d) as i64,
                    y: (s[i].position.y + s[i].velocity.y * d) as i64,
                },
                velocity: s[i].velocity,
                radius: s[i].radius,
                color: s[i].color,
            },
    )
}

/// The sum of a sequence of tick deltas.
pub open spec fn sum_deltas(ds: Seq<int>) -> int
    decreases ds.len(),
{
    if ds.len() == 0 {
        0
    } else {
        ds[0] + sum_deltas(ds.drop_first())
    }
}

/// The value a coordinate reaches after one integrator pass per delta in
/// `ds`, starting from `p` and keeping the constant velocity `v`.
pub open spec fn iterate_position(p: int, v: int, ds: Seq<int>) -> int
    decreases ds.len(),
{
    if ds.len() == 0 {
        p
    } else {
        iterate_position(p + v * ds[0], v, ds.drop_first())
    }
}

/// Law: with constant velocity and no collisions, any number of integrator
/// ticks leaves a coordinate at its initial value plus the velocity times the
/// sum of the deltas observed over those ticks.
pub proof fn lemma_integration_accumulates(p: int, v: int, ds: Seq<int>)
    ensures
        iterate_position(p, v, ds) == p + v * sum_deltas(ds),
    decreases ds.len(),
{
    if ds.len() > 0 {
        lemma_integration_accumulates(p + v * ds[0], v, ds.drop_first());
        assert(v * (ds[0] + sum_deltas(ds.drop_first())) == v * ds[0] + v * sum_deltas(
            ds.drop_first(),
        )) by (nonlinear_arith);
    }
}

} // verus!
