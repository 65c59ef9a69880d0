//! The collision resolver: detects body-body overlap and body-wall crossings,
//! responds by velocity reflection, and, when collision-coloring is enabled,
//! repaints every body involved in a collision with a fresh random color.
//!
//! Detection is exhaustive pairwise over current positions, once per tick:
//! there is no swept or continuous detection, so fast bodies may tunnel. That
//! is an accepted approximation, inherited from the simulator's design.

use vstd::prelude::*;
use rand::Rng;
use crate::components::Body;
use crate::components::Color;
use crate::components::Position;
use crate::components::Radius;
use crate::components::SimType;
use crate::components::Velocity;
use crate::components::WorldBounds;
use crate::components::body_ok;
use crate::components::has_valid_color;
use crate::components::position_ok;
use crate::components::radius_ok;

verus! {

/// The square of a coordinate-like quantity.
pub open spec fn sq(a: int) -> int {
    a * a
}

/// The circle-circle overlap test: two bodies overlap iff the squared
/// distance between their centers is at most the square of the sum of their
/// radii. Coincident bodies count as overlapping (`<=`, not `<`).
pub open spec fn overlaps(rad_one: Radius, pos_one: Position, rad_two: Radius, pos_two: Position) -> bool {
    sq(pos_two.x - pos_one.x) + sq(pos_two.y - pos_one.y) <= sq(rad_one.0 + rad_two.0)
}

/// Law: the overlap test is symmetric in the two bodies.
pub proof fn lemma_overlap_symmetric(rad_one: Radius, pos_one: Position, rad_two: Radius, pos_two: Position)
    ensures
        overlaps(rad_one, pos_one, rad_two, pos_two) == overlaps(rad_two, pos_two, rad_one, pos_one),
{
    assert((pos_two.x - pos_one.x) * (pos_two.x - pos_one.x) == (pos_one.x - pos_two.x) * (
    pos_one.x - pos_two.x)) by (nonlinear_arith);
    assert((pos_two.y - pos_one.y) * (pos_two.y - pos_one.y) == (pos_one.y - pos_two.y) * (
    pos_one.y - pos_two.y)) by (nonlinear_arith);
}

/// The executable overlap test. Coordinate bounds keep every intermediate
/// product within `i64`.
pub fn ball_collision_check(rad_one: &Radius, pos_one: &Position, rad_two: &Radius, pos_two: &Position) -> (r: bool)
    requires
        radius_ok(*rad_one),
        radius_ok(*rad_two),
        position_ok(*pos_one),
        position_ok(*pos_two),
    ensures
        r == overlaps(*rad_one, *pos_one, *rad_two, *pos_two),
{
    let dx = pos_two.x - pos_one.x;
    let dy = pos_two.y - pos_one.y;
    let rr = rad_one.0 + rad_two.0;
    proof {
        assert(0 <= dx * dx <= 4_000_000_000_000_000_000) by (nonlinear_arith)
            requires
                -2_000_000_000 <= dx <= 2_000_000_000,
        ;
        assert(0 <= dy * dy <= 4_000_000_000_000_000_000) by (nonlinear_arith)
            requires
                -2_000_000_000 <= dy <= 2_000_000_000,
        ;
        assert(0 <= rr * rr <= 4_000_000_000_000_000_000) by (nonlinear_arith)
            requires
                -2_000_000_000 <= rr <= 2_000_000_000,
        ;
    }
    dx * dx + dy * dy <= rr * rr
}

/// The body at `p` lies beyond the left or right wall of the room.
pub open spec fn wall_x(p: Position, b: WorldBounds) -> bool {
    p.x < 0 || p.x > b.x
}

/// The body at `p` lies beyond the bottom or top wall of the room.
pub open spec fn wall_y(p: Position, b: WorldBounds) -> bool {
    p.y < 0 || p.y > b.y
}

/// The partner the pair scan of body `i` finds, scanning indices `j`,
/// `j + 1`, ... in registry order: the first index other than `i` whose body
/// overlaps body `i`, or `-1` if the scan runs off the end.
pub open spec fn first_partner_from(s: Seq<Body>, i: int, j: int) -> int
    decreases s.len() - j,
{
    if j >= s.len() {
        -1
    } else if j != i && overlaps(s[i].radius, s[i].position, s[j].radius, s[j].position) {
        j
    } else {
        first_partner_from(s, i, j + 1)
    }
}

/// The first partner body `i`'s full pair scan finds, or `-1` if none.
pub open spec fn first_partner(s: Seq<Body>, i: int) -> int {
    first_partner_from(s, i, 0)
}

/// Body `i`'s pair scan detects a collision.
pub open spec fn pair_hit(s: Seq<Body>, i: int) -> bool {
    first_partner(s, i) >= 0
}

/// The x velocity body `i` leaves the resolver with, given the bodies as the
/// resolver found them: negated once if the pair scan hit, and once more if
/// the body lies beyond a vertical wall.
pub open spec fn resolved_velocity_x(s: Seq<Body>, i: int, b: WorldBounds) -> int {
    if pair_hit(s, i) != wall_x(s[i].position, b) {
        -(s[i].velocity.x as int)
    } else {
        s[i].velocity.x as int
    }
}

/// The y velocity body `i` leaves the resolver with: negated once if the pair
/// scan hit, and once more if the body lies beyond a horizontal wall.
pub open spec fn resolved_velocity_y(s: Seq<Body>, i: int, b: WorldBounds) -> int {
    if pair_hit(s, i) != wall_y(s[i].position, b) {
        -(s[i].velocity.y as int)
    } else {
        s[i].velocity.y as int
    }
}

/// Law: a double reflection restores the velocity. If a body's pair scan hits
/// in two consecutive resolver passes — two overlapping ticks with no
/// intervening separation — and it stays inside the walls, the second pass
/// returns the velocity to its original sign, since each reflection negates
/// both axes.
pub proof fn lemma_double_reflection(s1: Seq<Body>, s2: Seq<Body>, b: WorldBounds, i: int)
    requires
        0 <= i < s1.len(),
        0 <= i < s2.len(),
        s2[i].velocity.x == resolved_velocity_x(s1, i, b),
        s2[i].velocity.y == resolved_velocity_y(s1, i, b),
        pair_hit(s1, i),
        pair_hit(s2, i),
        !wall_x(s1[i].position, b),
        !wall_y(s1[i].position, b),
        !wall_x(s2[i].position, b),
        !wall_y(s2[i].position, b),
    ensures
        resolved_velocity_x(s2, i, b) == s1[i].velocity.x,
        resolved_velocity_y(s2, i, b) == s1[i].velocity.y,
{
}

/// Law: wall containment tendency. A body whose pair scan found nothing
/// reverses exactly the axis components whose walls it lies beyond; the
/// others keep their sign. The resolver never moves a body, so the position
/// is not clamped back inside the room.
pub proof fn lemma_wall_reflection(s: Seq<Body>, b: WorldBounds, i: int)
    requires
        0 <= i < s.len(),
        !pair_hit(s, i),
    ensures
        wall_x(s[i].position, b) ==> resolved_velocity_x(s, i, b) == -(s[i].velocity.x as int),
        !wall_x(s[i].position, b) ==> resolved_velocity_x(s, i, b) == s[i].velocity.x as int,
        wall_y(s[i].position, b) ==> resolved_velocity_y(s, i, b) == -(s[i].velocity.y as int),
        !wall_y(s[i].position, b) ==> resolved_velocity_y(s, i, b) == s[i].velocity.y as int,
{
}

/// Body `e` took part in a collision detected while scanning bodies
/// `0 .. m` in registry order: some scanner `i` among them whose pair scan
/// hit had `e` as the scanner itself or as the partner it found.
pub open spec fn involved_upto(s: Seq<Body>, e: int, m: int) -> bool
    decreases m,
{
    if m <= 0 {
        false
    } else {
        involved_upto(s, e, m - 1) || (pair_hit(s, m - 1) && (m - 1 == e || first_partner(
            s,
            m - 1,
        ) == e))
    }
}

/// Body `e` took part in some collision the full pair scan detects.
pub open spec fn involved(s: Seq<Body>, e: int) -> bool {
    involved_upto(s, e, s.len() as int)
}

/// A scan that found no partner at or after `j` reports `-1`.
proof fn lemma_no_partner_from(s: Seq<Body>, i: int, j: int)
    requires
        0 <= j <= s.len(),
        forall|k: int| j <= k < s.len() ==> k == i || !overlaps(
            s[i].radius,
            s[i].position,
            (#[trigger] s[k]).radius,
            s[k].position,
        ),
    ensures
        first_partner_from(s, i, j) == -1,
    decreases s.len() - j,
{
    if j < s.len() {
        lemma_no_partner_from(s, i, j + 1);
    }
}

/// A scan whose first overlapping index at or after `j` is `p` reports `p`.
proof fn lemma_partner_found_from(s: Seq<Body>, i: int, j: int, p: int)
    requires
        0 <= j <= p < s.len(),
        p != i,
        overlaps(s[i].radius, s[i].position, s[p].radius, s[p].position),
        forall|k: int| j <= k < p ==> k == i || !overlaps(
            s[i].radius,
            s[i].position,
            (#[trigger] s[k]).radius,
            s[k].position,
        ),
    ensures
        first_partner_from(s, i, j) == p,
    decreases p - j,
{
    if j < p {
        lemma_partner_found_from(s, i, j + 1, p);
    }
}

/// Thread-local random number generator of the rand crate; declared so that
/// verified code can hold one while drawing the random color channels.
#[verifier::external_type_specification]
#[verifier::external_body]
pub struct ExThreadRng(rand::rngs::ThreadRng);

/// Relies on rand::thread_rng: hands out the thread-local generator. Nothing
/// is promised of the value; what matters is only what gen_range returns.
#[verifier::external_body]
fn fresh_rng() -> rand::rngs::ThreadRng {
    rand::thread_rng()
}

/// Relies on Rng::gen_range, which returns a uniformly random value in the
/// given range and panics only when the range is empty.
#[verifier::external_body]
fn gen_range_i64(rng: &mut rand::rngs::ThreadRng, lo: i64, hi: i64) -> (r: i64)
    requires
        lo < hi,
    ensures
        lo <= r < hi,
{
    rng.gen_range(lo..hi)
}

/// The collision resolver stage.
pub struct BallCollisionCheck;

impl BallCollisionCheck {
    /// One resolver pass over the bodies as the integrator left them.
    ///
    /// For each body, in registry order: scan all bodies in registry order
    /// and, at the first other body it overlaps, negate both components of
    /// its velocity and stop scanning; afterwards, negate the x component
    /// (again) if the body lies beyond a vertical wall, and the y component
    /// if beyond a horizontal wall. Positions are never touched, so a body
    /// beyond a wall is not clamped back inside the room.
    ///
    /// When collision-coloring is enabled, every body involved in a detected
    /// collision — as scanner or as the partner found — ends the pass with a
    /// fresh color whose channels are byte values; all other colors are kept.
    /// With coloring disabled no color is touched.
    #[verifier::loop_isolation(false)]
    pub fn run(&self, bodies: &mut Vec<Body>, bounds: &WorldBounds, sim_type: &SimType)
        requires
            forall|i: int| 0 <= i < old(bodies)@.len() ==> body_ok(#[trigger] old(bodies)@[i]),
        ensures
            final(bodies)@.len() == old(bodies)@.len(),
            forall|i: int| 0 <= i < old(bodies)@.len() ==> {
                &&& (#[trigger] final(bodies)@[i]).position == old(bodies)@[i].position
                &&& final(bodies)@[i].radius == old(bodies)@[i].radius
                &&& final(bodies)@[i].velocity.x == resolved_velocity_x(old(bodies)@, i, *bounds)
                &&& final(bodies)@[i].velocity.y == resolved_velocity_y(old(bodies)@, i, *bounds)
            },
            !sim_type.collisions ==> forall|i: int| 0 <= i < old(bodies)@.len()
                ==> (#[trigger] final(bodies)@[i]).color == old(bodies)@[i].color,
            sim_type.collisions ==> forall|i: int| 0 <= i < old(bodies)@.len() ==> {
                &&& (involved(old(bodies)@, i) ==> has_valid_color((#[trigger] final(bodies)@[i]).color))
                &&& (!involved(old(bodies)@, i) ==> final(bodies)@[i].color == old(bodies)@[i].color)
            },
    {
        let ghost s = old(bodies)@;
        let n = bodies.len();

        // Recoloring intents, collected during the read-only scan and applied
        // only after the whole population has been scanned, so that detection
        // is decoupled from mutation.
        let mut mark: Vec<bool> = Vec::new();
        while mark.len() < n
            invariant
                mark@.len() <= n,
                forall|e: int| 0 <= e < mark@.len() ==> !(#[trigger] mark@[e]),
            decreases n - mark@.len(),
        {
            mark.push(false);
        }

        let mut i: usize = 0;
        while i < n
            invariant
                i <= n,
                bodies@.len() == n,
                mark@.len() == n,
                forall|k: int| 0 <= k < n ==> {
                    &&& (#[trigger] bodies@[k]).position == s[k].position
                    &&& bodies@[k].radius == s[k].radius
                    &&& bodies@[k].color == s[k].color
                },
                forall|k: int| i <= k < n ==> (#[trigger] bodies@[k]).velocity == s[k].velocity,
                forall|k: int| 0 <= k < i ==> {
                    &&& (#[trigger] bodies@[k]).velocity.x == resolved_velocity_x(s, k, *bounds)
                    &&& bodies@[k].velocity.y == resolved_velocity_y(s, k, *bounds)
                },
                sim_type.collisions ==> forall|e: int| 0 <= e < n ==> #[trigger] mark@[e]
                    == involved_upto(s, e, i as int),
                !sim_type.collisions ==> forall|e: int| 0 <= e < n ==> !(#[trigger] mark@[e]),
            decreases n - i,
        {
            let bi = bodies[i];
            proof {
                assert(bi == s[i as int]);
            }

            // The pair scan: find the first other body that overlaps body i.
            let mut j: usize = 0;
            let mut found = false;
            while j < n && !found
                invariant
                    j <= n,
                    found ==> j < n && j != i && overlaps(
                        s[i as int].radius,
                        s[i as int].position,
                        s[j as int].radius,
                        s[j as int].position,
                    ),
                    forall|k: int| 0 <= k < j ==> k == i as int || !overlaps(
                        s[i as int].radius,
                        s[i as int].position,
                        (#[trigger] s[k]).radius,
                        s[k].position,
                    ),
                decreases (if found { 0int } else { 1int }), n - j,
            {
                if j != i {
                    let bj = bodies[j];
                    if ball_collision_check(&bi.radius, &bi.position, &bj.radius, &bj.position) {
                        found = true;
                    } else {
                        j = j + 1;
                    }
                } else {
                    j = j + 1;
                }
            }

            let mut new_vel = bi.velocity;
            if found {
                proof {
                    lemma_partner_found_from(s, i as int, 0, j as int);
                }
                new_vel = Velocity { x: -new_vel.x, y: -new_vel.y };
                if sim_type.collisions {
                    mark.set(i, true);
                    mark.set(j, true);
                }
            } else {
                proof {
                    lemma_no_partner_from(s, i as int, 0);
                }
            }

            // The wall check, independent of the pair scan.
            if bi.position.x < 0 || bi.position.x > bounds.x {
                new_vel = Velocity { x: -new_vel.x, y: new_vel.y };
            }
            if bi.position.y < 0 || bi.position.y > bounds.y {
                new_vel = Velocity { x: new_vel.x, y: -new_vel.y };
            }
            bodies.set(
                i,
                Body { position: bi.position, velocity: new_vel, radius: bi.radius, color: bi.color },
            );
            i = i + 1;
        }

        // Apply the recoloring intents collected during the scan.
        if sim_type.collisions {
            let mut rng = fresh_rng();
            let mut e: usize = 0;
            while e < n
                invariant
                    e <= n,
                    bodies@.len() == n,
                    mark@.len() == n,
                    forall|k: int| 0 <= k < n ==> {
                        &&& (#[trigger] bodies@[k]).position == s[k].position
                        &&& bodies@[k].radius == s[k].radius
                        &&& bodies@[k].velocity.x == resolved_velocity_x(s, k, *bounds)
                        &&& bodies@[k].velocity.y == resolved_velocity_y(s, k, *bounds)
                    },
                    forall|k: int| e <= k < n ==> (#[trigger] bodies@[k]).color == s[k].color,
                    forall|k: int| 0 <= k < e && mark@[k] ==> has_valid_color(
                        (#[trigger] bodies@[k]).color,
                    ),
                    forall|k: int| 0 <= k < e && !mark@[k] ==> (#[trigger] bodies@[k]).color
                        == s[k].color,
                decreases n - e,
            {
                if mark[e] {
                    let cr = gen_range_i64(&mut rng, 0, 256);
                    let cb = gen_range_i64(&mut rng, 0, 256);
                    let cg = gen_range_i64(&mut rng, 0, 256);
                    let fresh = Color { r: cr as i32, b: cb as i32, g: cg as i32 };
                    let be = bodies[e];
                    bodies.set(
                        e,
                        Body {
                            position: be.position,
                            velocity: be.velocity,
                            radius: be.radius,
                            color: Some(fresh),
                        },
                    );
                }
                e = e + 1;
            }
        }
    }
}

} // verus!
