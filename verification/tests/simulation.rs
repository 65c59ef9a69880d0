use bouncing_balls::clock::Time;
use bouncing_balls::clock::UpdateTime;
use bouncing_balls::collision::ball_collision_check;
use bouncing_balls::components::Position;
use bouncing_balls::components::Radius;
use bouncing_balls::components::Velocity;
use bouncing_balls::world::World;

#[test]
fn clock_accumulates() {
    let mut time = Time::new(0);
    assert_eq!(time.beginning, 0);
    assert_eq!(time.last, 0);
    assert_eq!(time.total, 0);
    assert_eq!(time.delta, 0);

    let clock = UpdateTime;
    clock.run(&mut time, 5);
    assert_eq!(time.delta, 5);
    assert_eq!(time.total, 5);
    assert_eq!(time.last, 5);
    assert_eq!(time.beginning, 0);

    clock.run(&mut time, 12);
    assert_eq!(time.delta, 7);
    assert_eq!(time.total, 12);
    assert_eq!(time.last, 12);
}

#[test]
fn clock_zero_width_tick() {
    let mut time = Time::new(3);
    let clock = UpdateTime;
    clock.run(&mut time, 3);
    assert_eq!(time.delta, 0);
    assert_eq!(time.total, 0);
    assert_eq!(time.last, 3);
}

#[test]
fn integrator_position_accumulates_deltas() {
    // A single body far from every wall: after ticks whose deltas sum to 9,
    // the position is the initial position plus velocity times that sum.
    let mut w = World::new(10_000, 10_000, false, 0);
    w.add_body(
        Position { x: 100, y: 100 },
        Velocity { x: 3, y: -2 },
        Radius(1),
    );
    w.tick(2);
    w.tick(5);
    w.tick(9);
    assert_eq!(w.bodies[0].position.x, 100 + 3 * 9);
    assert_eq!(w.bodies[0].position.y, 100 - 2 * 9);
    assert_eq!(w.bodies[0].velocity, Velocity { x: 3, y: -2 });
    assert_eq!(w.time.total, 9);
    assert_eq!(w.time.delta, 4);
}

#[test]
fn overlap_test_is_symmetric() {
    let cases = [
        (Radius(5), Position { x: 0, y: 0 }, Radius(5), Position { x: 4, y: 0 }),
        (Radius(5), Position { x: 0, y: 0 }, Radius(5), Position { x: 10, y: 0 }),
        (Radius(5), Position { x: 0, y: 0 }, Radius(5), Position { x: 11, y: 0 }),
        (Radius(0), Position { x: 7, y: -3 }, Radius(0), Position { x: 7, y: -3 }),
        (Radius(2), Position { x: -5, y: 8 }, Radius(9), Position { x: 1, y: -1 }),
    ];
    for (ra, pa, rb, pb) in cases {
        assert_eq!(
            ball_collision_check(&ra, &pa, &rb, &pb),
            ball_collision_check(&rb, &pb, &ra, &pa),
        );
    }
}

#[test]
fn overlap_boundary_is_inclusive() {
    // Distance exactly equal to the radius sum counts as overlapping.
    let touching = ball_collision_check(
        &Radius(5),
        &Position { x: 0, y: 0 },
        &Radius(5),
        &Position { x: 10, y: 0 },
    );
    assert!(touching);
    let apart = ball_collision_check(
        &Radius(5),
        &Position { x: 0, y: 0 },
        &Radius(5),
        &Position { x: 11, y: 0 },
    );
    assert!(!apart);
}

#[test]
fn zero_radius_overlaps_only_at_a_point() {
    let same = ball_collision_check(
        &Radius(0),
        &Position { x: 4, y: 9 },
        &Radius(0),
        &Position { x: 4, y: 9 },
    );
    assert!(same);
    let near = ball_collision_check(
        &Radius(0),
        &Position { x: 4, y: 9 },
        &Radius(0),
        &Position { x: 5, y: 9 },
    );
    assert!(!near);
}

#[test]
fn zero_delta_moves_nothing_but_still_resolves() {
    let mut w = World::new(1_000, 1_000, false, 0);
    w.add_body(Position { x: 100, y: 100 }, Velocity { x: 3, y: 4 }, Radius(5));
    w.add_body(Position { x: 104, y: 100 }, Velocity { x: 0, y: 0 }, Radius(5));
    w.tick(0);
    assert_eq!(w.bodies[0].position, Position { x: 100, y: 100 });
    assert_eq!(w.bodies[1].position, Position { x: 104, y: 100 });
    assert_eq!(w.bodies[0].velocity, Velocity { x: -3, y: -4 });
    assert_eq!(w.bodies[1].velocity, Velocity { x: 0, y: 0 });
}

#[test]
fn double_reflection_restores_velocity() {
    // Two consecutive overlapping ticks with no intervening separation: each
    // reflection negates both axes, so the second returns the original signs.
    let mut w = World::new(1_000, 1_000, false, 0);
    w.add_body(Position { x: 100, y: 100 }, Velocity { x: 3, y: 4 }, Radius(5));
    w.add_body(Position { x: 104, y: 100 }, Velocity { x: 0, y: 0 }, Radius(5));
    w.tick(0);
    assert_eq!(w.bodies[0].velocity, Velocity { x: -3, y: -4 });
    w.tick(0);
    assert_eq!(w.bodies[0].velocity, Velocity { x: 3, y: 4 });
    assert_eq!(w.bodies[0].position, Position { x: 100, y: 100 });
}

#[test]
fn wall_reflects_without_clamping() {
    // One body with velocity 2 units/s in a room of width 5 units, starting
    // at x = 4.5 units, one tick of one second, all in tenths of a unit:
    // it ends beyond the wall at x = 6.5 units with its x velocity reversed,
    // and is not clamped back to the wall.
    let mut w = World::new(50, 50, false, 0);
    w.add_body(Position { x: 45, y: 25 }, Velocity { x: 20, y: 0 }, Radius(5));
    w.tick(1);
    assert_eq!(w.bodies[0].position.x, 65);
    assert_eq!(w.bodies[0].velocity.x, -20);
    assert_eq!(w.bodies[0].velocity.y, 0);
}

#[test]
fn wall_reflects_both_axes_in_a_corner() {
    let mut w = World::new(100, 100, false, 0);
    w.add_body(Position { x: -3, y: 105 }, Velocity { x: -1, y: 2 }, Radius(5));
    w.tick(0);
    assert_eq!(w.bodies[0].velocity, Velocity { x: 1, y: -2 });
    assert_eq!(w.bodies[0].position, Position { x: -3, y: 105 });
}

#[test]
fn negative_position_reflects_x() {
    let mut w = World::new(100, 100, false, 0);
    w.add_body(Position { x: 10, y: 50 }, Velocity { x: -20, y: 3 }, Radius(5));
    w.tick(1);
    // The body crosses the left wall to x = -10 and only then reverses.
    assert_eq!(w.bodies[0].position, Position { x: -10, y: 53 });
    assert_eq!(w.bodies[0].velocity, Velocity { x: 20, y: 3 });
}

#[test]
fn pair_collision_reflects_then_moves_apart() {
    // Two bodies of radius 0.5 units at (1, 1) and (1.4, 1), the first with
    // velocity (1, 0) units/s, in a room of size 10 units, in tenths of a
    // unit. After one tick of one second the mover stands at (2, 1), still
    // overlapping (distance 0.6 <= 1.0), so its velocity is reflected; the
    // following tick integrates with the reflected velocity.
    let mut w = World::new(100, 100, false, 0);
    w.add_body(Position { x: 10, y: 10 }, Velocity { x: 10, y: 0 }, Radius(5));
    w.add_body(Position { x: 14, y: 10 }, Velocity { x: 0, y: 0 }, Radius(5));
    w.tick(1);
    assert_eq!(w.bodies[0].position, Position { x: 20, y: 10 });
    assert_eq!(w.bodies[1].position, Position { x: 14, y: 10 });
    assert_eq!(w.bodies[0].velocity, Velocity { x: -10, y: 0 });
    assert_eq!(w.bodies[1].velocity, Velocity { x: 0, y: 0 });
    w.tick(2);
    assert_eq!(w.bodies[0].position, Position { x: 10, y: 10 });
}

#[test]
fn pair_hit_and_wall_cancel_on_one_axis() {
    // A body both overlapping a partner and beyond a vertical wall: the pair
    // reflection and the wall reflection each negate x, restoring its sign,
    // while y is negated once by the pair reflection alone.
    let mut w = World::new(100, 100, false, 0);
    w.add_body(Position { x: 103, y: 50 }, Velocity { x: 4, y: 6 }, Radius(5));
    w.add_body(Position { x: 99, y: 50 }, Velocity { x: 0, y: 0 }, Radius(5));
    w.tick(0);
    assert_eq!(w.bodies[0].velocity, Velocity { x: 4, y: -6 });
    // The partner overlaps too, but lies inside the walls: both axes flip.
    assert_eq!(w.bodies[1].velocity, Velocity { x: 0, y: 0 });
}

#[test]
fn plain_mode_never_colors() {
    let mut w = World::new(1_000, 1_000, false, 0);
    w.add_body(Position { x: 100, y: 100 }, Velocity { x: 1, y: 0 }, Radius(5));
    w.add_body(Position { x: 104, y: 100 }, Velocity { x: 0, y: 0 }, Radius(5));
    w.add_body(Position { x: 500, y: 500 }, Velocity { x: 0, y: 0 }, Radius(5));
    for _ in 0..10 {
        w.tick(0);
    }
    for body in &w.bodies {
        assert!(body.color.is_none());
    }
}

#[test]
fn coloring_mode_paints_exactly_the_bodies_involved() {
    let mut w = World::new(1_000, 1_000, true, 0);
    w.add_body(Position { x: 100, y: 100 }, Velocity { x: 50, y: 0 }, Radius(5));
    w.add_body(Position { x: 104, y: 100 }, Velocity { x: 0, y: 0 }, Radius(5));
    w.add_body(Position { x: 500, y: 500 }, Velocity { x: 0, y: 0 }, Radius(5));
    w.tick(0);
    for involved in [0, 1] {
        let color = w.bodies[involved].color.expect("collided body must be colored");
        assert!((0..=255).contains(&color.r));
        assert!((0..=255).contains(&color.g));
        assert!((0..=255).contains(&color.b));
    }
    assert!(w.bodies[2].color.is_none());

    // The collision also reflected body 0 to velocity (-50, 0); the next tick
    // separates the pair, and the colors of uninvolved bodies are kept as
    // they are.
    let kept0 = w.bodies[0].color;
    let kept1 = w.bodies[1].color;
    w.tick(1);
    assert_eq!(w.bodies[0].position, Position { x: 50, y: 100 });
    assert_eq!(w.bodies[0].color, kept0);
    assert_eq!(w.bodies[1].color, kept1);
    assert!(w.bodies[2].color.is_none());
}

#[test]
fn handles_are_creation_order_indices() {
    let mut w = World::new(100, 100, false, 0);
    let a = w.add_body(Position { x: 10, y: 10 }, Velocity { x: 0, y: 0 }, Radius(1));
    let b = w.add_body(Position { x: 20, y: 10 }, Velocity { x: 0, y: 0 }, Radius(1));
    let c = w.add_body(Position { x: 30, y: 10 }, Velocity { x: 0, y: 0 }, Radius(1));
    assert_eq!((a, b, c), (0, 1, 2));
    assert_eq!(w.bodies.len(), 3);
    assert_eq!(w.bodies[b].position, Position { x: 20, y: 10 });
}

#[test]
fn empty_world_ticks() {
    let mut w = World::new(10, 10, true, 0);
    w.tick(1);
    w.tick(4);
    assert_eq!(w.bodies.len(), 0);
    assert_eq!(w.time.total, 4);
}
