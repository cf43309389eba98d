use gas_simulation::environment::Environment;
use gas_simulation::particle::Particle;
use gas_simulation::vector::{Rect, Vector};

fn part(px: i64, py: i64, vx: i64, vy: i64) -> Particle {
    Particle::new(Vector::new(px, py), Vector::new(vx, vy))
}

#[test]
fn vector_add_sub() {
    let a = Vector::new(3, 4);
    let b = Vector::new(-1, 10);
    assert_eq!(a.add(b), Vector::new(2, 14));
    assert_eq!(a.sub(b), Vector::new(4, -6));
}

#[test]
fn vector_norm_sq() {
    assert_eq!(Vector::new(3, 4).norm_sq(), 25);
    assert_eq!(Vector::new(0, 0).norm_sq(), 0);
    assert_eq!(Vector::new(-20, 0).norm_sq(), 400);
}

#[test]
fn vector_to_rect() {
    let r = Vector::new(7, 9).to_rect();
    assert_eq!(r, Rect { x: 7, y: 9, w: 10, h: 10 });
}

#[test]
fn particle_step() {
    let mut q = part(10, 20, 3, -4);
    q.update();
    assert_eq!(q.position, Vector::new(13, 16));
    assert_eq!(q.velocity, Vector::new(3, -4));
}

#[test]
fn reflection_sign_flip_high_x() {
    // One tick carries the particle past the wall; the next tick clamps it
    // to the wall, negates the x-velocity, then integrates.
    let mut env = Environment::from_particles(100, 100, vec![part(99, 50, 5, 0)]);
    env.update();
    assert_eq!(env.particle_at(0).position, Vector::new(104, 50));
    assert_eq!(env.particle_at(0).velocity, Vector::new(5, 0));
    env.update();
    assert_eq!(env.particle_at(0).velocity, Vector::new(-5, 0));
    assert_eq!(env.particle_at(0).position, Vector::new(95, 50));
}

#[test]
fn reflection_sign_flip_low_x() {
    let mut env = Environment::from_particles(100, 100, vec![part(1, 50, -5, 0)]);
    env.update();
    assert_eq!(env.particle_at(0).position, Vector::new(-4, 50));
    env.update();
    assert_eq!(env.particle_at(0).velocity, Vector::new(5, 0));
    assert_eq!(env.particle_at(0).position, Vector::new(5, 50));
}

#[test]
fn corner_double_reflection() {
    let mut env = Environment::from_particles(100, 100, vec![part(100, 100, 3, 4)]);
    env.update();
    assert_eq!(env.particle_at(0).velocity, Vector::new(-3, -4));
    assert_eq!(env.particle_at(0).position, Vector::new(97, 96));
}

#[test]
fn proximity_swap() {
    let mut env = Environment::from_particles(
        100,
        100,
        vec![part(50, 50, 1, 0), part(55, 50, 0, 1)],
    );
    env.update();
    assert_eq!(env.particle_at(0).velocity, Vector::new(0, 1));
    assert_eq!(env.particle_at(1).velocity, Vector::new(1, 0));
    assert_eq!(env.particle_at(0).position, Vector::new(50, 51));
    assert_eq!(env.particle_at(1).position, Vector::new(56, 50));
}

#[test]
fn swap_at_low_edges() {
    // Both low-edge walls fire for the first particle before the swap, so
    // the second particle receives the already-reflected velocity.
    let mut env = Environment::from_particles(
        100,
        100,
        vec![part(0, 0, 1, 0), part(5, 0, 0, 1)],
    );
    env.update();
    assert_eq!(env.particle_at(0).velocity, Vector::new(0, 1));
    assert_eq!(env.particle_at(0).position, Vector::new(0, 1));
    assert_eq!(env.particle_at(1).velocity, Vector::new(-1, 0));
    assert_eq!(env.particle_at(1).position, Vector::new(4, 0));
}

#[test]
fn no_swap_beyond_radius() {
    let mut env = Environment::from_particles(
        100,
        100,
        vec![part(10, 10, 1, 2), part(40, 50, -1, 0)],
    );
    env.update();
    assert_eq!(env.particle_at(0).velocity, Vector::new(1, 2));
    assert_eq!(env.particle_at(0).position, Vector::new(11, 12));
    assert_eq!(env.particle_at(1).velocity, Vector::new(-1, 0));
    assert_eq!(env.particle_at(1).position, Vector::new(39, 50));
}

#[test]
fn radius_boundary_inclusive() {
    // Distance exactly 20: the pair still trades velocities.
    let mut env = Environment::from_particles(
        100,
        100,
        vec![part(10, 10, 1, 0), part(30, 10, 0, 2)],
    );
    env.update();
    assert_eq!(env.particle_at(0).velocity, Vector::new(0, 2));
    assert_eq!(env.particle_at(1).velocity, Vector::new(1, 0));
    assert_eq!(env.particle_at(0).position, Vector::new(10, 12));
    assert_eq!(env.particle_at(1).position, Vector::new(31, 10));
}

#[test]
fn isolated_particle_integrates() {
    let mut env = Environment::from_particles(100, 100, vec![part(50, 50, 3, -4)]);
    env.update();
    assert_eq!(env.particle_at(0).position, Vector::new(53, 46));
    assert_eq!(env.particle_at(0).velocity, Vector::new(3, -4));
}

#[test]
fn sequential_sweep_order() {
    // Swaps ripple left to right within one tick: the third pair sees the
    // velocity the first swap already gave particle 0.
    let mut env = Environment::from_particles(
        500,
        500,
        vec![part(50, 50, 1, 1), part(55, 50, 2, 2), part(60, 50, 3, 3)],
    );
    env.update();
    assert_eq!(env.particle_at(0).velocity, Vector::new(3, 3));
    assert_eq!(env.particle_at(1).velocity, Vector::new(2, 2));
    assert_eq!(env.particle_at(2).velocity, Vector::new(1, 1));
    assert_eq!(env.particle_at(0).position, Vector::new(53, 53));
    assert_eq!(env.particle_at(1).position, Vector::new(57, 52));
    assert_eq!(env.particle_at(2).position, Vector::new(61, 51));
}

#[test]
fn particle_count_invariant() {
    let mut env = Environment::new(500, 500, 50);
    assert_eq!(env.len(), 50);
    for _ in 0..5 {
        env.update();
        assert_eq!(env.len(), 50);
        assert_eq!(env.render().len(), 50);
    }
}

#[test]
fn empty_environment() {
    let mut env = Environment::new(500, 500, 0);
    assert_eq!(env.len(), 0);
    env.update();
    assert_eq!(env.len(), 0);
    assert_eq!(env.render().len(), 0);
}

#[test]
fn new_draws_in_ranges() {
    let env = Environment::new(300, 500, 100);
    for i in 0..100 {
        let q = env.particle_at(i);
        assert!(1 <= q.position.x && q.position.x < 500);
        assert!(1 <= q.position.y && q.position.y < 300);
        assert!(-10 <= q.velocity.x && q.velocity.x < 10);
        assert!(-10 <= q.velocity.y && q.velocity.y < 10);
    }
}

#[test]
fn determinism_from_fixed_particles() {
    let make = || {
        Environment::from_particles(
            200,
            200,
            vec![
                part(12, 30, 4, -2),
                part(20, 35, -3, 3),
                part(150, 90, 9, 9),
                part(199, 1, 5, -5),
                part(60, 60, 0, 0),
            ],
        )
    };
    let mut a = make();
    let mut b = make();
    for _ in 0..10 {
        a.update();
        b.update();
        for i in 0..5 {
            assert_eq!(a.particle_at(i), b.particle_at(i));
        }
    }
}

#[test]
fn render_boxes_follow_positions() {
    let env = Environment::from_particles(100, 100, vec![part(7, 9, 1, 1), part(0, 100, -2, 3)]);
    let boxes = env.render();
    assert_eq!(boxes.len(), 2);
    assert_eq!(boxes[0], Rect { x: 7, y: 9, w: 10, h: 10 });
    assert_eq!(boxes[1], Rect { x: 0, y: 100, w: 10, h: 10 });
}
