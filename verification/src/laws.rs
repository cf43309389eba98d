//! The engine's laws: properties of the tick algorithm, stated over the
//! model and proved once for every state the engine can reach.

use crate::model::{
    arena_tick, dist_sq, integrate, reflect, strictly_inside, swap_velocities, sweep_upto,
    tick_upto, vadd, ParticleModel, VectorModel, INTERACTION_RADIUS_SQ,
};
use vstd::prelude::*;

verus! {

/// Boundary containment: whatever position a particle reached, the
/// reflection phase leaves it inside the arena, clamped at the boundary and
/// not merely bounced through it: `0 <= x <= w` and `0 <= y <= h`. (The
/// integration that ends the tick then moves it by one step at most, which
/// is the `wf` bound `update` guarantees.)
pub proof fn lemma_reflection_containment(p: ParticleModel, w: int, h: int)
    requires
        0 < w,
        0 < h,
    ensures
        0 <= reflect(p, w, h).position.x <= w,
        0 <= reflect(p, w, h).position.y <= h,
{
}

/// Reflection sign flip: a particle whose x-coordinate reached `width` or
/// beyond leaves the reflection phase clamped to exactly `width` with its
/// x-velocity negated; this wall touches no y-component.
pub proof fn lemma_reflection_sign_flip(p: ParticleModel, w: int, h: int)
    requires
        0 < w,
        p.position.x >= w,
    ensures
        reflect(p, w, h).position.x == w,
        reflect(p, w, h).velocity.x == -p.velocity.x,
{
}

/// Corner double-reflection: a particle at `(width, height)` or beyond both
/// walls has both velocity components negated in the same tick, and is
/// clamped to the corner.
pub proof fn lemma_corner_double_reflection(p: ParticleModel, w: int, h: int)
    requires
        0 < w,
        0 < h,
        p.position.x >= w,
        p.position.y >= h,
    ensures
        reflect(p, w, h).position == (VectorModel { x: w, y: h }),
        reflect(p, w, h).velocity.x == -p.velocity.x,
        reflect(p, w, h).velocity.y == -p.velocity.y,
{
}

/// Proximity swap symmetry: exactly two particles, both strictly inside the
/// arena and within the interaction radius of each other, leave one tick
/// with their velocities exactly swapped; each then integrates with the
/// velocity it received.
pub proof fn lemma_proximity_swap(s: Seq<ParticleModel>, w: int, h: int)
    requires
        s.len() == 2,
        0 < w,
        0 < h,
        strictly_inside(s[0].position, w, h),
        strictly_inside(s[1].position, w, h),
        dist_sq(s[1].position, s[0].position) <= INTERACTION_RADIUS_SQ as int,
    ensures
        arena_tick(s, w, h).len() == 2,
        arena_tick(s, w, h)[0].velocity == s[1].velocity,
        arena_tick(s, w, h)[1].velocity == s[0].velocity,
        arena_tick(s, w, h)[0].position == vadd(s[0].position, s[1].velocity),
        arena_tick(s, w, h)[1].position == vadd(s[1].position, s[0].velocity),
{
    let a1 = s.update(0, reflect(s[0], w, h));
    assert(reflect(s[0], w, h) == s[0]);
    let sw = swap_velocities(a1, 0, 1);
    let a2 = sweep_upto(a1, 0, 1, 2);
    assert(dist_sq(a1[1].position, a1[0].position) <= INTERACTION_RADIUS_SQ as int);
    assert(a2 == sweep_upto(sw, 0, 2, 2));
    assert(a2 == sw);
    let a3 = a2.update(0, integrate(a2[0]));
    assert(tick_upto(s, w, h, 0, 2) == tick_upto(a3, w, h, 1, 2));
    assert(a3[1] == (ParticleModel { position: s[1].position, velocity: s[0].velocity }));
    let b1 = a3.update(1, reflect(a3[1], w, h));
    assert(reflect(a3[1], w, h) == a3[1]);
    let b2 = sweep_upto(b1, 1, 2, 2);
    assert(b2 == b1);
    let b3 = b2.update(1, integrate(b2[1]));
    assert(tick_upto(a3, w, h, 1, 2) == tick_upto(b3, w, h, 2, 2));
    assert(tick_upto(b3, w, h, 2, 2) == b3);
}

/// No swap beyond the radius: two particles strictly inside the arena at
/// distance strictly greater than the interaction radius exchange no
/// velocity in that tick; each keeps its own velocity and integrates it.
pub proof fn lemma_no_swap_beyond_radius(s: Seq<ParticleModel>, w: int, h: int)
    requires
        s.len() == 2,
        0 < w,
        0 < h,
        strictly_inside(s[0].position, w, h),
        strictly_inside(s[1].position, w, h),
        dist_sq(s[1].position, s[0].position) > INTERACTION_RADIUS_SQ as int,
    ensures
        arena_tick(s, w, h).len() == 2,
        arena_tick(s, w, h)[0].velocity == s[0].velocity,
        arena_tick(s, w, h)[1].velocity == s[1].velocity,
        arena_tick(s, w, h)[0].position == vadd(s[0].position, s[0].velocity),
        arena_tick(s, w, h)[1].position == vadd(s[1].position, s[1].velocity),
{
    let a1 = s.update(0, reflect(s[0], w, h));
    assert(reflect(s[0], w, h) == s[0]);
    let a2 = sweep_upto(a1, 0, 1, 2);
    assert(dist_sq(a1[1].position, a1[0].position) > INTERACTION_RADIUS_SQ as int);
    assert(a2 == sweep_upto(a1, 0, 2, 2));
    assert(a2 == a1);
    let a3 = a2.update(0, integrate(a2[0]));
    assert(tick_upto(s, w, h, 0, 2) == tick_upto(a3, w, h, 1, 2));
    assert(a3[1] == s[1]);
    let b1 = a3.update(1, reflect(a3[1], w, h));
    assert(reflect(a3[1], w, h) == a3[1]);
    let b2 = sweep_upto(b1, 1, 2, 2);
    assert(b2 == b1);
    let b3 = b2.update(1, integrate(b2[1]));
    assert(tick_upto(a3, w, h, 1, 2) == tick_upto(b3, w, h, 2, 2));
    assert(tick_upto(b3, w, h, 2, 2) == b3);
}

/// Integration order: a single particle strictly inside the arena, with
/// nobody to interact with, is moved by exactly its velocity and keeps that
/// velocity: the tick is plain kinematic integration.
pub proof fn lemma_isolated_particle(s: Seq<ParticleModel>, w: int, h: int)
    requires
        s.len() == 1,
        0 < w,
        0 < h,
        strictly_inside(s[0].position, w, h),
    ensures
        arena_tick(s, w, h).len() == 1,
        arena_tick(s, w, h)[0].velocity == s[0].velocity,
        arena_tick(s, w, h)[0].position == vadd(s[0].position, s[0].velocity),
{
    let a1 = s.update(0, reflect(s[0], w, h));
    assert(reflect(s[0], w, h) == s[0]);
    let a2 = sweep_upto(a1, 0, 1, 1);
    assert(a2 == a1);
    let a3 = a2.update(0, integrate(a2[0]));
    assert(tick_upto(s, w, h, 0, 1) == tick_upto(a3, w, h, 1, 1));
    assert(tick_upto(a3, w, h, 1, 1) == a3);
}

/// The proximity sweep never adds or removes a particle.
pub proof fn lemma_sweep_preserves_count(s: Seq<ParticleModel>, i: int, x: int, n: int)
    requires
        0 <= i < s.len(),
        0 <= x,
        n <= s.len(),
    ensures
        sweep_upto(s, i, x, n).len() == s.len(),
    decreases n - x,
{
    if x < n {
        let s1 = if dist_sq(s[x].position, s[i].position) <= INTERACTION_RADIUS_SQ as int {
            swap_velocities(s, i, x)
        } else {
            s
        };
        assert(s1.len() == s.len());
        lemma_sweep_preserves_count(s1, i, x + 1, n);
        assert(sweep_upto(s, i, x, n) == sweep_upto(s1, i, x + 1, n));
    }
}

/// The pass from index `i` on never adds or removes a particle.
pub proof fn lemma_pass_preserves_count(s: Seq<ParticleModel>, w: int, h: int, i: int, n: int)
    requires
        0 <= i,
        n <= s.len(),
    ensures
        tick_upto(s, w, h, i, n).len() == s.len(),
    decreases n - i,
{
    if i < n {
        let s1 = s.update(i, reflect(s[i], w, h));
        let s2 = sweep_upto(s1, i, i + 1, n);
        lemma_sweep_preserves_count(s1, i, i + 1, n);
        let s3 = s2.update(i, integrate(s2[i]));
        lemma_pass_preserves_count(s3, w, h, i + 1, n);
        assert(tick_upto(s, w, h, i, n) == tick_upto(s3, w, h, i + 1, n));
    }
}

/// Particle count invariant: a tick preserves the number of particles, so
/// the count fixed at construction holds after any number of ticks.
pub proof fn lemma_count_invariant(s: Seq<ParticleModel>, w: int, h: int)
    ensures
        arena_tick(s, w, h).len() == s.len(),
{
    lemma_pass_preserves_count(s, w, h, 0, s.len() as int);
}

} // verus!
