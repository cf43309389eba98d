//! Mathematical model of the simulation.
//!
//! The ghost types mirror the executable data types with unbounded integer
//! coordinates, and the spec functions below give the exact meaning of one
//! tick of the engine: boundary reflection, the pairwise proximity sweep in
//! ascending index order, and kinematic integration.

use vstd::prelude::*;

verus! {

/// Largest arena dimension the engine accepts. Together with `VEL_MAX` it
/// keeps every intermediate value of the update algorithm well inside `i64`.
pub const DIM_MAX: i64 = 1_000_000;

/// Largest velocity component magnitude the engine tracks.
pub const VEL_MAX: i64 = 1_000_000;

/// Two particles interact when their distance is at most 20 units; distances
/// are compared on squares, which is exact over integers.
pub const INTERACTION_RADIUS_SQ: i64 = 400;

/// Model of a `Vector`: a point or velocity of the plane.
pub ghost struct VectorModel {
    pub x: int,
    pub y: int,
}

/// Model of a `Particle`: a position and a velocity.
pub ghost struct ParticleModel {
    pub position: VectorModel,
    pub velocity: VectorModel,
}

/// Model of an `Environment`: the particles in sweep order and the arena.
pub ghost struct EnvModel {
    pub particles: Seq<ParticleModel>,
    pub width: int,
    pub height: int,
}

pub open spec fn vadd(a: VectorModel, b: VectorModel) -> VectorModel {
    VectorModel { x: a.x + b.x, y: a.y + b.y }
}

/// Squared Euclidean distance between two points.
pub open spec fn dist_sq(a: VectorModel, b: VectorModel) -> int {
    (a.x - b.x) * (a.x - b.x) + (a.y - b.y) * (a.y - b.y)
}

/// Velocity components small enough to negate and add without overflow.
pub open spec fn vel_ok(v: VectorModel) -> bool {
    &&& -(VEL_MAX as int) <= v.x <= VEL_MAX as int
    &&& -(VEL_MAX as int) <= v.y <= VEL_MAX as int
}

/// A position at most one step away from the arena `[0, w] x [0, h]`.
pub open spec fn pos_ok(p: VectorModel, w: int, h: int) -> bool {
    &&& -(VEL_MAX as int) <= p.x <= w + VEL_MAX as int
    &&& -(VEL_MAX as int) <= p.y <= h + VEL_MAX as int
}

pub open spec fn particle_wf(p: ParticleModel, w: int, h: int) -> bool {
    vel_ok(p.velocity) && pos_ok(p.position, w, h)
}

/// Well-formed simulation state: a positive, bounded arena whose particles
/// all sit within one step of it with bounded velocities. Established by the
/// constructors and preserved by every tick.
pub open spec fn env_wf(e: EnvModel) -> bool {
    &&& 0 < e.width <= DIM_MAX as int
    &&& 0 < e.height <= DIM_MAX as int
    &&& forall|i: int|
        0 <= i < e.particles.len() ==> particle_wf(#[trigger] e.particles[i], e.width, e.height)
}

/// What construction draws for each particle: a position uniformly from
/// `[1, w) x [1, h)` (a one-unit margin at the low edges, the high edge
/// excluded) and velocity components from `[-10, 10)`.
pub open spec fn freshly_drawn(p: ParticleModel, w: int, h: int) -> bool {
    &&& 1 <= p.position.x < w
    &&& 1 <= p.position.y < h
    &&& -10 <= p.velocity.x < 10
    &&& -10 <= p.velocity.y < 10
}

/// A position strictly inside the arena; such a particle is not reflected.
pub open spec fn strictly_inside(p: VectorModel, w: int, h: int) -> bool {
    0 < p.x < w && 0 < p.y < h
}

/// Reflection at the high-x wall: clamp to `w`, negate the x-velocity.
pub open spec fn reflect_x_high(p: ParticleModel, w: int) -> ParticleModel {
    if p.position.x >= w {
        ParticleModel {
            position: VectorModel { x: w, y: p.position.y },
            velocity: VectorModel { x: -p.velocity.x, y: p.velocity.y },
        }
    } else {
        p
    }
}

/// Reflection at the low-x wall: clamp to `0`, negate the x-velocity.
pub open spec fn reflect_x_low(p: ParticleModel) -> ParticleModel {
    if p.position.x <= 0 {
        ParticleModel {
            position: VectorModel { x: 0, y: p.position.y },
            velocity: VectorModel { x: -p.velocity.x, y: p.velocity.y },
        }
    } else {
        p
    }
}

/// Reflection at the high-y wall: clamp to `h`, negate the y-velocity.
pub open spec fn reflect_y_high(p: ParticleModel, h: int) -> ParticleModel {
    if p.position.y >= h {
        ParticleModel {
            position: VectorModel { x: p.position.x, y: h },
            velocity: VectorModel { x: p.velocity.x, y: -p.velocity.y },
        }
    } else {
        p
    }
}

/// Reflection at the low-y wall: clamp to `0`, negate the y-velocity.
pub open spec fn reflect_y_low(p: ParticleModel) -> ParticleModel {
    if p.position.y <= 0 {
        ParticleModel {
            position: VectorModel { x: p.position.x, y: 0 },
            velocity: VectorModel { x: p.velocity.x, y: -p.velocity.y },
        }
    } else {
        p
    }
}

/// Boundary reflection, the four wall checks in the engine's order; each
/// check inspects the position left by the previous one.
pub open spec fn reflect(p: ParticleModel, w: int, h: int) -> ParticleModel {
    reflect_y_low(reflect_y_high(reflect_x_low(reflect_x_high(p, w)), h))
}

/// One kinematic step: position += velocity, with an implicit unit time-step.
pub open spec fn integrate(p: ParticleModel) -> ParticleModel {
    ParticleModel { position: vadd(p.position, p.velocity), velocity: p.velocity }
}

/// Particles `i` and `j` trade velocity vectors; positions are untouched.
pub open spec fn swap_velocities(s: Seq<ParticleModel>, i: int, j: int) -> Seq<ParticleModel> {
    s.update(i, ParticleModel { position: s[i].position, velocity: s[j].velocity }).update(
        j,
        ParticleModel { position: s[j].position, velocity: s[i].velocity },
    )
}

/// The inner proximity sweep for particle `i`: partners `x`, `x + 1`, ...,
/// `n - 1` in that order, each within the interaction radius of the current
/// position of `i` trading velocities with it at once, so a later pair sees
/// the already-swapped velocity of `i`.
pub open spec fn sweep_upto(s: Seq<ParticleModel>, i: int, x: int, n: int) -> Seq<ParticleModel>
    decreases n - x,
{
    if x < n {
        let s1 = if dist_sq(s[x].position, s[i].position) <= INTERACTION_RADIUS_SQ as int {
            swap_velocities(s, i, x)
        } else {
            s
        };
        sweep_upto(s1, i, x + 1, n)
    } else {
        s
    }
}

/// The outer pass from index `i` up to `n`: reflect particle `i`, sweep its
/// higher-indexed partners, integrate it, then move to `i + 1` on the
/// already-mutated state.
pub open spec fn tick_upto(s: Seq<ParticleModel>, w: int, h: int, i: int, n: int) -> Seq<
    ParticleModel,
>
    decreases n - i,
{
    if i < n {
        let s1 = s.update(i, reflect(s[i], w, h));
        let s2 = sweep_upto(s1, i, i + 1, n);
        let s3 = s2.update(i, integrate(s2[i]));
        tick_upto(s3, w, h, i + 1, n)
    } else {
        s
    }
}

/// One whole tick of the engine over a particle sequence.
pub open spec fn arena_tick(s: Seq<ParticleModel>, w: int, h: int) -> Seq<ParticleModel> {
    tick_upto(s, w, h, 0, s.len() as int)
}

} // verus!
