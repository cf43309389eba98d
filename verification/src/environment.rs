//! The environment: the arena, the particles it owns, and the per-tick
//! update algorithm, which is the core of the engine.

use crate::model::{
    arena_tick, dist_sq, env_wf, freshly_drawn, integrate, particle_wf, reflect, swap_velocities,
    sweep_upto, tick_upto, vel_ok, EnvModel, DIM_MAX, INTERACTION_RADIUS_SQ,
};
use crate::particle::{lemma_seq_model_len, lemma_seq_model_update, seq_model, Particle};
use crate::vector::{Rect, Vector};
use rand::RngExt;
use vstd::prelude::*;

verus! {

/// The arena `[0, width] x [0, height]` and the particles it owns, in sweep
/// order. The environment is the sole mutator of particle state.
pub struct Environment {
    particles: Vec<Particle>,
    height: i64,
    width: i64,
}

impl View for Environment {
    type V = EnvModel;

    closed spec fn view(&self) -> EnvModel {
        EnvModel {
            particles: seq_model(self.particles@),
            width: self.width as int,
            height: self.height as int,
        }
    }
}

/// Relies on rand's `RngExt::random_range` on the thread-local generator:
/// it returns a value drawn uniformly from `[lo, hi)` and panics on an empty
/// range, which the precondition rules out. Nothing more can be promised of
/// a random draw than its range. (The generator's first use in a thread can
/// also abort if the operating system yields no seed entropy.)
#[verifier::external_body]
fn random_in_range(lo: i64, hi: i64) -> (r: i64)
    requires
        lo < hi,
    ensures
        lo <= r < hi,
{
    rand::rng().random_range(lo..hi)
}

impl Environment {
    /// Well-formed state: see `env_wf`. Established by both constructors and
    /// preserved by `update`.
    pub open spec fn wf(self) -> bool {
        env_wf(self@)
    }

    /// Creates the arena and draws `number` particles from the process-local
    /// generator: positions uniformly from `[1, width) x [1, height)` (a
    /// one-unit margin at the low edges), velocity components uniformly from
    /// `[-10, 10)`.
    pub fn new(height: i64, width: i64, number: i32) -> (r: Environment)
        requires
            1 < height <= DIM_MAX,
            1 < width <= DIM_MAX,
            0 <= number,
        ensures
            r.wf(),
            r@.width == width as int,
            r@.height == height as int,
            r@.particles.len() == number as int,
            forall|i: int|
                0 <= i < r@.particles.len() ==> freshly_drawn(
                    #[trigger] r@.particles[i],
                    width as int,
                    height as int,
                ),
    {
        let mut new_list: Vec<Particle> = Vec::new();
        let mut k: i32 = 0;
        while k < number
            invariant
                0 <= k <= number,
                1 < height <= DIM_MAX,
                1 < width <= DIM_MAX,
                new_list@.len() == k as int,
                forall|i: int|
                    0 <= i < new_list@.len() ==> freshly_drawn(
                        (#[trigger] new_list@[i])@,
                        width as int,
                        height as int,
                    ),
            decreases number - k,
        {
            let px = random_in_range(1, width);
            let py = random_in_range(1, height);
            let vx = random_in_range(-10, 10);
            let vy = random_in_range(-10, 10);
            new_list.push(Particle::new(Vector::new(px, py), Vector::new(vx, vy)));
            k = k + 1;
        }
        let r = Environment { particles: new_list, height, width };
        proof {
            assert forall|i: int| 0 <= i < r@.particles.len() implies freshly_drawn(
                #[trigger] r@.particles[i],
                width as int,
                height as int,
            ) && particle_wf(r@.particles[i], width as int, height as int) by {
                assert(r@.particles[i] == new_list@[i]@);
            }
        }
        r
    }

    /// Builds the arena around caller-supplied particles: the deterministic
    /// construction path, for a harness that draws its own values in place
    /// of the process-local generator used by `new`.
    pub fn from_particles(height: i64, width: i64, particles: Vec<Particle>) -> (r: Environment)
        requires
            0 < height <= DIM_MAX,
            0 < width <= DIM_MAX,
            forall|i: int|
                0 <= i < particles@.len() ==> particle_wf(
                    (#[trigger] particles@[i])@,
                    width as int,
                    height as int,
                ),
        ensures
            r.wf(),
            r@.width == width as int,
            r@.height == height as int,
            r@.particles == seq_model(particles@),
    {
        let r = Environment { particles, height, width };
        proof {
            assert forall|i: int| 0 <= i < r@.particles.len() implies particle_wf(
                #[trigger] r@.particles[i],
                width as int,
                height as int,
            ) by {}
        }
        r
    }

    /// The particle in slot `i`, for reading a position or velocity.
    pub fn particle_at(&self, i: usize) -> (r: Particle)
        requires
            i < self@.particles.len(),
        ensures
            r@ == self@.particles[i as int],
    {
        self.particles[i]
    }

    /// The number of particles, which construction fixes for good.
    pub fn len(&self) -> (r: usize)
        ensures
            r == self@.particles.len(),
    {
        self.particles.len()
    }

    /// One renderable bounding box per particle, in slot order: the 10 by 10
    /// square anchored at the particle's position. A presentation layer
    /// draws a sprite into each box; the engine itself assumes no windowing
    /// facility exists and can be driven headless.
    pub fn render(&self) -> (r: Vec<Rect>)
        ensures
            r@.len() == self@.particles.len(),
            forall|i: int|
                0 <= i < r@.len() ==> {
                    &&& (#[trigger] r@[i]).x == self@.particles[i].position.x
                    &&& r@[i].y == self@.particles[i].position.y
                    &&& r@[i].w == 10
                    &&& r@[i].h == 10
                },
    {
        let mut out: Vec<Rect> = Vec::new();
        let n = self.particles.len();
        let mut i: usize = 0;
        while i < n
            invariant
                i <= n,
                n == self.particles@.len(),
                out@.len() == i as int,
                forall|j: int|
                    0 <= j < i as int ==> {
                        &&& (#[trigger] out@[j]).x == self@.particles[j].position.x
                        &&& out@[j].y == self@.particles[j].position.y
                        &&& out@[j].w == 10
                        &&& out@[j].h == 10
                    },
            decreases n - i,
        {
            out.push(self.particles[i].position.to_rect());
            i = i + 1;
        }
        out
    }

    /// Advance the whole system by exactly one discrete tick. For each index
    /// `i` in ascending order: reflect particle `i` at the four walls, let it
    /// trade velocities with every higher-indexed particle within the
    /// interaction radius (in ascending order, each swap at once visible to
    /// the next pair), then integrate it. Later indices see the mutated
    /// state left by earlier ones; `arena_tick` is that algorithm, stated
    /// over the model.
    #[verifier::loop_isolation(false)]
    pub fn update(&mut self)
        requires
            old(self).wf(),
        ensures
            final(self).wf(),
            final(self)@.width == old(self)@.width,
            final(self)@.height == old(self)@.height,
            final(self)@.particles.len() == old(self)@.particles.len(),
            final(self)@.particles == arena_tick(
                old(self)@.particles,
                old(self)@.width,
                old(self)@.height,
            ),
    {
        let ghost s0 = self@.particles;
        let ghost w = self@.width;
        let ghost h = self@.height;
        let n = self.particles.len();
        let ghost nn = n as int;
        let mut i: usize = 0;
        while i < n
            invariant
                i <= n,
                n == self.particles@.len(),
                self.width == old(self).width,
                self.height == old(self).height,
                self@.width == w,
                self@.height == h,
                env_wf(self@),
                tick_upto(s0, w, h, 0, nn) == tick_upto(self@.particles, w, h, i as int, nn),
            decreases n - i,
        {
            let ghost c0 = self@.particles;
            proof {
                lemma_seq_model_len(self.particles@);
                assert(c0.len() == nn);
                assert(particle_wf(c0[i as int], w, h));
            }
            // Boundary reflection of particle i, each check against the
            // position left by the previous one.
            let mut p = self.particles[i];
            let ghost p_before = p@;
            if p.position.x >= self.width {
                p.position.x = self.width;
                p.velocity.x = -p.velocity.x;
            }
            if p.position.x <= 0 {
                p.position.x = 0;
                p.velocity.x = -p.velocity.x;
            }
            if p.position.y >= self.height {
                p.position.y = self.height;
                p.velocity.y = -p.velocity.y;
            }
            if p.position.y <= 0 {
                p.position.y = 0;
                p.velocity.y = -p.velocity.y;
            }
            proof {
                assert(p@ == reflect(p_before, w, h));
            }
            let ghost v0 = self.particles@;
            self.particles[i] = p;
            proof {
                lemma_seq_model_update(v0, i as int, p);
                assert(self@.particles == c0.update(i as int, reflect(c0[i as int], w, h)));
                assert forall|j: int| 0 <= j < nn implies particle_wf(
                    #[trigger] self@.particles[j],
                    w,
                    h,
                ) by {
                    if j != i as int {
                        assert(self@.particles[j] == c0[j]);
                        assert(particle_wf(c0[j], w, h));
                    }
                }
            }
            // The proximity sweep: particle i against each higher index.
            let ghost s1 = self@.particles;
            proof {
                lemma_seq_model_len(self.particles@);
                assert(s1.len() == nn);
            }
            let mut x: usize = i + 1;
            while x < n
                invariant
                    i < n,
                    i + 1 <= x <= n,
                    n == self.particles@.len(),
                    self.width == old(self).width,
                    self.height == old(self).height,
                    self@.width == w,
                    self@.height == h,
                    env_wf(self@),
                    forall|j: int|
                        0 <= j < nn ==> (#[trigger] self@.particles[j]).position == s1[j].position,
                    sweep_upto(s1, i as int, i as int + 1, nn) == sweep_upto(
                        self@.particles,
                        i as int,
                        x as int,
                        nn,
                    ),
                decreases n - x,
            {
                let ghost c1 = self@.particles;
                proof {
                    lemma_seq_model_len(self.particles@);
                    assert(c1.len() == nn);
                    assert(particle_wf(c1[i as int], w, h));
                    assert(particle_wf(c1[x as int], w, h));
                }
                let pix = self.particles[x];
                let pii = self.particles[i];
                let dv = pix.position.sub(pii.position);
                let dsq = dv.norm_sq();
                proof {
                    assert(dsq == dist_sq(c1[x as int].position, c1[i as int].position));
                }
                if dsq <= INTERACTION_RADIUS_SQ {
                    let mut pi2 = pii;
                    pi2.velocity = pix.velocity;
                    let mut px2 = pix;
                    px2.velocity = pii.velocity;
                    let ghost vb = self.particles@;
                    self.particles[i] = pi2;
                    let ghost vm = self.particles@;
                    self.particles[x] = px2;
                    proof {
                        lemma_seq_model_update(vb, i as int, pi2);
                        lemma_seq_model_update(vm, x as int, px2);
                        assert(self@.particles == swap_velocities(c1, i as int, x as int));
                        assert forall|j: int| 0 <= j < nn implies particle_wf(
                            #[trigger] self@.particles[j],
                            w,
                            h,
                        ) && self@.particles[j].position == s1[j].position by {
                            if j != i as int && j != x as int {
                                assert(self@.particles[j] == c1[j]);
                            }
                            assert(particle_wf(c1[j], w, h));
                        }
                    }
                }
                proof {
                    assert(sweep_upto(c1, i as int, x as int, nn) == sweep_upto(
                        self@.particles,
                        i as int,
                        x as int + 1,
                        nn,
                    ));
                }
                x = x + 1;
            }
            let ghost s2 = self@.particles;
            proof {
                lemma_seq_model_len(self.particles@);
                assert(s2.len() == nn);
                assert(sweep_upto(s2, i as int, nn, nn) == s2);
                assert(s2 == sweep_upto(s1, i as int, i as int + 1, nn));
                // Particle i still sits where reflection left it: inside the
                // arena, so the coming step cannot overflow.
                assert(s2[i as int].position == s1[i as int].position);
                assert(s1[i as int] == reflect(c0[i as int], w, h));
                assert(0 <= s2[i as int].position.x <= w && 0 <= s2[i as int].position.y <= h);
                assert(vel_ok(s2[i as int].velocity));
            }
            // Kinematic integration of particle i.
            let mut pi = self.particles[i];
            pi.update();
            let ghost vb2 = self.particles@;
            self.particles[i] = pi;
            proof {
                lemma_seq_model_update(vb2, i as int, pi);
                assert(self@.particles == s2.update(i as int, integrate(s2[i as int])));
                assert(tick_upto(c0, w, h, i as int, nn) == tick_upto(
                    self@.particles,
                    w,
                    h,
                    i as int + 1,
                    nn,
                ));
                assert forall|j: int| 0 <= j < nn implies particle_wf(
                    #[trigger] self@.particles[j],
                    w,
                    h,
                ) by {
                    if j == i as int {
                        assert(self@.particles[j] == integrate(s2[i as int]));
                    } else {
                        assert(self@.particles[j] == s2[j]);
                        assert(particle_wf(s2[j], w, h));
                    }
                }
            }
            i = i + 1;
        }
        proof {
            assert(tick_upto(self@.particles, w, h, nn, nn) == self@.particles);
            assert(s0.len() == nn);
        }
    }
}

} // verus!
