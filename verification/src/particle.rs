//! A particle: one gas molecule, a position paired with a velocity.

use crate::model::{integrate, ParticleModel};
use crate::vector::Vector;
use vstd::prelude::*;

verus! {

/// A model of a gas molecule; all of its collision is treated as elastic.
/// It has no identity beyond the slot it occupies in its environment.
#[derive(Clone, Copy, Debug, PartialEq, Eq, Structural)]
pub struct Particle {
    pub position: Vector,
    pub velocity: Vector,
}

impl View for Particle {
    type V = ParticleModel;

    open spec fn view(&self) -> ParticleModel {
        ParticleModel { position: self.position@, velocity: self.velocity@ }
    }
}

/// The models of a sequence of particles, in the same order.
pub open spec fn seq_model(s: Seq<Particle>) -> Seq<ParticleModel> {
    s.map(|i: int, p: Particle| p@)
}

pub proof fn lemma_seq_model_len(s: Seq<Particle>)
    ensures
        seq_model(s).len() == s.len(),
{
}

pub proof fn lemma_seq_model_update(s: Seq<Particle>, i: int, p: Particle)
    requires
        0 <= i < s.len(),
    ensures
        seq_model(s.update(i, p)) == seq_model(s).update(i, p@),
{
    let lhs = seq_model(s.update(i, p));
    let rhs = seq_model(s).update(i, p@);
    assert forall|j: int| 0 <= j < lhs.len() implies lhs[j] == rhs[j] by {}
    assert(lhs =~= rhs);
}

impl Particle {
    pub fn new(pos: Vector, vel: Vector) -> (r: Particle)
        ensures
            r.position == pos,
            r.velocity == vel,
    {
        Particle { position: pos, velocity: vel }
    }

    /// One kinematic step: position += velocity, with an implicit unit
    /// time-step. No clamping and no collision awareness; boundary and
    /// collision logic live entirely in the environment.
    pub fn update(&mut self)
        requires
            i64::MIN <= old(self).position.x + old(self).velocity.x <= i64::MAX,
            i64::MIN <= old(self).position.y + old(self).velocity.y <= i64::MAX,
        ensures
            final(self)@ == integrate(old(self)@),
    {
        self.position = self.position.add(self.velocity);
    }
}

} // verus!
