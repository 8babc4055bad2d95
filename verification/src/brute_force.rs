use vstd::prelude::*;

use crate::forces::accumulate_pairwise;
use crate::forces::lemma_pairwise_accel_len;
use crate::forces::pairwise_accel;
use crate::forces::Forces;
use crate::particle::Particle;
use crate::scalar::Scalar;
use crate::vec2::gvec2;

verus! {

/// Full pairwise gravity: every particle is both a source and a sink.
pub struct BruteForce();

impl BruteForce {
    pub fn new() -> (r: Self)
        ensures
            r == BruteForce(),
    {
        BruteForce()
    }
}

impl<S: Scalar> Forces<S> for BruteForce {
    open spec fn accel_spec(&self, pm: Seq<(gvec2<S>, S)>) -> Seq<gvec2<S>> {
        pairwise_accel(pm, pm.len() as int)
    }

    proof fn accel_spec_len(&self, pm: Seq<(gvec2<S>, S)>) {
        lemma_pairwise_accel_len(pm, pm.len() as int);
    }

    fn set_accel(&self, particles: &Vec<Particle<S>>, acc: &mut Vec<gvec2<S>>) {
        let lim = particles.len();
        accumulate_pairwise(particles, acc, lim);
    }
}

} // verus!
