use vstd::prelude::*;

use crate::forces::accumulate_pairwise;
use crate::forces::lemma_pairwise_accel_len;
use crate::forces::pairwise_accel;
use crate::forces::Forces;
use crate::particle::Particle;
use crate::scalar::Scalar;
use crate::vec2::gvec2;

verus! {

/// Bounded-source gravity: only particles below `cutoff_index` act as
/// force sources, while every particle still receives an acceleration.
/// This is the cheap variant for arrays whose tail holds the massless
/// tracers; it is only a faithful force field when the tracers are in
/// fact contiguous at the tail (the stepper's mass sort arranges that).
pub struct PartialForce {
    pub cutoff_index: usize,
}

impl PartialForce {
    pub fn new(cutoff_index: usize) -> (r: Self)
        ensures
            r == (PartialForce { cutoff_index }),
    {
        PartialForce { cutoff_index }
    }
}

/// The source bound a `PartialForce` actually uses on an array of `n`
/// particles: its cutoff index, capped at `n`.
pub open spec fn capped_cutoff(cutoff_index: usize, n: nat) -> int {
    if cutoff_index <= n {
        cutoff_index as int
    } else {
        n as int
    }
}

impl<S: Scalar> Forces<S> for PartialForce {
    open spec fn accel_spec(&self, pm: Seq<(gvec2<S>, S)>) -> Seq<gvec2<S>> {
        pairwise_accel(pm, capped_cutoff(self.cutoff_index, pm.len()))
    }

    proof fn accel_spec_len(&self, pm: Seq<(gvec2<S>, S)>) {
        lemma_pairwise_accel_len(pm, capped_cutoff(self.cutoff_index, pm.len()));
    }

    fn set_accel(&self, particles: &Vec<Particle<S>>, acc: &mut Vec<gvec2<S>>) {
        let n = particles.len();
        let lim = if self.cutoff_index <= n {
            self.cutoff_index
        } else {
            n
        };
        accumulate_pairwise(particles, acc, lim);
    }
}

} // verus!
