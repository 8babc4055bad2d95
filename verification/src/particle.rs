use vstd::prelude::*;

use crate::vec2::gvec2;
use crate::scalar::Scalar;

verus! {

/// A point mass: position, velocity and mass.
///
/// Mass may be the additive identity (a "tracer" that exerts no force
/// but is still acted upon).
#[derive(Clone, Copy, PartialEq, Debug)]
pub struct Particle<S> {
    pub pos: gvec2<S>,
    pub vel: gvec2<S>,
    pub mass: S,
}

impl<S: Scalar> Particle<S> {
    pub fn new(mass: S, pos: gvec2<S>, vel: gvec2<S>) -> (r: Self)
        ensures
            r == (Particle { mass, pos, vel }),
    {
        Self { mass, pos, vel }
    }
}

/// Masses never increase along the sequence: each particle's mass is
/// not less than its successor's.
pub open spec fn masses_descending<S: Scalar>(s: Seq<Particle<S>>) -> bool {
    forall|k: int|
        0 <= k < s.len() - 1 ==> !(#[trigger] s[k]).mass.lt_spec(s[k + 1].mass)
}

/// In a mass-descending sequence, no earlier mass is less than a later
/// one.
pub proof fn lemma_descending_pairwise<S: Scalar>(s: Seq<Particle<S>>, i: int, j: int)
    requires
        masses_descending(s),
        0 <= i <= j < s.len(),
    ensures
        !s[i].mass.lt_spec(s[j].mass),
    decreases j - i,
{
    if i == j {
        S::lt_irreflexive(s[i].mass);
    } else {
        lemma_descending_pairwise(s, i, j - 1);
        S::nlt_transitive(s[i].mass, s[j - 1].mass, s[j].mass);
    }
}

/// The mass-sort / cutoff law: in a mass-descending sequence whose
/// masses are each either the identity or above it, the first
/// identity-mass index splits the sequence exactly — everything before
/// it has positive mass, everything at or beyond it has mass exactly
/// the identity.
pub proof fn lemma_cutoff_contiguous<S: Scalar>(s: Seq<Particle<S>>, c: int)
    requires
        masses_descending(s),
        0 <= c <= s.len(),
        forall|k: int| 0 <= k < c ==> (#[trigger] s[k]).mass != S::zero_spec(),
        c < s.len() ==> s[c].mass == S::zero_spec(),
        forall|k: int|
            0 <= k < s.len() ==> (#[trigger] s[k]).mass == S::zero_spec()
                || S::zero_spec().lt_spec(s[k].mass),
    ensures
        forall|k: int| 0 <= k < c ==> S::zero_spec().lt_spec((#[trigger] s[k]).mass),
        forall|k: int| c <= k < s.len() ==> (#[trigger] s[k]).mass == S::zero_spec(),
{
    assert forall|k: int| c <= k < s.len() implies (#[trigger] s[k]).mass == S::zero_spec() by {
        lemma_descending_pairwise(s, c, k);
    }
}

/// Exchange two entries of the particle vector.
fn swap_particles<S: Scalar>(v: &mut Vec<Particle<S>>, i: usize, j: usize)
    requires
        i < old(v)@.len(),
        j < old(v)@.len(),
    ensures
        final(v)@ == old(v)@.update(i as int, old(v)@[j as int]).update(
            j as int,
            old(v)@[i as int],
        ),
        final(v)@.to_multiset() == old(v)@.to_multiset(),
{
    let a = v[i];
    let b = v[j];
    v.set(i, b);
    v.set(j, a);
    proof {
        broadcast use vstd::seq_lib::to_multiset_update;
        broadcast use vstd::seq_lib::group_to_multiset_ensures;

        let s = old(v)@;
        assert(s.contains(s[i as int]));
        assert(s.contains(s[j as int]));
        if i == j {
            assert(v@ =~= s);
        } else {
            assert(s.update(i as int, s[j as int])[j as int] == s[j as int]);
            assert(v@.to_multiset() =~= s.to_multiset());
        }
    }
}

/// Sort particles by mass, descending (insertion sort by adjacent
/// swaps).  The result is a permutation of the input.
pub fn sort_by_mass<S: Scalar>(particles: &mut Vec<Particle<S>>)
    ensures
        final(particles)@.len() == old(particles)@.len(),
        final(particles)@.to_multiset() == old(particles)@.to_multiset(),
        masses_descending(final(particles)@),
{
    let n = particles.len();
    if n == 0 {
        return ;
    }
    let mut i: usize = 1;
    while i < n
        invariant
            1 <= i <= n,
            particles@.len() == n,
            particles@.to_multiset() == old(particles)@.to_multiset(),
            forall|k: int|
                0 <= k < i - 1 ==> !(#[trigger] particles@[k]).mass.lt_spec(
                    particles@[k + 1].mass,
                ),
        decreases n - i,
    {
        let mut j: usize = i;
        while j > 0 && particles[j - 1].mass.is_lt(particles[j].mass)
            invariant
                j <= i < n,
                particles@.len() == n,
                particles@.to_multiset() == old(particles)@.to_multiset(),
                forall|k: int|
                    0 <= k < i && k != j - 1 ==> !(#[trigger] particles@[k]).mass.lt_spec(
                        particles@[k + 1].mass,
                    ),
                1 <= j < i ==> !particles@[j - 1].mass.lt_spec(particles@[j + 1].mass),
            decreases j,
        {
            let ghost s = particles@;
            swap_particles(particles, j - 1, j);
            proof {
                S::lt_asymmetric(s[j - 1].mass, s[j as int].mass);
                assert forall|k: int|
                    0 <= k < i && k != j - 2 implies !(#[trigger] particles@[k]).mass.lt_spec(
                    particles@[k + 1].mass,
                ) by {
                    if k == j - 1 {
                    } else if k == j {
                        assert(particles@[k].mass == s[j - 1].mass);
                        assert(particles@[k + 1].mass == s[j + 1].mass);
                    } else {
                        assert(particles@[k] == s[k] && particles@[k + 1] == s[k + 1]);
                    }
                }
            }
            j = j - 1;
        }
        i = i + 1;
    }
}

/// The index of the first particle with identity (zero) mass, or the
/// length if every particle is massive.
pub fn first_massless<S: Scalar>(particles: &Vec<Particle<S>>) -> (r: usize)
    ensures
        r <= particles@.len(),
        forall|k: int| 0 <= k < r ==> (#[trigger] particles@[k]).mass != S::zero_spec(),
        r < particles@.len() ==> particles@[r as int].mass == S::zero_spec(),
{
    let n = particles.len();
    let mut i: usize = 0;
    while i < n
        invariant
            i <= n,
            n == particles@.len(),
            forall|k: int| 0 <= k < i ==> (#[trigger] particles@[k]).mass != S::zero_spec(),
        decreases n - i,
    {
        if particles[i].mass.is_zero() {
            return i;
        }
        i = i + 1;
    }
    n
}

/// Sum of the masses of the first `n` particles, accumulated left to
/// right from the identity.
pub open spec fn total_mass_upto<S: Scalar>(s: Seq<Particle<S>>, n: int) -> S
    decreases n,
{
    if n <= 0 {
        S::zero_spec()
    } else {
        total_mass_upto(s, n - 1).add_spec(s[n - 1].mass)
    }
}

/// Sum of mass-weighted velocities of the first `n` particles,
/// accumulated left to right from the zero vector.
pub open spec fn total_momentum_upto<S: Scalar>(s: Seq<Particle<S>>, n: int) -> gvec2<S>
    decreases n,
{
    if n <= 0 {
        gvec2::zero_spec()
    } else {
        total_momentum_upto(s, n - 1).add_spec(s[n - 1].vel.scale_spec(s[n - 1].mass))
    }
}

/// What `remove_net_momentum` leaves behind: if the total mass is
/// positive, every velocity is shifted by the momentum-per-mass vector;
/// otherwise the particles are untouched.
pub open spec fn momentum_removed<S: Scalar>(s: Seq<Particle<S>>) -> Seq<Particle<S>> {
    let tm = total_mass_upto(s, s.len() as int);
    if S::zero_spec().lt_spec(tm) {
        let dv = total_momentum_upto(s, s.len() as int).div_s_spec(tm);
        Seq::new(
            s.len(),
            |k: int| Particle { pos: s[k].pos, vel: s[k].vel.sub_spec(dv), mass: s[k].mass },
        )
    } else {
        s
    }
}

/// `remove_net_momentum` never touches positions, masses or the length
/// of the sequence.
pub proof fn lemma_momentum_removed_frame<S: Scalar>(s: Seq<Particle<S>>)
    ensures
        momentum_removed(s).len() == s.len(),
        forall|k: int| 0 <= k < s.len() ==> (#[trigger] momentum_removed(s)[k]).mass == s[k].mass,
        forall|k: int| 0 <= k < s.len() ==> (#[trigger] momentum_removed(s)[k]).pos == s[k].pos,
{
}

/// Add a constant velocity to each particle so that the system's net
/// momentum becomes zero (up to the scalar's rounding).  With a total
/// mass that is not positive, the particles are left untouched.
///
/// This does not otherwise alter the physics: it amounts to a moving
/// simulation frame centred on the system's centre of gravity.
pub fn remove_net_momentum<S: Scalar>(particles: &mut Vec<Particle<S>>)
    ensures
        final(particles)@ == momentum_removed(old(particles)@),
{
    let n = particles.len();
    let mut total_mass = S::zero();
    let mut total_momentum = gvec2::<S>::zero();
    let mut i: usize = 0;
    while i < n
        invariant
            i <= n,
            n == particles@.len(),
            particles@ == old(particles)@,
            total_mass == total_mass_upto(particles@, i as int),
            total_momentum == total_momentum_upto(particles@, i as int),
        decreases n - i,
    {
        let p = particles[i];
        total_mass = total_mass.add(p.mass);
        total_momentum = total_momentum.add(p.vel.scale(p.mass));
        i = i + 1;
    }
    if S::zero().is_lt(total_mass) {
        let delta_v = total_momentum.div_s(total_mass);
        let mut i: usize = 0;
        while i < n
            invariant
                i <= n,
                n == particles@.len(),
                S::zero_spec().lt_spec(total_mass_upto(old(particles)@, n as int)),
                delta_v == total_momentum_upto(old(particles)@, n as int).div_s_spec(
                    total_mass_upto(old(particles)@, n as int),
                ),
                forall|k: int|
                    i <= k < n ==> (#[trigger] particles@[k]) == old(particles)@[k],
                forall|k: int|
                    0 <= k < i ==> (#[trigger] particles@[k]) == (Particle {
                        pos: old(particles)@[k].pos,
                        vel: old(particles)@[k].vel.sub_spec(delta_v),
                        mass: old(particles)@[k].mass,
                    }),
            decreases n - i,
        {
            let p = particles[i];
            particles.set(i, Particle { pos: p.pos, vel: p.vel.sub(delta_v), mass: p.mass });
            i = i + 1;
        }
        proof {
            assert(particles@ =~= momentum_removed(old(particles)@));
        }
    }
}

} // verus!
