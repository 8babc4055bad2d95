use vstd::prelude::*;

use crate::particle::Particle;
use crate::scalar::Scalar;
use crate::util::zeros;
use crate::vec2::gvec2;

verus! {

/// The position and mass of each particle: all that gravity reads.
/// Stating force fields over these pairs makes it plain that velocity
/// updates cannot change an acceleration field.
pub open spec fn pos_mass_of<S: Scalar>(s: Seq<Particle<S>>) -> Seq<(gvec2<S>, S)> {
    s.map_values(|p: Particle<S>| (p.pos, p.mass))
}

/// One pairwise interaction between source `i` and sink `j`: the
/// displacement is scaled by the inverse cube of its length; `j`'s
/// contribution is added to the running accumulator for `i`, and `i`'s
/// contribution is subtracted from slot `j` (Newton's third law).
/// Coincident positions divide by the identity and yield whatever the
/// scalar's division then returns; they are not guarded.
pub open spec fn pair_kernel<S: Scalar>(
    pm: Seq<(gvec2<S>, S)>,
    i: int,
    j: int,
    acci: gvec2<S>,
    acc: Seq<gvec2<S>>,
) -> (gvec2<S>, Seq<gvec2<S>>) {
    let delta = pm[j].0.sub_spec(pm[i].0);
    let len2 = delta.dot_spec(delta);
    let len3 = len2.mul_spec(len2.sqrt_spec());
    let reduced = delta.div_s_spec(len3);
    (
        acci.add_spec(reduced.scale_spec(pm[j].1)),
        acc.update(j, acc[j].sub_spec(reduced.scale_spec(pm[i].1))),
    )
}

/// Source `i`'s interactions with every sink from `j` upward, in
/// ascending order.
pub open spec fn inner_sweep<S: Scalar>(
    pm: Seq<(gvec2<S>, S)>,
    i: int,
    j: int,
    acci: gvec2<S>,
    acc: Seq<gvec2<S>>,
) -> (gvec2<S>, Seq<gvec2<S>>)
    decreases pm.len() - j,
{
    if j >= pm.len() {
        (acci, acc)
    } else {
        let (acci2, acc2) = pair_kernel(pm, i, j, acci, acc);
        inner_sweep(pm, i, j + 1, acci2, acc2)
    }
}

/// Sweeps for sources `i` up to (not including) `lim`: each source
/// interacts with the sinks above it, then its own accumulated
/// contribution is added to its slot.
pub open spec fn outer_sweep<S: Scalar>(
    pm: Seq<(gvec2<S>, S)>,
    lim: int,
    i: int,
    acc: Seq<gvec2<S>>,
) -> Seq<gvec2<S>>
    decreases lim - i,
{
    if i < 0 || i >= lim {
        acc
    } else {
        let (acci, acc1) = inner_sweep(pm, i, i + 1, gvec2::zero_spec(), acc);
        let acc2 = acc1.update(i, acc1[i].add_spec(acci));
        outer_sweep(pm, lim, i + 1, acc2)
    }
}

/// The acceleration field of pairwise gravity whose sources are the
/// first `lim` particles; all particles receive contributions.
pub open spec fn pairwise_accel<S: Scalar>(pm: Seq<(gvec2<S>, S)>, lim: int) -> Seq<gvec2<S>> {
    outer_sweep(pm, lim, 0, Seq::new(pm.len(), |k: int| gvec2::zero_spec()))
}

pub proof fn lemma_inner_sweep_len<S: Scalar>(
    pm: Seq<(gvec2<S>, S)>,
    i: int,
    j: int,
    acci: gvec2<S>,
    acc: Seq<gvec2<S>>,
)
    requires
        acc.len() == pm.len(),
        0 <= j,
    ensures
        inner_sweep(pm, i, j, acci, acc).1.len() == acc.len(),
    decreases pm.len() - j,
{
    if j < pm.len() {
        let (acci2, acc2) = pair_kernel(pm, i, j, acci, acc);
        assert(inner_sweep(pm, i, j, acci, acc) == inner_sweep(pm, i, j + 1, acci2, acc2));
        assert(acc2.len() == acc.len());
        lemma_inner_sweep_len(pm, i, j + 1, acci2, acc2);
    } else {
        assert(inner_sweep(pm, i, j, acci, acc) == (acci, acc));
    }
}

pub proof fn lemma_outer_sweep_len<S: Scalar>(
    pm: Seq<(gvec2<S>, S)>,
    lim: int,
    i: int,
    acc: Seq<gvec2<S>>,
)
    requires
        acc.len() == pm.len(),
        lim <= pm.len(),
    ensures
        outer_sweep(pm, lim, i, acc).len() == acc.len(),
    decreases lim - i,
{
    if 0 <= i < lim {
        let (acci, acc1) = inner_sweep(pm, i, i + 1, gvec2::zero_spec(), acc);
        lemma_inner_sweep_len(pm, i, i + 1, gvec2::zero_spec(), acc);
        lemma_outer_sweep_len(pm, lim, i + 1, acc1.update(i, acc1[i].add_spec(acci)));
    }
}

pub proof fn lemma_pairwise_accel_len<S: Scalar>(pm: Seq<(gvec2<S>, S)>, lim: int)
    requires
        lim <= pm.len(),
    ensures
        pairwise_accel(pm, lim).len() == pm.len(),
{
    lemma_outer_sweep_len(pm, lim, 0, Seq::new(pm.len(), |k: int| gvec2::zero_spec()));
}

/// The field of a two-body system, written out: the first slot gains
/// the displacement scaled by the second body's mass over the cubed
/// distance, and the second slot loses the same reduced vector scaled
/// by the first body's mass — both accelerations come from one shared
/// kernel evaluation (Newton's third law), in exactly the accumulation
/// order the sweep uses.
pub proof fn lemma_pairwise_accel_two_bodies<S: Scalar>(pm: Seq<(gvec2<S>, S)>)
    requires
        pm.len() == 2,
    ensures
        ({
            let delta = pm[1].0.sub_spec(pm[0].0);
            let len2 = delta.dot_spec(delta);
            let len3 = len2.mul_spec(len2.sqrt_spec());
            let reduced = delta.div_s_spec(len3);
            let z = gvec2::<S>::zero_spec();
            pairwise_accel(pm, 2) =~= seq![
                z.add_spec(z.add_spec(reduced.scale_spec(pm[1].1))),
                z.sub_spec(reduced.scale_spec(pm[0].1)).add_spec(z),
            ]
        }),
{
    let z = gvec2::<S>::zero_spec();
    let zs = Seq::new(pm.len(), |k: int| gvec2::<S>::zero_spec());
    let (acci0, acc0) = pair_kernel(pm, 0, 1, z, zs);
    assert(inner_sweep(pm, 0, 1, z, zs) == inner_sweep(pm, 0, 2, acci0, acc0));
    assert(inner_sweep(pm, 0, 2, acci0, acc0) == (acci0, acc0));
    let after0 = acc0.update(0, acc0[0].add_spec(acci0));
    assert(outer_sweep(pm, 2, 0, zs) == outer_sweep(pm, 2, 1, after0));
    assert(inner_sweep(pm, 1, 2, z, after0) == (z, after0));
    let after1 = after0.update(1, after0[1].add_spec(z));
    assert(outer_sweep(pm, 2, 1, after0) == outer_sweep(pm, 2, 2, after1));
    assert(outer_sweep(pm, 2, 2, after1) == after1);
}

/// A force model: computes the acceleration of every particle from the
/// whole particle array.
pub trait Forces<S: Scalar> {
    /// The exact acceleration field the model computes, as a function
    /// of the particles' positions and masses.
    spec fn accel_spec(&self, pm: Seq<(gvec2<S>, S)>) -> Seq<gvec2<S>>;

    /// The field assigns one acceleration to each particle.
    proof fn accel_spec_len(&self, pm: Seq<(gvec2<S>, S)>)
        ensures
            self.accel_spec(pm).len() == pm.len(),
    ;

    /// Overwrite every slot of `acc` with the model's acceleration
    /// field at the particles' current positions.
    fn set_accel(&self, particles: &Vec<Particle<S>>, acc: &mut Vec<gvec2<S>>)
        requires
            old(acc)@.len() == particles@.len(),
        ensures
            final(acc)@ == self.accel_spec(pos_mass_of(particles@)),
    ;

    /// Like `set_accel`, but into a fresh buffer.
    fn accel(&self, particles: &Vec<Particle<S>>) -> (r: Vec<gvec2<S>>)
        ensures
            r@ == self.accel_spec(pos_mass_of(particles@)),
    {
        let mut acc = zeros(particles.len());
        self.set_accel(particles, &mut acc);
        acc
    }
}

/// The shared pairwise kernel: zero the buffer, then sweep sources `0`
/// up to `lim`, exactly as `pairwise_accel` describes.
pub(crate) fn accumulate_pairwise<S: Scalar>(
    particles: &Vec<Particle<S>>,
    acc: &mut Vec<gvec2<S>>,
    lim: usize,
)
    requires
        old(acc)@.len() == particles@.len(),
        lim <= particles@.len(),
    ensures
        final(acc)@ == pairwise_accel(pos_mass_of(particles@), lim as int),
{
    let ghost pm = pos_mass_of(particles@);
    let n = particles.len();
    let mut i: usize = 0;
    while i < n
        invariant
            i <= n,
            acc@.len() == n,
            forall|k: int| 0 <= k < i ==> acc@[k] == gvec2::<S>::zero_spec(),
        decreases n - i,
    {
        acc.set(i, gvec2::zero());
        i = i + 1;
    }
    proof {
        assert(acc@ =~= Seq::new(pm.len(), |k: int| gvec2::<S>::zero_spec()));
    }
    let ghost target = pairwise_accel(pm, lim as int);
    let mut i: usize = 0;
    while i < lim
        invariant
            i <= lim <= n,
            n == particles@.len(),
            pm == pos_mass_of(particles@),
            acc@.len() == n,
            outer_sweep(pm, lim as int, i as int, acc@) == target,
        decreases lim - i,
    {
        let ghost acc0 = acc@;
        let pi = particles[i];
        let mut acci = gvec2::<S>::zero();
        let mut j: usize = i + 1;
        while j < n
            invariant
                i < lim <= n,
                i + 1 <= j <= n,
                n == particles@.len(),
                pm == pos_mass_of(particles@),
                acc@.len() == n,
                pi == particles@[i as int],
                inner_sweep(pm, i as int, j as int, acci, acc@) == inner_sweep(
                    pm,
                    i as int,
                    i + 1,
                    gvec2::zero_spec(),
                    acc0,
                ),
            decreases n - j,
        {
            let ghost acci_in = acci;
            let ghost acc_in = acc@;
            let pj = particles[j];
            let delta = pj.pos.sub(pi.pos);
            let len2 = delta.dot(delta);
            let len = len2.sqrt();
            let len3 = len2.mul(len);
            let reduced = delta.div_s(len3);
            acci = acci.add(reduced.scale(pj.mass));
            let t = acc[j].sub(reduced.scale(pi.mass));
            acc.set(j, t);
            proof {
                assert(pm[j as int] == (particles@[j as int].pos, particles@[j as int].mass));
                assert(pm[i as int] == (particles@[i as int].pos, particles@[i as int].mass));
                assert((acci, acc@) == pair_kernel(pm, i as int, j as int, acci_in, acc_in));
            }
            j = j + 1;
        }
        let ghost acc_end = acc@;
        let t = acc[i].add(acci);
        acc.set(i, t);
        proof {
            assert(inner_sweep(pm, i as int, n as int, acci, acc_end) == (acci, acc_end));
            assert(acc@ == acc_end.update(i as int, acc_end[i as int].add_spec(acci)));
            assert(outer_sweep(pm, lim as int, i as int, acc0) == outer_sweep(
                pm,
                lim as int,
                i as int + 1,
                acc@,
            ));
        }
        i = i + 1;
    }
    proof {
        assert(outer_sweep(pm, lim as int, lim as int, acc@) == acc@);
    }
}

} // verus!
